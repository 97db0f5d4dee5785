//! The three ways of tying the subscriber task to the cancellation signal,
//! and how one is chosen from the command line.
use vstd::prelude::*;

verus! {

/// How the subscriber task's lifetime relates to the cancellation signal and
/// to the scheduler's shutdown. Chosen once per run.
#[derive(Clone, Copy, Debug, PartialEq, Eq, Structural)]
pub enum Strategy {
    /// Pinned to the scheduler's own context, dispatched unsupervised.
    AffineDetached,
    /// Movable across contexts, dispatched unsupervised.
    TransferableDetached,
    /// Raced in place against the wait for cancellation.
    StructuredRace,
}

/// How a task is handed to the scheduler.
#[derive(Clone, Copy, Debug, PartialEq, Eq, Structural)]
pub enum Dispatch {
    /// Fire and forget: no handle is kept, so the task can be neither
    /// cancelled, nor joined, nor relied on to clean up.
    Unsupervised { transferable: bool },
    /// Combined with the cancellation wait in one race; the loser is
    /// cancelled in place before the race returns.
    Raced,
}

/// Why the command line selects no strategy.
#[derive(Clone, Copy, Debug, PartialEq, Eq, Structural)]
pub enum UsageError {
    MissingArgument,
    UnrecognizedArgument,
}

/// Text shown on the error stream when no strategy is selected.
pub const USAGE: &'static str = "Pass either 'select', 'spawn' or 'spawn_local'";

/// The strategy that a command-line word names, if any.
pub open spec fn strategy_of(word: Seq<char>) -> Option<Strategy> {
    if word == "spawn_local"@ {
        Some(Strategy::AffineDetached)
    } else if word == "spawn"@ {
        Some(Strategy::TransferableDetached)
    } else if word == "select"@ {
        Some(Strategy::StructuredRace)
    } else {
        None
    }
}

/// What the first command-line argument selects.
pub open spec fn parse_spec(arg: Option<Seq<char>>) -> Result<Strategy, UsageError> {
    match arg {
        None => Err(UsageError::MissingArgument),
        Some(word) => match strategy_of(word) {
            Some(s) => Ok(s),
            None => Err(UsageError::UnrecognizedArgument),
        },
    }
}

/// Whether two strings hold the same characters.
pub fn same_text(a: &str, b: &str) -> (r: bool)
    ensures
        r == (a@ == b@),
{
    let n = a.unicode_len();
    if n != b.unicode_len() {
        return false;
    }
    let mut i: usize = 0;
    while i < n
        invariant
            n == a@.len(),
            n == b@.len(),
            i <= n,
            a@.subrange(0, i as int) == b@.subrange(0, i as int),
        decreases n - i,
    {
        if a.get_char(i) != b.get_char(i) {
            assert(a@[i as int] != b@[i as int]);
            return false;
        }
        assert(a@.subrange(0, i + 1) =~= a@.subrange(0, i as int).push(a@[i as int]));
        assert(b@.subrange(0, i + 1) =~= b@.subrange(0, i as int).push(b@[i as int]));
        i = i + 1;
    }
    assert(a@ =~= a@.subrange(0, n as int));
    assert(b@ =~= b@.subrange(0, n as int));
    true
}

/// Selects the strategy named by the first command-line argument.
pub fn parse_strategy(arg: Option<&str>) -> (r: Result<Strategy, UsageError>)
    ensures
        r == parse_spec(
            match arg {
                Some(s) => Some(s@),
                None => None,
            },
        ),
{
    match arg {
        None => Err(UsageError::MissingArgument),
        Some(word) => {
            if same_text(word, "spawn_local") {
                Ok(Strategy::AffineDetached)
            } else if same_text(word, "spawn") {
                Ok(Strategy::TransferableDetached)
            } else if same_text(word, "select") {
                Ok(Strategy::StructuredRace)
            } else {
                Err(UsageError::UnrecognizedArgument)
            }
        },
    }
}

impl Strategy {
    /// How a task run under this strategy is handed to the scheduler.
    pub open spec fn dispatch_spec(self) -> Dispatch {
        match self {
            Strategy::AffineDetached => Dispatch::Unsupervised { transferable: false },
            Strategy::TransferableDetached => Dispatch::Unsupervised { transferable: true },
            Strategy::StructuredRace => Dispatch::Raced,
        }
    }

    pub fn dispatch(self) -> (r: Dispatch)
        ensures
            r == self.dispatch_spec(),
    {
        match self {
            Strategy::AffineDetached => Dispatch::Unsupervised { transferable: false },
            Strategy::TransferableDetached => Dispatch::Unsupervised { transferable: true },
            Strategy::StructuredRace => Dispatch::Raced,
        }
    }
}

} // verus!
