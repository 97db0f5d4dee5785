//! The top-level run: what the harness does when the signal fires, when the
//! subscription is acquired or released, and when the client fails, under
//! each strategy; and how the run ends.
use vstd::prelude::*;

use crate::signal::{cancel_spec, SignalState};
use crate::strategy::{parse_spec, parse_strategy, Dispatch, Strategy, UsageError};
use crate::subscriber::ClientError;

verus! {

/// Delay after which the canceller fires the signal, in milliseconds.
pub const CANCEL_DELAY_MS: u64 = 1000;

/// The held subscription. Its release action runs at most once, and only
/// after it was acquired.
#[derive(Clone, Copy, Debug, PartialEq, Eq, Structural)]
pub enum ResourceState {
    NotAcquired,
    Held,
    Released,
}

/// How a run ends.
#[derive(Clone, Copy, Debug, PartialEq, Eq, Structural)]
pub enum Outcome {
    CleanExit,
    /// A context-pinned task was discarded from a foreign context at
    /// teardown, so its resource could not be released correctly.
    ForeignContextDiscardFault,
    ClientFailure(ClientError),
    Usage(UsageError),
}

/// Where the run stands.
#[derive(Clone, Copy, Debug, PartialEq, Eq, Structural)]
pub enum Phase {
    /// The signal has not been acted on yet.
    Waiting,
    /// The race's losing branch is being cancelled in place; the race
    /// returns once the release action has run.
    Releasing,
    Exited(Outcome),
}

/// What the run is told.
#[derive(Clone, Copy, Debug, PartialEq, Eq, Structural)]
pub enum Event {
    /// The wait on the cancellation signal returned.
    Cancelled,
    /// The subscriber task holds its subscription.
    Acquired,
    /// The subscription's release action ran.
    Released,
    /// A step of the notification client failed.
    ClientFailed(ClientError),
}

/// What the run does in answer.
#[derive(Clone, Copy, Debug, PartialEq, Eq, Structural)]
pub enum Action {
    /// Nothing yet: wait for the next event.
    Wait,
    /// Cancel the losing branch of the race where it stands, which runs the
    /// release action.
    CancelInPlace,
    /// Tear the scheduler down; the run ends with this outcome.
    Teardown(Outcome),
}

/// What the run starts: the canceller's delay and the subscriber's dispatch.
#[derive(Clone, Copy, Debug, PartialEq, Eq, Structural)]
pub struct Launch {
    pub delay_ms: u64,
    pub dispatch: Dispatch,
}

/// The state of one run.
#[derive(Clone, Copy, Debug, PartialEq, Eq, Structural)]
pub struct Harness {
    pub strategy: Strategy,
    pub signal: SignalState,
    pub resource: ResourceState,
    pub phase: Phase,
}

/// Status with which the process ends.
pub open spec fn exit_code_spec(o: Outcome) -> i32 {
    match o {
        Outcome::CleanExit => 0,
        Outcome::Usage(_) => 1,
        Outcome::ForeignContextDiscardFault => 2,
        Outcome::ClientFailure(_) => 3,
    }
}

pub open spec fn initial(s: Strategy) -> Harness {
    Harness {
        strategy: s,
        signal: SignalState::Active,
        resource: ResourceState::NotAcquired,
        phase: Phase::Waiting,
    }
}

pub open spec fn launch_spec(s: Strategy) -> Launch {
    Launch { delay_ms: CANCEL_DELAY_MS, dispatch: s.dispatch_spec() }
}

/// What a run started with argument `arg` begins as, or why it does not.
pub open spec fn begin_spec(arg: Option<Seq<char>>) -> Result<(Harness, Launch), UsageError> {
    match parse_spec(arg) {
        Ok(s) => Ok((initial(s), launch_spec(s))),
        Err(e) => Err(e),
    }
}

/// The phase reached when the signal is seen cancelled while waiting.
pub open spec fn phase_on_cancel(s: Strategy, r: ResourceState) -> Phase {
    match s {
        Strategy::AffineDetached => Phase::Exited(Outcome::ForeignContextDiscardFault),
        Strategy::TransferableDetached => Phase::Exited(Outcome::CleanExit),
        Strategy::StructuredRace => if r == ResourceState::Held {
            Phase::Releasing
        } else {
            Phase::Exited(Outcome::CleanExit)
        },
    }
}

/// The state after event `ev`. A run that has exited takes no more events.
pub open spec fn next_state(h: Harness, ev: Event) -> Harness {
    if h.phase is Exited {
        h
    } else {
        match ev {
            Event::Cancelled => if h.phase == Phase::Waiting {
                Harness {
                    signal: cancel_spec(h.signal),
                    phase: phase_on_cancel(h.strategy, h.resource),
                    ..h
                }
            } else {
                Harness { signal: cancel_spec(h.signal), ..h }
            },
            Event::Acquired => if h.resource == ResourceState::NotAcquired {
                Harness { resource: ResourceState::Held, ..h }
            } else {
                h
            },
            Event::Released => if h.resource == ResourceState::Held {
                Harness {
                    resource: ResourceState::Released,
                    phase: if h.phase == Phase::Releasing {
                        Phase::Exited(Outcome::CleanExit)
                    } else {
                        h.phase
                    },
                    ..h
                }
            } else {
                h
            },
            Event::ClientFailed(e) => Harness { phase: Phase::Exited(Outcome::ClientFailure(e)), ..h },
        }
    }
}

/// The action taken on event `ev`: tear down when the run has just ended,
/// cancel in place when a race has just begun releasing, else wait.
pub open spec fn action_for(h: Harness, ev: Event) -> Action {
    let n = next_state(h, ev);
    if h.phase is Exited {
        Action::Wait
    } else if n.phase is Exited {
        Action::Teardown(n.phase->Exited_0)
    } else if h.phase == Phase::Waiting && n.phase == Phase::Releasing {
        Action::CancelInPlace
    } else {
        Action::Wait
    }
}

/// The state after the events of `events`, in order.
pub open spec fn run(h: Harness, events: Seq<Event>) -> Harness
    decreases events.len(),
{
    if events.len() == 0 {
        h
    } else {
        next_state(run(h, events.drop_last()), events.last())
    }
}

/// What holds of every state that a run reaches.
pub open spec fn reachable_inv(h: Harness) -> bool {
    &&& h.phase == Phase::Releasing ==> h.strategy == Strategy::StructuredRace
        && h.resource == ResourceState::Held
    &&& h.strategy == Strategy::StructuredRace && h.phase == Phase::Exited(Outcome::CleanExit)
        ==> h.resource != ResourceState::Held
    &&& h.strategy != Strategy::StructuredRace && h.signal == SignalState::Cancelled
        ==> h.phase is Exited
    &&& h.strategy == Strategy::AffineDetached && h.phase is Exited ==> {
        ||| h.phase == Phase::Exited(Outcome::ForeignContextDiscardFault)
        ||| h.phase->Exited_0 is ClientFailure
    }
    &&& h.strategy != Strategy::AffineDetached
        ==> h.phase != Phase::Exited(Outcome::ForeignContextDiscardFault)
    &&& !(h.phase matches Phase::Exited(Outcome::Usage(_)))
}

proof fn lemma_step_keeps_inv(h: Harness, ev: Event)
    requires
        reachable_inv(h),
    ensures
        reachable_inv(next_state(h, ev)),
{
}

proof fn lemma_run_keeps_inv(s: Strategy, events: Seq<Event>)
    ensures
        reachable_inv(run(initial(s), events)),
        run(initial(s), events).strategy == s,
    decreases events.len(),
{
    if events.len() > 0 {
        lemma_run_keeps_inv(s, events.drop_last());
        lemma_step_keeps_inv(run(initial(s), events.drop_last()), events.last());
    }
}

/// Status with which the process ends after outcome `o`.
pub fn exit_code(o: Outcome) -> (r: i32)
    ensures
        r == exit_code_spec(o),
{
    match o {
        Outcome::CleanExit => 0,
        Outcome::Usage(_) => 1,
        Outcome::ForeignContextDiscardFault => 2,
        Outcome::ClientFailure(_) => 3,
    }
}

/// Chooses the strategy from the first command-line argument and starts a
/// run under it; with no usable argument nothing is started.
pub fn begin(arg: Option<&str>) -> (r: Result<(Harness, Launch), UsageError>)
    ensures
        r == begin_spec(
            match arg {
                Some(s) => Some(s@),
                None => None,
            },
        ),
{
    match parse_strategy(arg) {
        Ok(s) => Ok(Harness::start(s)),
        Err(e) => Err(e),
    }
}

impl Harness {
    /// A fresh run under strategy `s`, with what it starts.
    pub fn start(s: Strategy) -> (r: (Harness, Launch))
        ensures
            r.0 == initial(s),
            r.1 == launch_spec(s),
    {
        let h = Harness {
            strategy: s,
            signal: SignalState::create(),
            resource: ResourceState::NotAcquired,
            phase: Phase::Waiting,
        };
        (h, Launch { delay_ms: CANCEL_DELAY_MS, dispatch: s.dispatch() })
    }

    /// Takes in event `ev` and says what to do about it.
    pub fn step(&mut self, ev: Event) -> (a: Action)
        ensures
            *final(self) == next_state(*old(self), ev),
            a == action_for(*old(self), ev),
    {
        if let Phase::Exited(_) = self.phase {
            return Action::Wait;
        }
        match ev {
            Event::Cancelled => {
                self.signal.cancel();
                if self.phase == Phase::Waiting {
                    match self.strategy {
                        Strategy::AffineDetached => {
                            self.phase = Phase::Exited(Outcome::ForeignContextDiscardFault);
                            Action::Teardown(Outcome::ForeignContextDiscardFault)
                        },
                        Strategy::TransferableDetached => {
                            self.phase = Phase::Exited(Outcome::CleanExit);
                            Action::Teardown(Outcome::CleanExit)
                        },
                        Strategy::StructuredRace => {
                            if self.resource == ResourceState::Held {
                                self.phase = Phase::Releasing;
                                Action::CancelInPlace
                            } else {
                                self.phase = Phase::Exited(Outcome::CleanExit);
                                Action::Teardown(Outcome::CleanExit)
                            }
                        },
                    }
                } else {
                    Action::Wait
                }
            },
            Event::Acquired => {
                if self.resource == ResourceState::NotAcquired {
                    self.resource = ResourceState::Held;
                }
                Action::Wait
            },
            Event::Released => {
                if self.resource == ResourceState::Held {
                    self.resource = ResourceState::Released;
                    if self.phase == Phase::Releasing {
                        self.phase = Phase::Exited(Outcome::CleanExit);
                        return Action::Teardown(Outcome::CleanExit);
                    }
                }
                Action::Wait
            },
            Event::ClientFailed(e) => {
                self.phase = Phase::Exited(Outcome::ClientFailure(e));
                Action::Teardown(Outcome::ClientFailure(e))
            },
        }
    }

    /// Whether the run has ended.
    pub fn is_finished(&self) -> (r: bool)
        ensures
            r == (self.phase is Exited),
    {
        match self.phase {
            Phase::Exited(_) => true,
            _ => false,
        }
    }
}

/// Whatever strategy the argument selects, the canceller is started with a
/// delay of one second.
pub proof fn lemma_delay_is_one_second(arg: Option<Seq<char>>)
    ensures
        begin_spec(arg) is Ok ==> begin_spec(arg)->Ok_0.1.delay_ms == 1000,
{
}

/// Under the structured race, a run that has ended cleanly no longer holds
/// its resource: if it was acquired, its release ran before the race
/// returned, whatever the order of events.
pub proof fn lemma_race_releases_before_return(events: Seq<Event>)
    ensures
        ({
            let h = run(initial(Strategy::StructuredRace), events);
            h.phase == Phase::Exited(Outcome::CleanExit) ==> h.resource != ResourceState::Held
        }),
{
    lemma_run_keeps_inv(Strategy::StructuredRace, events);
}

/// Under the context-pinned detached strategy, a run whose signal fired has
/// reached teardown, and a run that reached teardown reports the
/// foreign-context fault, unless a client step failed first and ended it.
pub proof fn lemma_affine_teardown_faults(events: Seq<Event>)
    ensures
        ({
            let h = run(initial(Strategy::AffineDetached), events);
            &&& h.signal == SignalState::Cancelled ==> h.phase is Exited
            &&& h.phase is Exited ==> {
                ||| h.phase == Phase::Exited(Outcome::ForeignContextDiscardFault)
                ||| h.phase->Exited_0 is ClientFailure
            }
        }),
{
    lemma_run_keeps_inv(Strategy::AffineDetached, events);
}

/// Under the transferable detached strategy, a run whose signal fired has
/// ended, and it ended cleanly unless a client step failed first. Nothing is
/// said of the release.
pub proof fn lemma_transferable_exits_cleanly(events: Seq<Event>)
    ensures
        ({
            let h = run(initial(Strategy::TransferableDetached), events);
            &&& h.signal == SignalState::Cancelled ==> h.phase is Exited
            &&& h.phase is Exited ==> {
                ||| h.phase == Phase::Exited(Outcome::CleanExit)
                ||| h.phase->Exited_0 is ClientFailure
            }
        }),
{
    lemma_run_keeps_inv(Strategy::TransferableDetached, events);
}

/// A missing or unrecognised argument starts nothing, neither the subscriber
/// nor the canceller, and the process ends with status 1.
pub proof fn lemma_usage_error_starts_nothing(arg: Option<Seq<char>>)
    requires
        parse_spec(arg) is Err,
    ensures
        begin_spec(arg) == Err::<(Harness, Launch), UsageError>(parse_spec(arg)->Err_0),
        exit_code_spec(Outcome::Usage(parse_spec(arg)->Err_0)) == 1,
{
}

} // verus!
