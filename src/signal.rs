//! The one-shot cancellation latch: Active until cancelled, Cancelled forever
//! after, and seen as such by every holder.
use vstd::prelude::*;

verus! {

/// State of the cancellation signal. The only transition is
/// Active to Cancelled, and it never goes back.
#[derive(Clone, Copy, Debug, PartialEq, Eq, Structural)]
pub enum SignalState {
    Active,
    Cancelled,
}

/// What a task that waits on the signal does now.
#[derive(Clone, Copy, Debug, PartialEq, Eq, Structural)]
pub enum WaitStep {
    /// The signal is cancelled: the wait returns at once.
    Ready,
    /// The signal is still active: the task suspends until it is cancelled.
    Suspend,
}

/// The state after one call of `cancel`.
pub open spec fn cancel_spec(s: SignalState) -> SignalState {
    SignalState::Cancelled
}

/// The state after `n` calls of `cancel`, starting from `s`.
pub open spec fn cancel_times(s: SignalState, n: nat) -> SignalState
    decreases n,
{
    if n == 0 {
        s
    } else {
        cancel_spec(cancel_times(s, (n - 1) as nat))
    }
}

/// What a wait on a signal in state `s` does.
pub open spec fn wait_spec(s: SignalState) -> WaitStep {
    match s {
        SignalState::Active => WaitStep::Suspend,
        SignalState::Cancelled => WaitStep::Ready,
    }
}

impl SignalState {
    /// A fresh, active signal.
    pub fn create() -> (r: SignalState)
        ensures
            r == SignalState::Active,
    {
        SignalState::Active
    }

    /// Fires the signal; a signal already cancelled stays as it is.
    pub fn cancel(&mut self)
        ensures
            *final(self) == cancel_spec(*old(self)),
    {
        *self = SignalState::Cancelled;
    }

    pub fn is_cancelled(&self) -> (r: bool)
        ensures
            r == (*self == SignalState::Cancelled),
    {
        match self {
            SignalState::Active => false,
            SignalState::Cancelled => true,
        }
    }

    /// Whether a wait on this signal returns now or suspends.
    pub fn wait(&self) -> (r: WaitStep)
        ensures
            r == wait_spec(*self),
    {
        match self {
            SignalState::Active => WaitStep::Suspend,
            SignalState::Cancelled => WaitStep::Ready,
        }
    }
}

/// Cancelling is idempotent: any number of calls of `cancel`, one or more,
/// leaves the signal, and what a wait on it does, as one call does.
pub proof fn lemma_cancel_idempotent(s: SignalState, n: nat)
    requires
        n >= 1,
    ensures
        cancel_times(s, n) == cancel_spec(s),
        wait_spec(cancel_times(s, n)) == wait_spec(cancel_spec(s)),
    decreases n,
{
    if n > 1 {
        lemma_cancel_idempotent(s, (n - 1) as nat);
    }
}

/// Once `cancel` has been called, a wait returns without suspending, whatever
/// the state was before.
pub proof fn lemma_wait_after_cancel(s: SignalState)
    ensures
        wait_spec(cancel_spec(s)) == WaitStep::Ready,
{
}

} // verus!
