//! The subscriber task's decisions: connect, obtain the proxy, subscribe, then
//! hold the subscription forever. Any failed step ends the run, with no retry.
use vstd::prelude::*;

verus! {

/// A failed step of the notification client. Each is fatal.
#[derive(Clone, Copy, Debug, PartialEq, Eq, Structural)]
pub enum ClientError {
    Connection,
    Proxy,
    Subscription,
}

/// Where the subscriber task stands.
#[derive(Clone, Copy, Debug, PartialEq, Eq, Structural)]
pub enum Stage {
    Connecting,
    RequestingProxy,
    Subscribing,
    /// The subscription is held; the task suspends and never completes.
    Holding,
    Failed(ClientError),
}

/// What the task is to do next.
#[derive(Clone, Copy, Debug, PartialEq, Eq, Structural)]
pub enum ClientCall {
    Connect,
    GetProxy,
    Subscribe,
    /// Record that the resource is held, then suspend forever.
    HoldForever,
    /// Give up the run with this error.
    Abort(ClientError),
}

/// The call that a task at stage `s` makes.
pub open spec fn call_for(s: Stage) -> ClientCall {
    match s {
        Stage::Connecting => ClientCall::Connect,
        Stage::RequestingProxy => ClientCall::GetProxy,
        Stage::Subscribing => ClientCall::Subscribe,
        Stage::Holding => ClientCall::HoldForever,
        Stage::Failed(e) => ClientCall::Abort(e),
    }
}

/// The stage after the current call succeeded or failed. Holding and
/// failure are final.
pub open spec fn stage_after(s: Stage, succeeded: bool) -> Stage {
    match s {
        Stage::Connecting => if succeeded {
            Stage::RequestingProxy
        } else {
            Stage::Failed(ClientError::Connection)
        },
        Stage::RequestingProxy => if succeeded {
            Stage::Subscribing
        } else {
            Stage::Failed(ClientError::Proxy)
        },
        Stage::Subscribing => if succeeded {
            Stage::Holding
        } else {
            Stage::Failed(ClientError::Subscription)
        },
        Stage::Holding => Stage::Holding,
        Stage::Failed(e) => Stage::Failed(e),
    }
}

/// The subscriber task, as a sequence of client calls.
#[derive(Clone, Copy, Debug, PartialEq, Eq, Structural)]
pub struct SubscriberTask {
    pub stage: Stage,
}

impl SubscriberTask {
    /// A task that has been dispatched and not yet connected.
    pub fn new() -> (r: SubscriberTask)
        ensures
            r.stage == Stage::Connecting,
    {
        SubscriberTask { stage: Stage::Connecting }
    }

    pub fn next_call(&self) -> (r: ClientCall)
        ensures
            r == call_for(self.stage),
    {
        match self.stage {
            Stage::Connecting => ClientCall::Connect,
            Stage::RequestingProxy => ClientCall::GetProxy,
            Stage::Subscribing => ClientCall::Subscribe,
            Stage::Holding => ClientCall::HoldForever,
            Stage::Failed(e) => ClientCall::Abort(e),
        }
    }

    /// Takes in whether the call that `next_call` named succeeded.
    pub fn record(&mut self, succeeded: bool)
        ensures
            final(self).stage == stage_after(old(self).stage, succeeded),
    {
        self.stage = match self.stage {
            Stage::Connecting => if succeeded {
                Stage::RequestingProxy
            } else {
                Stage::Failed(ClientError::Connection)
            },
            Stage::RequestingProxy => if succeeded {
                Stage::Subscribing
            } else {
                Stage::Failed(ClientError::Proxy)
            },
            Stage::Subscribing => if succeeded {
                Stage::Holding
            } else {
                Stage::Failed(ClientError::Subscription)
            },
            Stage::Holding => Stage::Holding,
            Stage::Failed(e) => Stage::Failed(e),
        };
    }

    /// Whether the task holds the subscription.
    pub fn holds_resource(&self) -> (r: bool)
        ensures
            r == (self.stage == Stage::Holding),
    {
        match self.stage {
            Stage::Holding => true,
            _ => false,
        }
    }
}

} // verus!
