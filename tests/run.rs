use cancel_harness::harness::{
    begin, exit_code, Action, Event, Harness, Outcome, Phase, ResourceState, CANCEL_DELAY_MS,
};
use cancel_harness::signal::{SignalState, WaitStep};
use cancel_harness::strategy::{parse_strategy, same_text, Dispatch, Strategy, UsageError, USAGE};
use cancel_harness::subscriber::{ClientCall, ClientError, Stage, SubscriberTask};

#[test]
fn no_argument_is_a_usage_error_with_status_one() {
    let r = begin(None);
    assert_eq!(r, Err(UsageError::MissingArgument));
    assert_eq!(exit_code(Outcome::Usage(UsageError::MissingArgument)), 1);
    assert_eq!(USAGE, "Pass either 'select', 'spawn' or 'spawn_local'");
}

#[test]
fn unrecognised_argument_is_a_usage_error_with_status_one() {
    for word in ["", "Spawn", "spawn_", "selec", "spawn_locals", "race"] {
        assert_eq!(begin(Some(word)), Err(UsageError::UnrecognizedArgument));
    }
    assert_eq!(exit_code(Outcome::Usage(UsageError::UnrecognizedArgument)), 1);
}

#[test]
fn words_select_their_strategies() {
    assert_eq!(parse_strategy(Some("spawn_local")), Ok(Strategy::AffineDetached));
    assert_eq!(parse_strategy(Some("spawn")), Ok(Strategy::TransferableDetached));
    assert_eq!(parse_strategy(Some("select")), Ok(Strategy::StructuredRace));
}

#[test]
fn same_text_compares_characters() {
    assert!(same_text("select", "select"));
    assert!(!same_text("select", "spawn"));
    assert!(!same_text("spawn", "spawn_local"));
    assert!(same_text("", ""));
    assert!(!same_text("é", "e"));
}

#[test]
fn every_strategy_waits_one_second() {
    for word in ["spawn_local", "spawn", "select"] {
        let (h, launch) = begin(Some(word)).unwrap();
        assert_eq!(launch.delay_ms, 1000);
        assert_eq!(CANCEL_DELAY_MS, 1000);
        assert_eq!(h.phase, Phase::Waiting);
        assert_eq!(h.signal, SignalState::Active);
    }
}

#[test]
fn dispatch_follows_strategy() {
    assert_eq!(Strategy::AffineDetached.dispatch(), Dispatch::Unsupervised { transferable: false });
    assert_eq!(Strategy::TransferableDetached.dispatch(), Dispatch::Unsupervised { transferable: true });
    assert_eq!(Strategy::StructuredRace.dispatch(), Dispatch::Raced);
}

#[test]
fn select_releases_before_returning() {
    let (mut h, launch) = begin(Some("select")).unwrap();
    assert_eq!(launch.dispatch, Dispatch::Raced);
    assert_eq!(h.step(Event::Acquired), Action::Wait);
    assert_eq!(h.step(Event::Cancelled), Action::CancelInPlace);
    assert_eq!(h.phase, Phase::Releasing);
    assert!(!h.is_finished());
    assert_eq!(h.step(Event::Released), Action::Teardown(Outcome::CleanExit));
    assert_eq!(h.resource, ResourceState::Released);
    assert_eq!(exit_code(Outcome::CleanExit), 0);
}

#[test]
fn select_cancelled_before_acquiring_exits_cleanly() {
    let (mut h, _) = Harness::start(Strategy::StructuredRace);
    assert_eq!(h.step(Event::Cancelled), Action::Teardown(Outcome::CleanExit));
    assert_eq!(h.resource, ResourceState::NotAcquired);
    assert_eq!(h.step(Event::Acquired), Action::Wait);
    assert_eq!(h.resource, ResourceState::NotAcquired);
}

#[test]
fn spawn_exits_cleanly_without_fault() {
    let (mut h, launch) = begin(Some("spawn")).unwrap();
    assert_eq!(launch.dispatch, Dispatch::Unsupervised { transferable: true });
    assert_eq!(h.step(Event::Acquired), Action::Wait);
    let a = h.step(Event::Cancelled);
    assert_eq!(a, Action::Teardown(Outcome::CleanExit));
    assert_eq!(exit_code(Outcome::CleanExit), 0);
}

#[test]
fn spawn_local_reports_foreign_context_fault() {
    let (mut h, launch) = begin(Some("spawn_local")).unwrap();
    assert_eq!(launch.dispatch, Dispatch::Unsupervised { transferable: false });
    assert_eq!(h.step(Event::Acquired), Action::Wait);
    let a = h.step(Event::Cancelled);
    assert_eq!(a, Action::Teardown(Outcome::ForeignContextDiscardFault));
    assert_ne!(exit_code(Outcome::ForeignContextDiscardFault), 0);
}

#[test]
fn spawn_local_faults_even_before_acquiring() {
    let (mut h, _) = Harness::start(Strategy::AffineDetached);
    assert_eq!(h.step(Event::Cancelled), Action::Teardown(Outcome::ForeignContextDiscardFault));
}

#[test]
fn client_failure_ends_the_run() {
    let (mut h, _) = Harness::start(Strategy::TransferableDetached);
    let a = h.step(Event::ClientFailed(ClientError::Proxy));
    assert_eq!(a, Action::Teardown(Outcome::ClientFailure(ClientError::Proxy)));
    assert_eq!(h.step(Event::Cancelled), Action::Wait);
    assert_eq!(h.phase, Phase::Exited(Outcome::ClientFailure(ClientError::Proxy)));
    assert_eq!(exit_code(Outcome::ClientFailure(ClientError::Proxy)), 3);
    assert_eq!(exit_code(Outcome::ForeignContextDiscardFault), 2);
}

#[test]
fn repeated_cancellation_events_change_nothing_more() {
    let (mut h, _) = Harness::start(Strategy::StructuredRace);
    h.step(Event::Acquired);
    h.step(Event::Cancelled);
    let once = h;
    assert_eq!(h.step(Event::Cancelled), Action::Wait);
    assert_eq!(h, once);
}

#[test]
fn cancel_is_idempotent() {
    let mut once = SignalState::create();
    once.cancel();
    let mut thrice = SignalState::create();
    thrice.cancel();
    thrice.cancel();
    thrice.cancel();
    assert_eq!(once, thrice);
    assert_eq!(once.wait(), thrice.wait());
    assert!(thrice.is_cancelled());
}

#[test]
fn wait_after_cancel_does_not_suspend() {
    let mut s = SignalState::create();
    assert_eq!(s.wait(), WaitStep::Suspend);
    assert!(!s.is_cancelled());
    s.cancel();
    assert_eq!(s.wait(), WaitStep::Ready);
}

#[test]
fn subscriber_goes_through_its_calls() {
    let mut t = SubscriberTask::new();
    assert_eq!(t.next_call(), ClientCall::Connect);
    t.record(true);
    assert_eq!(t.next_call(), ClientCall::GetProxy);
    t.record(true);
    assert_eq!(t.next_call(), ClientCall::Subscribe);
    assert!(!t.holds_resource());
    t.record(true);
    assert_eq!(t.next_call(), ClientCall::HoldForever);
    assert!(t.holds_resource());
    t.record(false);
    assert_eq!(t.stage, Stage::Holding);
}

#[test]
fn subscriber_failures_name_their_step_and_stay() {
    let mut t = SubscriberTask::new();
    t.record(false);
    assert_eq!(t.next_call(), ClientCall::Abort(ClientError::Connection));
    t.record(true);
    assert_eq!(t.stage, Stage::Failed(ClientError::Connection));

    let mut t = SubscriberTask::new();
    t.record(true);
    t.record(false);
    assert_eq!(t.next_call(), ClientCall::Abort(ClientError::Proxy));

    let mut t = SubscriberTask::new();
    t.record(true);
    t.record(true);
    t.record(false);
    assert_eq!(t.next_call(), ClientCall::Abort(ClientError::Subscription));
}
