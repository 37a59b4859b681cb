use radio_core::exchange::{CommandRun, Delivery, Step};
use radio_core::urc200::{plan_tune, UrcCommand};
use radio_core::waterfall::{feed_step, FeedAction, FeedEvent};
use radio_core::{DriverError, RadioError, TuneRequest};

fn acked() -> Delivery {
    Delivery::Answered { acked: true }
}

#[test]
fn run_sends_every_command_in_order_then_succeeds() {
    let plan = plan_tune(&TuneRequest::split(140_000_000, 150_000_000)).unwrap();
    let (mut run, step) = CommandRun::start(plan.commands.clone(), true);
    assert!(matches!(step, Step::Send(UrcCommand::SetRx(140_000_000))));
    assert!(matches!(run.on_delivery(acked()), Step::Send(UrcCommand::SetTx(150_000_000))));
    assert!(matches!(run.on_delivery(acked()), Step::Done));
    // an ended run stays ended
    assert!(matches!(run.on_delivery(acked()), Step::Done));
}

#[test]
fn run_fails_on_nak_when_ack_required() {
    let (mut run, _) = CommandRun::start(vec![UrcCommand::SetRx(1), UrcCommand::SetTx(2)], true);
    match run.on_delivery(Delivery::Answered { acked: false }) {
        Step::Fail(RadioError::Driver(m)) => assert_eq!(m, "radio did not acknowledge the command"),
        other => panic!("unexpected {:?}", other),
    }
    assert!(matches!(run.on_delivery(acked()), Step::Done));
}

#[test]
fn run_ignores_nak_when_ack_not_required() {
    let (mut run, step) = CommandRun::start(vec![1u8, 2], false);
    assert!(matches!(step, Step::Send(1)));
    assert!(matches!(run.on_delivery(Delivery::Answered { acked: false }), Step::Send(2)));
    assert!(matches!(run.on_delivery(Delivery::Answered { acked: false }), Step::Done));
}

#[test]
fn run_stops_on_transport_failure() {
    let (mut run, _) = CommandRun::start(vec![1u8, 2, 3], false);
    assert!(matches!(run.on_delivery(Delivery::Failed(DriverError::Timeout)), Step::Fail(RadioError::Timeout)));
    let (mut run, _) = CommandRun::start(vec![1u8, 2, 3], true);
    assert!(matches!(run.on_delivery(acked()), Step::Send(2)));
    match run.on_delivery(Delivery::Failed(DriverError::Transport("gone".to_string()))) {
        Step::Fail(RadioError::Transport(t)) => assert_eq!(t, "gone"),
        other => panic!("unexpected {:?}", other),
    }
}

#[test]
fn empty_run_succeeds_at_once() {
    let (mut run, step) = CommandRun::<u8>::start(Vec::new(), true);
    assert!(matches!(step, Step::Done));
    assert!(matches!(run.on_delivery(acked()), Step::Done));
}

#[test]
fn feed_rules() {
    assert_eq!(feed_step(FeedEvent::Frame), FeedAction::Forward);
    assert_eq!(feed_step(FeedEvent::Lagged), FeedAction::Skip);
    assert_eq!(feed_step(FeedEvent::ChannelClosed), FeedAction::Stop);
    assert_eq!(feed_step(FeedEvent::ClientGone), FeedAction::Stop);
    assert_eq!(feed_step(FeedEvent::ClientText), FeedAction::Retune);
    assert_eq!(feed_step(FeedEvent::ClientOther), FeedAction::Skip);
    assert_eq!(feed_step(FeedEvent::SendFailed), FeedAction::Stop);
}
