use mygenerator::{Action, Event, Handle, OutOfTurn, Stage};

#[test]
fn new_handle_is_idle() {
    let h: Handle<u8> = Handle::new();
    assert_eq!(h.stage(), Stage::Idle);
    assert!(!h.is_exhausted());
}

#[test]
fn pull_that_gets_a_value() {
    let mut h: Handle<u8> = Handle::new();
    assert_eq!(h.step(Event::Advance), Ok(Action::Probe));
    assert_eq!(h.stage(), Stage::Probing);
    assert_eq!(h.step(Event::Finished(false)), Ok(Action::Resume));
    assert_eq!(h.stage(), Stage::Resuming);
    assert_eq!(h.step(Event::Resumed), Ok(Action::Probe));
    assert_eq!(h.stage(), Stage::Polling);
    assert_eq!(h.step(Event::Finished(false)), Ok(Action::Receive));
    assert_eq!(h.stage(), Stage::Receiving);
    assert_eq!(h.step(Event::Received(Some(42))), Ok(Action::Return(Some(42))));
    assert_eq!(h.stage(), Stage::Idle);
    assert!(!h.is_exhausted());
}

#[test]
fn closed_channel_sends_the_handle_back_to_probing() {
    let mut h: Handle<u8> = Handle::new();
    assert_eq!(h.step(Event::Advance), Ok(Action::Probe));
    assert_eq!(h.step(Event::Finished(false)), Ok(Action::Resume));
    assert_eq!(h.step(Event::Resumed), Ok(Action::Probe));
    for _ in 0..5 {
        assert_eq!(h.step(Event::Finished(false)), Ok(Action::Receive));
        assert_eq!(h.step(Event::Received(None)), Ok(Action::Probe));
        assert_eq!(h.stage(), Stage::Polling);
    }
    assert_eq!(h.step(Event::Finished(true)), Ok(Action::Join));
    assert_eq!(h.stage(), Stage::Joining);
    assert_eq!(h.step(Event::Joined(true)), Ok(Action::Return(None)));
    assert!(h.is_exhausted());
}

#[test]
fn ended_producer_is_not_resumed() {
    let mut h: Handle<u8> = Handle::new();
    assert_eq!(h.step(Event::Advance), Ok(Action::Probe));
    assert_eq!(h.step(Event::Finished(true)), Ok(Action::Probe));
    assert_eq!(h.stage(), Stage::Polling);
    assert_eq!(h.step(Event::Finished(true)), Ok(Action::Join));
    assert_eq!(h.step(Event::Joined(true)), Ok(Action::Return(None)));
    assert_eq!(h.stage(), Stage::Exhausted);
}

#[test]
fn panic_of_the_producer_is_raised_once() {
    let mut h: Handle<u8> = Handle::new();
    assert_eq!(h.step(Event::Advance), Ok(Action::Probe));
    assert_eq!(h.step(Event::Finished(true)), Ok(Action::Probe));
    assert_eq!(h.step(Event::Finished(true)), Ok(Action::Join));
    assert_eq!(h.step(Event::Joined(false)), Ok(Action::Raise));
    assert!(h.is_exhausted());
    assert_eq!(h.step(Event::Advance), Ok(Action::Return(None)));
    assert_eq!(h.step(Event::Advance), Ok(Action::Return(None)));
}

#[test]
fn exhausted_handle_answers_every_pull_at_once() {
    let mut h: Handle<u8> = Handle::new();
    assert_eq!(h.step(Event::Advance), Ok(Action::Probe));
    assert_eq!(h.step(Event::Finished(true)), Ok(Action::Probe));
    assert_eq!(h.step(Event::Finished(true)), Ok(Action::Join));
    assert_eq!(h.step(Event::Joined(true)), Ok(Action::Return(None)));
    for _ in 0..100 {
        assert_eq!(h.step(Event::Advance), Ok(Action::Return(None)));
        assert_eq!(h.stage(), Stage::Exhausted);
    }
}

#[test]
fn exhausted_handle_takes_nothing_but_a_pull() {
    let mut h: Handle<u8> = Handle::new();
    assert_eq!(h.step(Event::Advance), Ok(Action::Probe));
    assert_eq!(h.step(Event::Finished(true)), Ok(Action::Probe));
    assert_eq!(h.step(Event::Finished(true)), Ok(Action::Join));
    assert_eq!(h.step(Event::Joined(true)), Ok(Action::Return(None)));
    assert_eq!(h.step(Event::Finished(false)), Err(OutOfTurn));
    assert_eq!(h.step(Event::Finished(true)), Err(OutOfTurn));
    assert_eq!(h.step(Event::Resumed), Err(OutOfTurn));
    assert_eq!(h.step(Event::Received(Some(1))), Err(OutOfTurn));
    assert_eq!(h.step(Event::Received(None)), Err(OutOfTurn));
    assert_eq!(h.step(Event::Joined(true)), Err(OutOfTurn));
    assert_eq!(h.step(Event::Joined(false)), Err(OutOfTurn));
    assert_eq!(h.stage(), Stage::Exhausted);
}

#[test]
fn event_out_of_turn_changes_nothing() {
    let mut h: Handle<u8> = Handle::new();
    assert_eq!(h.step(Event::Finished(false)), Err(OutOfTurn));
    assert_eq!(h.step(Event::Resumed), Err(OutOfTurn));
    assert_eq!(h.step(Event::Received(Some(3))), Err(OutOfTurn));
    assert_eq!(h.step(Event::Joined(true)), Err(OutOfTurn));
    assert_eq!(h.stage(), Stage::Idle);
    assert_eq!(h.step(Event::Advance), Ok(Action::Probe));
    assert_eq!(h.step(Event::Advance), Err(OutOfTurn));
    assert_eq!(h.step(Event::Resumed), Err(OutOfTurn));
    assert_eq!(h.step(Event::Received(None)), Err(OutOfTurn));
    assert_eq!(h.stage(), Stage::Probing);
    assert_eq!(h.step(Event::Finished(false)), Ok(Action::Resume));
    assert_eq!(h.step(Event::Finished(false)), Err(OutOfTurn));
    assert_eq!(h.step(Event::Advance), Err(OutOfTurn));
    assert_eq!(h.stage(), Stage::Resuming);
    assert_eq!(h.step(Event::Resumed), Ok(Action::Probe));
    assert_eq!(h.step(Event::Resumed), Err(OutOfTurn));
    assert_eq!(h.step(Event::Joined(false)), Err(OutOfTurn));
    assert_eq!(h.stage(), Stage::Polling);
    assert_eq!(h.step(Event::Finished(false)), Ok(Action::Receive));
    assert_eq!(h.step(Event::Finished(true)), Err(OutOfTurn));
    assert_eq!(h.step(Event::Advance), Err(OutOfTurn));
    assert_eq!(h.stage(), Stage::Receiving);
    assert_eq!(h.step(Event::Received(None)), Ok(Action::Probe));
    assert_eq!(h.step(Event::Finished(true)), Ok(Action::Join));
    assert_eq!(h.step(Event::Finished(true)), Err(OutOfTurn));
    assert_eq!(h.step(Event::Received(Some(9))), Err(OutOfTurn));
    assert_eq!(h.step(Event::Advance), Err(OutOfTurn));
    assert_eq!(h.stage(), Stage::Joining);
}

#[test]
fn finished_seen_before_the_receive_ends_the_pull_without_a_value() {
    // The producer was resumed, but is reported finished before the handle
    // has received: the handle joins and never looks at the value channel.
    let mut h: Handle<u8> = Handle::new();
    assert_eq!(h.step(Event::Advance), Ok(Action::Probe));
    assert_eq!(h.step(Event::Finished(false)), Ok(Action::Resume));
    assert_eq!(h.step(Event::Resumed), Ok(Action::Probe));
    assert_eq!(h.step(Event::Finished(true)), Ok(Action::Join));
    assert_eq!(h.step(Event::Joined(true)), Ok(Action::Return(None)));
    assert_eq!(h.step(Event::Advance), Ok(Action::Return(None)));
}

#[test]
fn values_come_out_as_they_went_in() {
    let mut h: Handle<u32> = Handle::new();
    let mut out = Vec::new();
    for v in [7u32, 7, 3, 0, 9] {
        assert_eq!(h.step(Event::Advance), Ok(Action::Probe));
        assert_eq!(h.step(Event::Finished(false)), Ok(Action::Resume));
        assert_eq!(h.step(Event::Resumed), Ok(Action::Probe));
        assert_eq!(h.step(Event::Finished(false)), Ok(Action::Receive));
        match h.step(Event::Received(Some(v))) {
            Ok(Action::Return(Some(got))) => out.push(got),
            other => panic!("pull gave {:?}", other),
        }
    }
    assert_eq!(out, vec![7, 7, 3, 0, 9]);
}
