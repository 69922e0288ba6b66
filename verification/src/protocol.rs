//! The consumer's half of the handshake as a transition table, and what a
//! sequence of events comes to under it.
use vstd::prelude::*;

verus! {

/// Where the consumer stands.
///
/// `Idle` and `Exhausted` are the two stages between pulls; the others are
/// passed through while a pull is under way, each waiting for one answer.
#[derive(Debug, Clone, Copy, PartialEq, Eq)]
pub enum Stage {
    /// No pull under way; the producer has not been seen to end.
    Idle,
    /// A pull has begun: waiting to learn whether the producer has ended,
    /// before it is resumed.
    Probing,
    /// Waiting for the resume signal to be sent.
    Resuming,
    /// Waiting to learn whether the producer has ended, before a receive.
    Polling,
    /// Waiting on the value channel.
    Receiving,
    /// The producer was seen to have ended: waiting for the join.
    Joining,
    /// The producer has ended and was joined. Nothing leads out of this stage.
    Exhausted,
}

/// What the consumer learns.
#[derive(Debug, PartialEq, Eq)]
pub enum Event<T> {
    /// A pull is asked for.
    Advance,
    /// Answer to `Probe`: whether the producer has run to its end.
    Finished(bool),
    /// Answer to `Resume`: the resume signal was handed to the channel,
    /// whether or not anybody is left to take it.
    Resumed,
    /// Answer to `Receive`: a value, or `None` when the value channel is closed.
    Received(Option<T>),
    /// Answer to `Join`: `true` when the producer ended in good order,
    /// `false` when it panicked.
    Joined(bool),
}

/// What the consumer has to do next.
#[derive(Debug, PartialEq, Eq)]
pub enum Action<T> {
    /// Ask whether the producer has run to its end; answer with `Finished`.
    Probe,
    /// Send a resume signal, ignoring a failure; answer with `Resumed`.
    Resume,
    /// Block on the value channel; answer with `Received`.
    Receive,
    /// Give up the producer's join handle and join it; answer with `Joined`.
    Join,
    /// The pull is over and gives this: a value, or `None` for good.
    Return(Option<T>),
    /// The pull is over and fails: the producer's panic goes on to the caller.
    Raise,
}

impl<T> Action<T> {
    /// Whether this action ends a pull.
    pub open spec fn ends_pull(self) -> bool {
        self is Return || self is Raise
    }
}

/// The transition table: the stage that follows `stage` on `event` and what is
/// to be done then, or `None` where `event` is not the one `stage` waits for.
pub open spec fn react<T>(stage: Stage, event: Event<T>) -> Option<(Stage, Action<T>)> {
    match (stage, event) {
        (Stage::Idle, Event::Advance) => Some((Stage::Probing, Action::Probe)),
        (Stage::Probing, Event::Finished(false)) => Some((Stage::Resuming, Action::Resume)),
        (Stage::Probing, Event::Finished(true)) => Some((Stage::Polling, Action::Probe)),
        (Stage::Resuming, Event::Resumed) => Some((Stage::Polling, Action::Probe)),
        (Stage::Polling, Event::Finished(false)) => Some((Stage::Receiving, Action::Receive)),
        (Stage::Polling, Event::Finished(true)) => Some((Stage::Joining, Action::Join)),
        (Stage::Receiving, Event::Received(Some(v))) => Some(
            (Stage::Idle, Action::Return(Some(v))),
        ),
        (Stage::Receiving, Event::Received(None)) => Some((Stage::Polling, Action::Probe)),
        (Stage::Joining, Event::Joined(true)) => Some((Stage::Exhausted, Action::Return(None))),
        (Stage::Joining, Event::Joined(false)) => Some((Stage::Exhausted, Action::Raise)),
        (Stage::Exhausted, Event::Advance) => Some((Stage::Exhausted, Action::Return(None))),
        _ => None,
    }
}

/// The stage reached from `Idle` by the events of `past`, in order. An event
/// that comes out of turn leaves the stage as it is.
pub open spec fn stage_after<T>(past: Seq<Event<T>>) -> Stage
    decreases past.len(),
{
    if past.len() == 0 {
        Stage::Idle
    } else {
        match react(stage_after(past.drop_last()), past.last()) {
            Some((next, _)) => next,
            None => stage_after(past.drop_last()),
        }
    }
}

/// Whether every event of `past` came in turn: each was the one that the
/// stage reached by those before it waits for.
pub open spec fn in_turn<T>(past: Seq<Event<T>>) -> bool
    decreases past.len(),
{
    past.len() == 0 || (in_turn(past.drop_last()) && react(
        stage_after(past.drop_last()),
        past.last(),
    ) is Some)
}

/// What the pulls of `past` gave, one entry for each pull that is over, in
/// order: the `Return` and `Raise` actions among the answers to its events.
pub open spec fn outcomes<T>(past: Seq<Event<T>>) -> Seq<Action<T>>
    decreases past.len(),
{
    if past.len() == 0 {
        Seq::empty()
    } else {
        match react(stage_after(past.drop_last()), past.last()) {
            Some((_, action)) if action.ends_pull() => outcomes(past.drop_last()).push(action),
            _ => outcomes(past.drop_last()),
        }
    }
}

/// How many pulls `past` asked for: the number of its `Advance` events.
pub open spec fn pulls<T>(past: Seq<Event<T>>) -> nat
    decreases past.len(),
{
    if past.len() == 0 {
        0
    } else {
        match past.last() {
            Event::Advance => pulls(past.drop_last()) + 1,
            _ => pulls(past.drop_last()),
        }
    }
}

/// How many resume signals `past` sent since its last `Advance`: the number
/// of `Resumed` events after it.
pub open spec fn resumes_in_pull<T>(past: Seq<Event<T>>) -> nat
    decreases past.len(),
{
    if past.len() == 0 {
        0
    } else {
        match past.last() {
            Event::Advance => 0,
            Event::Resumed => resumes_in_pull(past.drop_last()) + 1,
            _ => resumes_in_pull(past.drop_last()),
        }
    }
}

/// How often `past` joined the producer: the number of its `Joined` events.
pub open spec fn joins<T>(past: Seq<Event<T>>) -> nat
    decreases past.len(),
{
    if past.len() == 0 {
        0
    } else {
        match past.last() {
            Event::Joined(_) => joins(past.drop_last()) + 1,
            _ => joins(past.drop_last()),
        }
    }
}

/// The values that `past` took off the value channel, in order.
pub open spec fn received<T>(past: Seq<Event<T>>) -> Seq<T>
    decreases past.len(),
{
    if past.len() == 0 {
        Seq::empty()
    } else {
        match past.last() {
            Event::Received(Some(v)) => received(past.drop_last()).push(v),
            _ => received(past.drop_last()),
        }
    }
}

} // verus!
