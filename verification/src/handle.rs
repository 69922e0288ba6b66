//! The consumer's handle: the transition table, run one event at a time.
use crate::protocol::{in_turn, react, stage_after, Action, Event, Stage};
use vstd::prelude::*;

verus! {

/// Answer to an event that the handle was not waiting for.
#[derive(Debug, Clone, Copy, PartialEq, Eq)]
pub struct OutOfTurn;

/// The consumer's half of the handshake.
///
/// The handle keeps the stage it stands at. Its view is its past: the events
/// it has taken, in order, from which the stage follows.
pub struct Handle<T> {
    stage: Stage,
    past: Ghost<Seq<Event<T>>>,
}

impl<T> View for Handle<T> {
    type V = Seq<Event<T>>;

    closed spec fn view(&self) -> Seq<Event<T>> {
        self.past@
    }
}

impl<T> Handle<T> {
    #[verifier::type_invariant]
    spec fn wf(self) -> bool {
        &&& in_turn(self.past@)
        &&& self.stage == stage_after(self.past@)
    }

    /// A handle with no past, at `Idle`.
    pub fn new() -> (handle: Handle<T>)
        ensures
            handle@ == Seq::<Event<T>>::empty(),
    {
        Handle { stage: Stage::Idle, past: Ghost(Seq::empty()) }
    }

    /// The stage the handle stands at.
    pub fn stage(&self) -> (stage: Stage)
        ensures
            stage == stage_after(self@),
            in_turn(self@),
    {
        proof {
            use_type_invariant(self);
        }
        self.stage
    }

    /// Whether the producer has ended and was joined.
    pub fn is_exhausted(&self) -> (gone: bool)
        ensures
            gone == (stage_after(self@) == Stage::Exhausted),
    {
        proof {
            use_type_invariant(self);
        }
        match self.stage {
            Stage::Exhausted => true,
            _ => false,
        }
    }

    /// Takes one event and says what to do next.
    ///
    /// An event in turn is added to the past and answered with the action the
    /// table gives for it. An event out of turn changes nothing and is
    /// answered with `OutOfTurn`.
    pub fn step(&mut self, event: Event<T>) -> (answer: Result<Action<T>, OutOfTurn>)
        ensures
            in_turn(final(self)@),
            match react(stage_after(old(self)@), event) {
                Some((next, action)) => {
                    &&& final(self)@ == old(self)@.push(event)
                    &&& stage_after(final(self)@) == next
                    &&& answer == Ok::<Action<T>, OutOfTurn>(action)
                },
                None => final(self)@ == old(self)@ && answer == Err::<Action<T>, OutOfTurn>(
                    OutOfTurn,
                ),
            },
    {
        proof {
            use_type_invariant(&*self);
        }
        let ghost before = self.past@;
        let turn = match self.stage {
            Stage::Idle => match event {
                Event::Advance => Some((Stage::Probing, Action::Probe)),
                _ => None,
            },
            Stage::Probing => match event {
                Event::Finished(true) => Some((Stage::Polling, Action::Probe)),
                Event::Finished(false) => Some((Stage::Resuming, Action::Resume)),
                _ => None,
            },
            Stage::Resuming => match event {
                Event::Resumed => Some((Stage::Polling, Action::Probe)),
                _ => None,
            },
            Stage::Polling => match event {
                Event::Finished(true) => Some((Stage::Joining, Action::Join)),
                Event::Finished(false) => Some((Stage::Receiving, Action::Receive)),
                _ => None,
            },
            Stage::Receiving => match event {
                Event::Received(Some(value)) => Some((Stage::Idle, Action::Return(Some(value)))),
                Event::Received(None) => Some((Stage::Polling, Action::Probe)),
                _ => None,
            },
            Stage::Joining => match event {
                Event::Joined(true) => Some((Stage::Exhausted, Action::Return(None))),
                Event::Joined(false) => Some((Stage::Exhausted, Action::Raise)),
                _ => None,
            },
            Stage::Exhausted => match event {
                Event::Advance => Some((Stage::Exhausted, Action::Return(None))),
                _ => None,
            },
        };
        let (next, action) = match turn {
            Some(turn) => turn,
            None => { return Err(OutOfTurn); },
        };
        proof {
            assert(before.push(event).drop_last() == before);
        }
        *self = Handle { stage: next, past: Ghost(before.push(event)) };
        Ok(action)
    }
}

} // verus!
