//! The consumer's handle together with its ends of the two channels.
use crate::channel::{open, receive, send};
use crate::handle::{Handle, OutOfTurn};
use crate::protocol::{in_turn, react, stage_after, Action, Event, Stage};
use std::sync::mpsc::{Receiver, Sender};
use vstd::prelude::*;

verus! {

/// A handle bound to the consumer's ends of the two channels.
///
/// The consumer carries out the channel operations of the handshake itself:
/// it sends the resume signal and waits on the value channel. What it cannot
/// do is look at the producer's thread, so `Probe` and `Join` are left to its
/// owner. Its view is the past of its handle.
#[verifier::reject_recursive_types(T)]
pub struct Consumer<T> {
    handle: Handle<T>,
    sign: Sender<()>,
    yields: Receiver<T>,
}

impl<T> View for Consumer<T> {
    type V = Seq<Event<T>>;

    closed spec fn view(&self) -> Seq<Event<T>> {
        self.handle@
    }
}

/// What `drive` comes to from `past` on `event`, when a receive, if one is
/// made, gives `got`: the past that results and the answer.
///
/// A `Resume` or `Receive` that the handle asks for is carried out on the
/// spot and its answer fed back, so neither is ever the answer here.
pub open spec fn driven<T>(past: Seq<Event<T>>, event: Event<T>, got: Option<T>) -> (
    Seq<Event<T>>,
    Result<Action<T>, OutOfTurn>,
) {
    match react(stage_after(past), event) {
        None => (past, Err(OutOfTurn)),
        Some((_, Action::Resume)) => (past.push(event).push(Event::Resumed), Ok(Action::Probe)),
        Some((_, Action::Receive)) => (
            past.push(event).push(Event::Received(got)),
            Ok(
                match got {
                    Some(v) => Action::Return(Some(v)),
                    None => Action::Probe,
                },
            ),
        ),
        Some((_, action)) => (past.push(event), Ok(action)),
    }
}

impl<T> Consumer<T> {
    /// A consumer with no past over the given channel ends: `sign` to resume
    /// the producer, `yields` to take its values.
    pub fn new(sign: Sender<()>, yields: Receiver<T>) -> (consumer: Consumer<T>)
        ensures
            consumer@ == Seq::<Event<T>>::empty(),
    {
        Consumer { handle: Handle::new(), sign, yields }
    }

    /// The stage the consumer stands at.
    pub fn stage(&self) -> (stage: Stage)
        ensures
            stage == stage_after(self@),
            in_turn(self@),
    {
        self.handle.stage()
    }

    /// Whether the producer has ended and was joined.
    pub fn is_exhausted(&self) -> (gone: bool)
        ensures
            gone == (stage_after(self@) == Stage::Exhausted),
    {
        self.handle.is_exhausted()
    }

    /// Takes one event, carries out the channel operation that the handle
    /// asks for, if it asks for one, and says what is left to do.
    ///
    /// On `Resume` the signal is sent, a failure ignored, and `Resumed` fed
    /// back. On `Receive` the call blocks on the value channel and feeds back
    /// what came. Every other answer of the handle is passed on as it is.
    pub fn drive(&mut self, event: Event<T>) -> (answer: Result<Action<T>, OutOfTurn>)
        ensures
            in_turn(final(self)@),
            exists|got: Option<T>| (final(self)@, answer) == driven(old(self)@, event, got),
    {
        let ghost before = self@;
        match self.handle.step(event) {
            Ok(Action::Resume) => {
                let _ = send(&self.sign, ());
                let answer = self.handle.step(Event::Resumed);
                proof {
                    assert((self@, answer) == driven(before, event, None));
                }
                answer
            },
            Ok(Action::Receive) => {
                let got = receive(&self.yields);
                let ghost seen = got;
                let answer = self.handle.step(Event::Received(got));
                proof {
                    assert((self@, answer) == driven(before, event, seen));
                }
                answer
            },
            other => {
                proof {
                    assert((self@, other) == driven(before, event, None));
                }
                other
            },
        }
    }
}

/// Opens the two channels of a handshake and deals out their ends: a
/// consumer over the sending end of the resume channel and the receiving end
/// of the value channel, and the producer's context, the other two ends, in
/// the order in which `yield_` takes them.
pub fn wire<T>() -> (ends: (Consumer<T>, (Receiver<()>, Sender<T>)))
    ensures
        ends.0@ == Seq::<Event<T>>::empty(),
{
    let (sign, resume) = open::<()>();
    let (value, yields) = open::<T>();
    (Consumer::new(sign, yields), (resume, value))
}

} // verus!
