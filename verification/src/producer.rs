//! The producer's half of the handshake.
use crate::channel::{receive, send};
use std::sync::mpsc::{Receiver, Sender};
use vstd::prelude::*;

verus! {

/// What became of one yield.
#[derive(Debug, PartialEq, Eq)]
pub enum Yielded<T> {
    /// A resume signal came and the value channel took the value.
    Sent,
    /// No resume signal came and none ever will: the resume channel is closed.
    /// The value was not sent and is handed back.
    Unresumed(T),
    /// A resume signal came, but the value channel is closed. The value is
    /// handed back.
    Refused(T),
}

impl<T> Yielded<T> {
    /// What a yield that was resumed comes to, given what the value channel
    /// handed back from the send.
    pub open spec fn of_send(back: Option<T>) -> Yielded<T> {
        match back {
            None => Yielded::Sent,
            Some(v) => Yielded::Refused(v),
        }
    }

    /// Reads the outcome of a resumed yield off what the send handed back:
    /// nothing back means sent, a value back means refused.
    pub fn after_send(back: Option<T>) -> (out: Yielded<T>)
        ensures
            out == Self::of_send(back),
    {
        match back {
            None => Yielded::Sent,
            Some(v) => Yielded::Refused(v),
        }
    }
}

/// Hands `value` to the consumer: waits on `c.0` for a resume signal and, once
/// one has come, sends `value` on `c.1`.
///
/// Blocks until the consumer resumes or the resume channel closes. The value
/// is sent only after a resume signal, and at most once. Whether the signal
/// comes and whether the send is taken lies with the other end; whatever
/// happens, a value that did not leave comes back unchanged in the result.
pub fn yield_<T>(c: &(Receiver<()>, Sender<T>), value: T) -> (out: Yielded<T>)
    ensures
        out == Yielded::<T>::Sent || out == Yielded::Unresumed(value) || out == Yielded::Refused(
            value,
        ),
{
    let resumed = receive(&c.0).is_some();
    hand_over(resumed, &c.1, value)
}

/// The rest of a yield once the wait for a resume is over; `resumed` says
/// whether a resume signal came.
///
/// Without a resume nothing is sent, and `value` is handed back as
/// `Unresumed`. With one, `value` is sent on `tx`, and the result says whether
/// the channel took it: `Sent`, or `Refused` with `value` handed back.
pub fn hand_over<T>(resumed: bool, tx: &Sender<T>, value: T) -> (out: Yielded<T>)
    ensures
        !resumed ==> out == Yielded::Unresumed(value),
        resumed ==> out == Yielded::<T>::Sent || out == Yielded::Refused(value),
{
    if resumed {
        let back = send(tx, value);
        Yielded::after_send(back)
    } else {
        Yielded::Unresumed(value)
    }
}

} // verus!
