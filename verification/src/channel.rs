//! The channel operations the handshake rests on.
//!
//! Nothing here is proved: each item states what `std::sync::mpsc` documents of
//! the call it makes, and the rest of the crate takes that on trust.
use std::sync::mpsc::{Receiver, Sender};
use vstd::prelude::*;

verus! {

/// `std::sync::mpsc::Receiver`, the receiving end of a channel. Opaque: nothing
/// is said of what the channel holds.
#[verifier::external_type_specification]
#[verifier::external_body]
#[verifier::reject_recursive_types(T)]
pub struct ExReceiver<T>(Receiver<T>);

/// `std::sync::mpsc::Sender`, the sending end of a channel. Opaque like the
/// receiving end.
#[verifier::external_type_specification]
#[verifier::external_body]
#[verifier::reject_recursive_types(T)]
pub struct ExSender<T>(Sender<T>);

/// Calls `std::sync::mpsc::channel` for a fresh channel and hands out its two
/// ends. Nothing is claimed of them.
#[verifier::external_body]
pub(crate) fn open<T>() -> (ends: (Sender<T>, Receiver<T>)) {
    std::sync::mpsc::channel()
}

/// Calls `Receiver::recv` and hands out what came.
///
/// The call blocks while the channel is empty and a sender is still alive. It
/// gives `Some` with a value taken off the channel, and `None` once the channel
/// is empty and every sender is gone. Which of the two happens, and with which
/// value, is up to the other end, so nothing is claimed of the result.
#[verifier::external_body]
pub(crate) fn receive<T>(rx: &Receiver<T>) -> (got: Option<T>) {
    rx.recv().ok()
}

/// Calls `Sender::send` and hands back what could not be sent.
///
/// `send` never blocks. It fails only when the receiving end is gone, and the
/// error then carries the very value it was given: that value is what comes
/// back in `Some`. `None` means the channel took the value.
#[verifier::external_body]
pub(crate) fn send<T>(tx: &Sender<T>, value: T) -> (back: Option<T>)
    ensures
        back matches Some(v) ==> v == value,
{
    match tx.send(value) {
        Ok(()) => None,
        Err(e) => Some(e.0),
    }
}

} // verus!
