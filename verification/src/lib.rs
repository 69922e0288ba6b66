//! A generator as a handshake between two threads of control.
//!
//! A producer runs as straight-line code and hands values out one at a time;
//! a consumer pulls them. Two channels connect the two: the consumer sends a
//! bare resume signal on one, the producer answers with one value on the
//! other. This crate holds both halves of that handshake:
//!
//! * [`yield_`], the producer's half: wait for a resume, then hand one value
//!   over;
//! * [`Handle`], the consumer's half as a state machine: after each thing the
//!   consumer learns it says what is to be done next, and when a pull is over;
//! * [`Consumer`], a handle bound to its ends of the two channels, which sends
//!   the resume signals and receives the values itself;
//! * [`laws`], what holds of every sequence of events a handle can meet.
//!
//! Nothing here touches a thread. Whether the producer has finished, and the
//! join when it has, are asked of the owner of the handle with an [`Action`]
//! and answered with an [`Event`].
pub mod channel;
pub mod consumer;
pub mod handle;
pub mod laws;
pub mod producer;
pub mod protocol;

pub use consumer::{wire, Consumer};
pub use handle::{Handle, OutOfTurn};
pub use producer::{hand_over, yield_, Yielded};
pub use protocol::{Action, Event, Stage};
