//! What holds of every past that a handle can have.
use crate::consumer::driven;
use crate::handle::OutOfTurn;
use crate::protocol::{
    in_turn, joins, outcomes, pulls, react, received, resumes_in_pull, stage_after, Action, Event,
    Stage,
};
use vstd::prelude::*;

verus! {

/// Whether `event` is an answer that a producer can give which yields
/// `values`, in that order, and then ends, by a panic if `panics`. `got` is
/// what had been received before `event`.
///
/// Three things are asked. A value received is the next one of `values`: the
/// value channel keeps the order and makes nothing up. A join reports a
/// panic just when there was one. And the producer is seen to have ended
/// only once all of `values` have been received. The threads do not promise
/// this last one: a producer may end right after its last yield, while the
/// value is still on the channel. A past in which it is then seen to have
/// ended does not fit; in it the handle joins without a receive and the
/// value is lost.
pub open spec fn fits<T>(values: Seq<T>, panics: bool, got: Seq<T>, event: Event<T>) -> bool {
    match event {
        Event::Received(Some(v)) => got.len() < values.len() && v == values[got.len() as int],
        Event::Finished(true) => got.len() == values.len(),
        Event::Joined(clean) => clean == !panics,
        _ => true,
    }
}

/// Whether every event of `past` fits a producer that yields `values` and
/// then ends, by a panic if `panics`.
pub open spec fn follows<T>(past: Seq<Event<T>>, values: Seq<T>, panics: bool) -> bool
    decreases past.len(),
{
    past.len() == 0 || (follows(past.drop_last(), values, panics) && fits(
        values,
        panics,
        received(past.drop_last()),
        past.last(),
    ))
}

/// What pull number `k`, counted from 0, gives when the producer yields
/// `values` and then ends, by a panic if `panics`: the values in order, then
/// the panic if there was one, then `None` for good.
pub open spec fn expected<T>(values: Seq<T>, panics: bool, k: int) -> Action<T> {
    if k < values.len() {
        Action::Return(Some(values[k]))
    } else if k == values.len() && panics {
        Action::Raise
    } else {
        Action::Return(None)
    }
}

spec fn shaped<T>(past: Seq<Event<T>>) -> bool {
    let stage = stage_after(past);
    let outs = outcomes(past);
    let got = received(past);
    &&& got.len() <= outs.len()
    &&& forall|k: int| 0 <= k < got.len() ==> #[trigger] outs[k] == Action::Return(Some(got[k]))
    &&& stage != Stage::Exhausted ==> outs.len() == got.len()
    &&& stage == Stage::Exhausted ==> {
        &&& outs.len() > got.len()
        &&& outs[got.len() as int] == Action::<T>::Return(None) || outs[got.len() as int]
            == Action::<T>::Raise
        &&& forall|k: int| got.len() < k < outs.len() ==> #[trigger] outs[k] == Action::<T>::Return(None)
    }
    &&& pulls(past) == outs.len() + if stage == Stage::Idle || stage == Stage::Exhausted {
        0nat
    } else {
        1nat
    }
}

proof fn lemma_shaped<T>(past: Seq<Event<T>>)
    requires
        in_turn(past),
    ensures
        shaped(past),
    decreases past.len(),
{
    if past.len() > 0 {
        lemma_shaped(past.drop_last());
    }
}

spec fn scripted<T>(past: Seq<Event<T>>, values: Seq<T>, panics: bool) -> bool {
    let stage = stage_after(past);
    let got = received(past);
    &&& got.len() <= values.len()
    &&& forall|k: int| 0 <= k < got.len() ==> #[trigger] got[k] == values[k]
    &&& stage == Stage::Joining || stage == Stage::Exhausted ==> got.len() == values.len()
    &&& stage == Stage::Exhausted ==> outcomes(past)[values.len() as int] == expected(
        values,
        panics,
        values.len() as int,
    )
}

proof fn lemma_scripted<T>(past: Seq<Event<T>>, values: Seq<T>, panics: bool)
    requires
        in_turn(past),
        follows(past, values, panics),
    ensures
        scripted(past, values, panics),
    decreases past.len(),
{
    if past.len() > 0 {
        lemma_scripted(past.drop_last(), values, panics);
        lemma_shaped(past.drop_last());
        lemma_shaped(past);
    }
}

/// Every pull that was asked for and is over gave one outcome: between
/// pulls there are as many outcomes as pulls, during a pull one less.
pub proof fn law_one_outcome_per_pull<T>(past: Seq<Event<T>>)
    requires
        in_turn(past),
    ensures
        pulls(past) == outcomes(past).len() + if stage_after(past) == Stage::Idle || stage_after(
            past,
        ) == Stage::Exhausted {
            0nat
        } else {
            1nat
        },
{
    lemma_shaped(past);
}

/// The producer is resumed at most once in a pull, and not at all in a pull
/// that has not yet asked whether it has ended.
pub proof fn law_one_resume_per_pull<T>(past: Seq<Event<T>>)
    requires
        in_turn(past),
    ensures
        resumes_in_pull(past) <= 1,
        stage_after(past) == Stage::Probing || stage_after(past) == Stage::Resuming
            ==> resumes_in_pull(past) == 0,
    decreases past.len(),
{
    if past.len() > 0 {
        law_one_resume_per_pull(past.drop_last());
    }
}

/// The producer is joined once and no more: no past holds two joins, and a
/// handle is exhausted just when its past holds one.
pub proof fn law_joined_exactly_once<T>(past: Seq<Event<T>>)
    requires
        in_turn(past),
    ensures
        joins(past) == if stage_after(past) == Stage::Exhausted {
            1nat
        } else {
            0nat
        },
    decreases past.len(),
{
    if past.len() > 0 {
        law_joined_exactly_once(past.drop_last());
    }
}

/// Values pass through the handle untouched: pull number `k` returns the
/// value that receive number `k` took off the channel, and no pull returns
/// any other value. Nothing received is dropped, repeated or reordered.
pub proof fn law_pulls_return_what_was_received<T>(past: Seq<Event<T>>)
    requires
        in_turn(past),
    ensures
        received(past).len() <= outcomes(past).len(),
        forall|k: int|
            0 <= k < received(past).len() ==> #[trigger] outcomes(past)[k] == Action::Return(
                Some(received(past)[k]),
            ),
        forall|k: int|
            received(past).len() <= k < outcomes(past).len() ==> #[trigger] outcomes(past)[k]
                == Action::<T>::Return(None) || outcomes(past)[k] == Action::<T>::Raise,
{
    lemma_shaped(past);
}

/// Exhaustion is for good: once a pull has given no value, the handle is
/// exhausted and every later pull gives `None`.
pub proof fn law_no_value_is_for_good<T>(past: Seq<Event<T>>, k: int)
    requires
        in_turn(past),
        0 <= k < outcomes(past).len(),
        outcomes(past)[k] == Action::<T>::Return(None) || outcomes(past)[k] == Action::<T>::Raise,
    ensures
        stage_after(past) == Stage::Exhausted,
        forall|j: int| k < j < outcomes(past).len() ==> #[trigger] outcomes(past)[j] == Action::<T>::Return(None),
{
    lemma_shaped(past);
}

/// An exhausted handle answers at once: the one event it takes is `Advance`,
/// the answer is `Return(None)` with no channel or thread operation asked
/// for or made, and it stays exhausted whatever comes.
pub proof fn law_exhausted_answers_at_once<T>(past: Seq<Event<T>>, event: Event<T>)
    requires
        stage_after(past) == Stage::Exhausted,
    ensures
        stage_after(past.push(event)) == Stage::Exhausted,
        event == Event::<T>::Advance ==> react(Stage::Exhausted, event) == Some(
            (Stage::Exhausted, Action::<T>::Return(None)),
        ),
        event == Event::<T>::Advance ==> forall|got: Option<T>| #[trigger]
            driven(past, event, got) == (
                past.push(event),
                Ok::<Action<T>, OutOfTurn>(Action::<T>::Return(None)),
            ),
        event != Event::<T>::Advance ==> react(Stage::Exhausted, event) is None,
{
    assert(past.push(event).drop_last() == past);
}

/// The pulls replay the producer. When the producer yields `values`, in that
/// order, and then ends, pull number `k` returns `values[k]` for each `k`
/// below the number of values; the pull after the last value returns `None`,
/// or fails if the producer ended by a panic; and every later pull returns
/// `None`.
///
/// This holds of every past that follows the producer, which leaves out the
/// pasts in which the producer is seen to have ended before its last value
/// was received.
pub proof fn law_pulls_replay_the_producer<T>(past: Seq<Event<T>>, values: Seq<T>, panics: bool)
    requires
        in_turn(past),
        follows(past, values, panics),
    ensures
        forall|k: int|
            0 <= k < outcomes(past).len() ==> #[trigger] outcomes(past)[k] == expected(
                values,
                panics,
                k,
            ),
{
    lemma_shaped(past);
    lemma_scripted(past, values, panics);
}

} // verus!
