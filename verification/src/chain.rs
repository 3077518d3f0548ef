//! What holds of a whole chain of operations on a builder, and of the record
//! that a request carries.
use vstd::prelude::*;

use crate::error::IntentError;
use crate::intent::{configured, dispatched, State, Step};

verus! {

/// A chain: `states[k + 1]` is what the operation `steps[k]` made of
/// `states[k]`.
pub open spec fn chained<'env>(states: Seq<State<'env>>, steps: Seq<Step>) -> bool {
    &&& states.len() == steps.len() + 1
    &&& forall|k: int|
        0 <= k < steps.len() ==> configured(states[k], #[trigger] steps[k], states[k + 1])
}

/// Once a builder in a chain has failed, every later operation leaves it as
/// it is: the state after any of them is the failed state itself.
pub proof fn lemma_failure_is_carried<'env>(
    states: Seq<State<'env>>,
    steps: Seq<Step>,
    first: int,
    later: int,
)
    requires
        chained(states, steps),
        0 <= first <= later < states.len(),
        states[first] is Failed,
    ensures
        states[later] == states[first],
    decreases later - first,
{
    if first < later {
        lemma_failure_is_carried(states, steps, first, later - 1);
        assert(configured(states[later - 1], steps[later - 1], states[later - 1 + 1]));
    }
}

/// Dispatching at the end of a chain in which some operation failed reports
/// the failure of the first one that did.
pub proof fn lemma_first_failure_is_reported<'env>(
    states: Seq<State<'env>>,
    steps: Seq<Step>,
    first: int,
    result: Result<(), IntentError>,
)
    requires
        chained(states, steps),
        0 <= first < states.len(),
        states[first] is Failed,
        forall|k: int| 0 <= k < first ==> states[k] is InProgress,
        dispatched(states.last(), result),
    ensures
        result == Err::<(), IntentError>(states[first]->Failed_0),
{
    lemma_failure_is_carried(states, steps, first, states.len() - 1);
}

/// A chain that ends with a request in progress never failed on the way, and
/// the request's record is the record it started with, followed by every
/// operation of the chain in order.
pub proof fn lemma_progress_records_every_step<'env>(states: Seq<State<'env>>, steps: Seq<Step>)
    requires
        chained(states, steps),
        states.last() is InProgress,
    ensures
        forall|k: int| 0 <= k < states.len() ==> (#[trigger] states[k]) is InProgress,
        states.last()->steps == states[0]->steps + steps,
    decreases steps.len(),
{
    assert forall|k: int| 0 <= k < states.len() implies (#[trigger] states[k]) is InProgress by {
        if states[k] is Failed {
            lemma_failure_is_carried(states, steps, k, states.len() - 1);
        }
    }
    if steps.len() == 0 {
        assert(states[0]->steps + steps =~= states[0]->steps);
    } else {
        let n = steps.len() - 1;
        let shorter_states = states.drop_last();
        let shorter_steps = steps.drop_last();
        assert(chained(shorter_states, shorter_steps)) by {
            assert forall|k: int| 0 <= k < shorter_steps.len() implies configured(
                shorter_states[k],
                #[trigger] shorter_steps[k],
                shorter_states[k + 1],
            ) by {
                assert(configured(states[k], steps[k], states[k + 1]));
            }
        }
        assert(states[n] is InProgress);
        assert(shorter_states.last() == states[n]);
        lemma_progress_records_every_step(shorter_states, shorter_steps);
        assert(configured(states[n], steps[n], states[n + 1]));
        assert(states[0]->steps + steps =~= (states[0]->steps + shorter_steps).push(steps[n]));
    }
}

/// The text that a request has on record under `key`: the value of the last
/// extra put under it since the request was constructed or wrapped. A wrapped
/// request starts without extras of its own; those of its target stay with
/// the target.
pub open spec fn recorded_extra(steps: Seq<Step>, key: Seq<char>) -> Option<Seq<char>>
    decreases steps.len(),
{
    if steps.len() == 0 {
        None
    } else {
        match steps.last() {
            Step::PutExtra { key: put, value } => if put == key {
                Some(value)
            } else {
                recorded_extra(steps.drop_last(), key)
            },
            Step::Construct { .. } => None,
            Step::Chooser { .. } => None,
            _ => recorded_extra(steps.drop_last(), key),
        }
    }
}

/// The record of the request that a chooser targets: everything before the
/// last wrapping. `None` where the request was never wrapped.
pub open spec fn recorded_target(steps: Seq<Step>) -> Option<Seq<Step>>
    decreases steps.len(),
{
    if steps.len() == 0 {
        None
    } else if steps.last() is Chooser {
        Some(steps.drop_last())
    } else {
        recorded_target(steps.drop_last())
    }
}

/// The last value put under a key is the one on record for it, whatever was
/// put under that key before.
pub proof fn lemma_last_extra_wins(steps: Seq<Step>, key: Seq<char>, value: Seq<char>)
    ensures
        recorded_extra(steps.push(Step::PutExtra { key, value }), key) == Some(value),
{
    let after = steps.push(Step::PutExtra { key, value });
    assert(after.last() == (Step::PutExtra { key, value }));
}

/// Putting an extra under one key leaves what is on record under every other
/// key as it was.
pub proof fn lemma_other_extras_stay(
    steps: Seq<Step>,
    key: Seq<char>,
    value: Seq<char>,
    other: Seq<char>,
)
    requires
        other != key,
    ensures
        recorded_extra(steps.push(Step::PutExtra { key, value }), other) == recorded_extra(
            steps,
            other,
        ),
{
    let after = steps.push(Step::PutExtra { key, value });
    assert(after.last() == (Step::PutExtra { key, value }));
    assert(after.drop_last() =~= steps);
}

/// Wrapping a request makes a new one: its target is the request as it was
/// before, and none of the target's extras is an extra of the wrapper.
pub proof fn lemma_chooser_targets_what_it_wraps(
    steps: Seq<Step>,
    title: Option<Seq<char>>,
    key: Seq<char>,
)
    ensures
        recorded_target(steps.push(Step::Chooser { title })) == Some(steps),
        recorded_extra(steps.push(Step::Chooser { title }), key).is_none(),
{
    let after = steps.push(Step::Chooser { title });
    assert(after.last() == (Step::Chooser { title }));
    assert(after.drop_last() =~= steps);
}

/// A request that is in progress after an extra was put under a key has that
/// value on record under the key.
pub proof fn lemma_extra_is_on_record<'env>(
    pre: State<'env>,
    post: State<'env>,
    key: Seq<char>,
    value: Seq<char>,
)
    requires
        configured(pre, Step::PutExtra { key, value }, post),
        post is InProgress,
    ensures
        recorded_extra(post->steps, key) == Some(value),
{
    lemma_last_extra_wins(pre->steps, key, value);
}

/// Of two extras put under one key, one after the other, the second is the
/// one on record.
pub proof fn lemma_second_extra_replaces_first<'env>(
    pre: State<'env>,
    between: State<'env>,
    post: State<'env>,
    key: Seq<char>,
    first: Seq<char>,
    second: Seq<char>,
)
    requires
        configured(pre, Step::PutExtra { key, value: first }, between),
        configured(between, Step::PutExtra { key, value: second }, post),
        post is InProgress,
    ensures
        recorded_extra(post->steps, key) == Some(second),
{
    lemma_extra_is_on_record(between, post, key, second);
}

/// A request that is in progress after it was wrapped has the request as it
/// was before for its target, and the record of both is kept.
pub proof fn lemma_wrapped_request_is_the_target<'env>(
    pre: State<'env>,
    post: State<'env>,
    title: Option<Seq<char>>,
)
    requires
        configured(pre, Step::Chooser { title }, post),
        post is InProgress,
    ensures
        pre is InProgress,
        recorded_target(post->steps) == Some(pre->steps),
{
    lemma_chooser_targets_what_it_wraps(pre->steps, title, Seq::empty());
}

} // verus!
