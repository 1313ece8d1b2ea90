//! Cutting a log into its rounds.

use crate::error::{views, ConvError, ConvResult};
use crate::mjlog::{Action, ActionView};
use vstd::prelude::*;

verus! {

/// The places of the round-start actions in `actions`, ascending.
pub open spec fn round_starts(actions: Seq<ActionView>) -> Seq<int>
    decreases actions.len(),
{
    if actions.len() == 0 {
        Seq::empty()
    } else {
        let before = round_starts(actions.drop_last());
        if actions.last() is INIT {
            before.push(actions.len() - 1)
        } else {
            before
        }
    }
}

/// The rounds of `actions` as pairs of a first place and a place past the
/// last: each round runs from its round-start action up to the next
/// round-start action, the last round up to the end of the log.
pub open spec fn round_slices(actions: Seq<ActionView>) -> Seq<(int, int)> {
    let starts = round_starts(actions);
    Seq::new(
        starts.len(),
        |k: int|
            (
                starts[k],
                if k + 1 < starts.len() {
                    starts[k + 1]
                } else {
                    actions.len() as int
                },
            ),
    )
}

/// Pairs of machine indices as pairs of places.
pub open spec fn as_slices(indices: Seq<(usize, usize)>) -> Seq<(int, int)> {
    indices.map_values(|pair: (usize, usize)| (pair.0 as int, pair.1 as int))
}

/// Whether `slices` cuts `actions` into rounds: every slice starts at a
/// round-start action and holds no other; each slice begins where the one
/// before it ends; no round-start action comes before the first slice; and
/// the last slice ends where `actions` ends.
pub open spec fn splits_into_rounds(actions: Seq<ActionView>, slices: Seq<(int, int)>) -> bool {
    &&& forall|k: int|
        0 <= k < slices.len() ==> 0 <= (#[trigger] slices[k]).0 < slices[k].1 <= actions.len()
    &&& forall|k: int| 0 <= k < slices.len() ==> actions[(#[trigger] slices[k]).0] is INIT
    &&& forall|k: int, i: int|
        0 <= k < slices.len() && (#[trigger] slices[k]).0 < i < slices[k].1 ==> !(
        #[trigger] actions[i] is INIT)
    &&& forall|k: int| 0 < k < slices.len() ==> slices[k - 1].1 == (#[trigger] slices[k]).0
    &&& slices.len() > 0 ==> slices.last().1 == actions.len()
    &&& forall|i: int|
        0 <= i < actions.len() && (slices.len() == 0 || i < slices[0].0) ==> !(
        #[trigger] actions[i] is INIT)
}

proof fn lemma_round_starts_step(actions: Seq<ActionView>, i: int)
    requires
        0 <= i < actions.len(),
    ensures
        round_starts(actions.take(i + 1)) == if actions[i] is INIT {
            round_starts(actions.take(i)).push(i)
        } else {
            round_starts(actions.take(i))
        },
{
    assert(actions.take(i + 1).drop_last() =~= actions.take(i));
}

/// The round starts are places of round-start actions, in ascending order,
/// and no round-start action is left out.
pub proof fn lemma_round_starts(actions: Seq<ActionView>)
    ensures
        forall|k: int|
            0 <= k < round_starts(actions).len() ==> 0 <= (#[trigger] round_starts(actions)[k])
                < actions.len() && actions[round_starts(actions)[k]] is INIT,
        forall|j: int, k: int|
            0 <= j < k < round_starts(actions).len() ==> round_starts(actions)[j] < round_starts(
                actions,
            )[k],
        forall|i: int|
            0 <= i < actions.len() && (#[trigger] actions[i]) is INIT ==> round_starts(
                actions,
            ).contains(i),
    decreases actions.len(),
{
    if actions.len() > 0 {
        let shorter = actions.drop_last();
        lemma_round_starts(shorter);
        let before = round_starts(shorter);
        let starts = round_starts(actions);
        assert forall|i: int|
            0 <= i < actions.len() && (#[trigger] actions[i]) is INIT implies starts.contains(i) by {
            if i < actions.len() - 1 {
                assert(shorter[i] is INIT);
                let k = choose|k: int| 0 <= k < before.len() && before[k] == i;
                assert(starts[k] == i);
            } else {
                assert(starts[starts.len() - 1] == i);
            }
        }
    }
}

/// The rounds that the log is cut into are adjacent, hold one round-start
/// action each, at their head, and together cover the log from its first
/// round-start action to its end.
pub proof fn lemma_round_slices_split(actions: Seq<ActionView>)
    ensures
        splits_into_rounds(actions, round_slices(actions)),
        round_slices(actions).len() == 0 <==> forall|i: int|
            0 <= i < actions.len() ==> !(#[trigger] actions[i] is INIT),
{
    lemma_round_starts(actions);
    let starts = round_starts(actions);
    let slices = round_slices(actions);
    assert forall|k: int, i: int|
        0 <= k < slices.len() && (#[trigger] slices[k]).0 < i < slices[k].1 implies !(
    #[trigger] actions[i] is INIT) by {
        if actions[i] is INIT {
            let m = choose|m: int| 0 <= m < starts.len() && starts[m] == i;
            if m <= k {
                assert(starts[m] <= starts[k]);
            } else {
                assert(k + 1 < starts.len());
                assert(starts[k + 1] <= starts[m]);
            }
        }
    }
    assert forall|i: int|
        0 <= i < actions.len() && (slices.len() == 0 || i < slices[0].0) implies !(
    #[trigger] actions[i] is INIT) by {
        if actions[i] is INIT {
            let m = choose|m: int| 0 <= m < starts.len() && starts[m] == i;
            assert(starts[0] <= starts[m]);
        }
    }
    if slices.len() == 0 {
    } else {
        assert(actions[starts[0]] is INIT);
    }
}

/// Cuts the log into its rounds.
pub fn extract_round_indices(actions: &[Action]) -> (indices: Vec<(usize, usize)>)
    ensures
        as_slices(indices@) == round_slices(views(actions@)),
        splits_into_rounds(views(actions@), as_slices(indices@)),
        indices@.len() == 0 <==> forall|i: int|
            0 <= i < actions@.len() ==> !(#[trigger] views(actions@)[i] is INIT),
{
    let ghost log = views(actions@);
    let mut indices: Vec<(usize, usize)> = Vec::new();
    let mut start: Option<usize> = None;
    let mut i: usize = 0;
    while i < actions.len()
        invariant
            0 <= i <= actions@.len(),
            log == views(actions@),
            start is None <==> round_starts(log.take(i as int)).len() == 0,
            start matches Some(s) ==> s == round_starts(log.take(i as int)).last(),
            indices@.len() == if round_starts(log.take(i as int)).len() == 0 {
                0
            } else {
                round_starts(log.take(i as int)).len() - 1
            },
            forall|k: int|
                0 <= k < indices@.len() ==> (#[trigger] indices@[k]).0 == round_starts(
                    log.take(i as int),
                )[k] && indices@[k].1 == round_starts(log.take(i as int))[k + 1],
        decreases actions@.len() - i,
    {
        proof {
            lemma_round_starts_step(log, i as int);
        }
        if actions[i].is_init() {
            if let Some(start_index) = start {
                indices.push((start_index, i));
            }
            start = Some(i);
        }
        i += 1;
    }
    proof {
        assert(log.take(i as int) =~= log);
    }
    if let Some(start_index) = start {
        indices.push((start_index, actions.len()));
    }
    proof {
        assert(as_slices(indices@) =~= round_slices(log));
        lemma_round_slices_split(log);
    }
    indices
}

/// Cuts the log into its rounds; a log without a round-start action has
/// none, which is `NotFoundRound`.
pub fn split_rounds(actions: &[Action]) -> (result: ConvResult<Vec<(usize, usize)>>)
    ensures
        result is Ok <==> round_slices(views(actions@)).len() > 0,
        result is Ok <==> exists|i: int|
            0 <= i < actions@.len() && #[trigger] views(actions@)[i] is INIT,
        result matches Ok(indices) ==> as_slices(indices@) == round_slices(views(actions@))
            && splits_into_rounds(views(actions@), as_slices(indices@)),
        result matches Err(e) ==> e == ConvError::NotFoundRound,
{
    let indices = extract_round_indices(actions);
    if indices.len() == 0 {
        Err(ConvError::NotFoundRound)
    } else {
        Ok(indices)
    }
}

} // verus!
