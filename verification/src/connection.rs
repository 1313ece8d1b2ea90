//! The seats' leaving and rejoining, each event with the round it happened in
//! and the number of draws, discards and calls that the round had seen.

use crate::error::{agrees, views, ConvError, ConvResult};
use crate::mjlog::{Action, ActionView};
use crate::splitter::as_slices;
use crate::tenhou::{Connection, CONNECTION_LEFT, CONNECTION_REJOINED};
use vstd::prelude::*;
use vstd::slice::slice_subrange;

verus! {

/// Whether `action` is a step of play: a draw, a discard or a call.
pub open spec fn is_step(action: ActionView) -> bool {
    action is N || action is DRAW || action is DISCARD
}

/// The number of steps among `actions`.
pub open spec fn steps(actions: Seq<ActionView>) -> nat
    decreases actions.len(),
{
    if actions.len() == 0 {
        0
    } else {
        steps(actions.drop_last()) + if is_step(actions.last()) {
            1nat
        } else {
            0nat
        }
    }
}

/// The connection event that `action` is, if it is one, in the round `log`
/// after `step` steps.
pub open spec fn connection_of(action: ActionView, log: Option<usize>, step: nat) -> Option<
    Connection,
> {
    match action {
        ActionView::BYE(bye) => Some(
            Connection { what: CONNECTION_LEFT, log, who: bye.who.0, step: step as usize },
        ),
        ActionView::UN2(un2) => Some(
            Connection { what: CONNECTION_REJOINED, log, who: un2.who.0, step: step as usize },
        ),
        _ => None,
    }
}

/// The connection events among `actions`, in order. With `log` the actions
/// are those of that round, and each event carries the number of steps that
/// the round has taken before it; without, they come before every round,
/// and each event carries 0.
pub open spec fn stretch_connections(actions: Seq<ActionView>, log: Option<usize>) -> Seq<Connection>
    decreases actions.len(),
{
    if actions.len() == 0 {
        Seq::empty()
    } else {
        let before = stretch_connections(actions.drop_last(), log);
        let step = if log is Some {
            steps(actions.drop_last())
        } else {
            0
        };
        match connection_of(actions.last(), log, step) {
            Some(connection) => before.push(connection),
            None => before,
        }
    }
}

/// The connection events of the first `n` rounds.
pub open spec fn rounds_connections(actions: Seq<ActionView>, slices: Seq<(int, int)>, n: nat) -> Seq<
    Connection,
>
    decreases n,
{
    if n == 0 {
        Seq::empty()
    } else {
        rounds_connections(actions, slices, (n - 1) as nat) + stretch_connections(
            actions.subrange(slices[n - 1].0, slices[n - 1].1),
            Some((n - 1) as usize),
        )
    }
}

/// The connection events of a log that `slices` cuts into rounds: those
/// before the first round, then those of each round.
pub open spec fn connections(actions: Seq<ActionView>, slices: Seq<(int, int)>) -> Seq<Connection>
    recommends
        slices.len() > 0,
{
    stretch_connections(actions.subrange(0, slices[0].0), None) + rounds_connections(
        actions,
        slices,
        slices.len(),
    )
}

/// Whether each of `slices` is a stretch of a log of `len` actions.
pub open spec fn within(slices: Seq<(int, int)>, len: nat) -> bool {
    forall|k: int| 0 <= k < slices.len() ==> 0 <= (#[trigger] slices[k]).0 <= slices[k].1 <= len
}

/// A stretch of actions holds no more steps than actions.
pub proof fn lemma_steps_bound(actions: Seq<ActionView>)
    ensures
        steps(actions) <= actions.len(),
    decreases actions.len(),
{
    if actions.len() > 0 {
        lemma_steps_bound(actions.drop_last());
    }
}

/// An event of a round carries the number of draws, discards and calls that
/// the round holds before it: the event at place `i` of the round `round`
/// is the last of the events up to there, and its step is the number of
/// steps among the `i` actions before it.
pub proof fn lemma_connection_step(round: Seq<ActionView>, log: usize, i: int)
    requires
        0 <= i < round.len() <= usize::MAX,
        round[i] is BYE || round[i] is UN2,
    ensures
        stretch_connections(round.take(i + 1), Some(log)).last() == connection_of(
            round[i],
            Some(log),
            steps(round.take(i)),
        ).unwrap(),
        stretch_connections(round.take(i + 1), Some(log)).last().step == steps(round.take(i)),
        stretch_connections(round.take(i + 1), Some(log)).last().log == Some(log),
{
    assert(round.take(i + 1).drop_last() =~= round.take(i));
    lemma_steps_bound(round.take(i));
}

/// The events of a stretch of actions start with the events of each shorter
/// stretch.
pub proof fn lemma_stretch_prefix(actions: Seq<ActionView>, log: Option<usize>, n: int)
    requires
        0 <= n <= actions.len(),
    ensures
        stretch_connections(actions.take(n), log).len() <= stretch_connections(actions, log).len(),
        stretch_connections(actions.take(n), log) == stretch_connections(actions, log).take(
            stretch_connections(actions.take(n), log).len() as int,
        ),
    decreases actions.len() - n,
{
    if n < actions.len() {
        lemma_stretch_prefix(actions, log, n + 1);
        assert(actions.take(n + 1).drop_last() =~= actions.take(n));
        let longer = stretch_connections(actions.take(n + 1), log);
        let shorter = stretch_connections(actions.take(n), log);
        assert(shorter =~= longer.take(shorter.len() as int));
        assert(shorter =~= stretch_connections(actions, log).take(shorter.len() as int));
    } else {
        assert(actions.take(n) =~= actions);
        assert(stretch_connections(actions, log) =~= stretch_connections(actions, log).take(
            stretch_connections(actions, log).len() as int,
        ));
    }
}

/// Appends the connection events of one stretch of actions.
fn push_connections(
    connections: &mut Vec<Connection>,
    actions: &[Action],
    log: Option<usize>,
)
    ensures
        final(connections)@ == old(connections)@ + stretch_connections(views(actions@), log),
{
    let ghost before = connections@;
    let ghost stretch = views(actions@);
    let mut step: usize = 0;
    let mut i: usize = 0;
    while i < actions.len()
        invariant
            0 <= i <= actions@.len(),
            stretch == views(actions@),
            step == if log is Some {
                steps(stretch.take(i as int))
            } else {
                0
            },
            connections@ == before + stretch_connections(stretch.take(i as int), log),
        decreases actions@.len() - i,
    {
        proof {
            assert(stretch.take(i + 1).drop_last() =~= stretch.take(i as int));
            lemma_steps_bound(stretch.take(i + 1));
        }
        match &actions[i] {
            Action::BYE(bye) => {
                connections.push(Connection { what: CONNECTION_LEFT, log, who: bye.who.to_u8(), step });
            },
            Action::UN2(un2) => {
                connections.push(
                    Connection { what: CONNECTION_REJOINED, log, who: un2.who.to_u8(), step },
                );
            },
            Action::N(_) | Action::DRAW(_) | Action::DISCARD(_) => {
                if log.is_some() {
                    step += 1;
                }
            },
            _ => {},
        }
        i += 1;
        proof {
            assert(connections@ =~= before + stretch_connections(stretch.take(i as int), log));
        }
    }
    proof {
        assert(stretch.take(i as int) =~= stretch);
    }
}

/// Collects the seats' leaving and rejoining over a log that `indices` cuts
/// into rounds.
pub fn conv_connections(actions: &[Action], indices: &[(usize, usize)]) -> (result: ConvResult<
    Vec<Connection>,
>)
    requires
        indices@.len() > 0,
        within(as_slices(indices@), actions@.len()),
    ensures
        agrees(
            result,
            Ok::<Seq<Connection>, ConvError>(connections(views(actions@), as_slices(indices@))),
        ),
{
    let mut connections: Vec<Connection> = Vec::new();
    let ghost slices = as_slices(indices@);
    let ghost log = views(actions@);
    proof {
        assert(slices[0] == (indices@[0].0 as int, indices@[0].1 as int));
        assert(views(actions@.subrange(0, indices@[0].0 as int)) =~= log.subrange(
            0,
            indices@[0].0 as int,
        ));
    }
    // Before the first round.
    push_connections(&mut connections, slice_subrange(actions, 0, indices[0].0), None);
    let ghost before_rounds = connections@;
    let mut log_index: usize = 0;
    while log_index < indices.len()
        invariant
            0 <= log_index <= indices@.len(),
            slices == as_slices(indices@),
            log == views(actions@),
            within(slices, actions@.len()),
            connections@ == before_rounds + rounds_connections(log, slices, log_index as nat),
        decreases indices@.len() - log_index,
    {
        let (start, end) = indices[log_index];
        proof {
            assert(slices[log_index as int] == (start as int, end as int));
            assert(views(actions@.subrange(start as int, end as int)) =~= log.subrange(
                start as int,
                end as int,
            ));
        }
        push_connections(&mut connections, slice_subrange(actions, start, end), Some(log_index));
        log_index += 1;
        proof {
            assert(connections@ =~= before_rounds + rounds_connections(
                log,
                slices,
                log_index as nat,
            ));
        }
    }
    Ok(connections)
}

} // verus!
