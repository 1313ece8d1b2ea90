//! A seat's round, replayed from its draws, discards, riichi declarations and
//! calls.

use crate::error::{agrees, views, ConvError, ConvResult};
use crate::meld::{
    face, has_face, lemma_place_meld_valid, place_meld, reorder_call_geometry, MeldPlacement,
};
use crate::mjlog::{Action, ActionView, Player};
use crate::tenhou::{IncomingTile, OutgoingTile};
use crate::tile::{conv_hai_to_tile, Hai};
use vstd::pervasive::unreached;
use vstd::prelude::*;

verus! {

/// A seat's round as far as it has been replayed: what the seat took in and
/// gave out, whether it has declared riichi since its last discard, and the
/// tile it drew since then.
pub struct ReplayState {
    pub incoming: Seq<IncomingTile>,
    pub outgoing: Seq<OutgoingTile>,
    pub reach_declared: bool,
    pub last_draw: Option<Hai>,
}

/// Whether `action` is a draw, a discard, a riichi declaration or a call of
/// `seat`.
pub open spec fn acts(action: ActionView, seat: Player) -> bool {
    match action {
        ActionView::DRAW(draw) => draw.who == seat,
        ActionView::DISCARD(discard) => discard.who == seat,
        ActionView::REACH1(reach) => reach.who == seat,
        ActionView::N(call) => call.who == seat,
        _ => false,
    }
}

/// The actions of `seat` among `actions`, in order.
pub open spec fn seat_actions(actions: Seq<ActionView>, seat: Player) -> Seq<ActionView> {
    actions.filter(|action: ActionView| acts(action, seat))
}

/// Whether every call of `seat` in `actions` can be laid out.
pub open spec fn calls_placeable(actions: Seq<ActionView>, seat: Player, red_enabled: bool) -> bool {
    forall|i: int|
        0 <= i < actions.len() && acts(#[trigger] actions[i], seat) && actions[i] is N
            ==> actions[i]->N_0.m.placeable(red_enabled)
}

/// Whether `action` can be replayed: it is a draw, a discard, a riichi
/// declaration, or a call that can be laid out.
pub open spec fn replayable(action: ActionView, red_enabled: bool) -> bool {
    match action {
        ActionView::DRAW(_) => true,
        ActionView::DISCARD(_) => true,
        ActionView::REACH1(_) => true,
        ActionView::N(call) => call.m.placeable(red_enabled),
        _ => false,
    }
}

/// Whether every action of `actions` can be replayed.
pub open spec fn all_replayable(actions: Seq<ActionView>, red_enabled: bool) -> bool {
    forall|i: int| 0 <= i < actions.len() ==> replayable(#[trigger] actions[i], red_enabled)
}

/// A seat before its first action.
pub open spec fn replay_start() -> ReplayState {
    ReplayState {
        incoming: Seq::empty(),
        outgoing: Seq::empty(),
        reach_declared: false,
        last_draw: None,
    }
}

/// One action of a seat.
///
/// - A draw is taken in and remembered.
/// - A discard of the remembered tile is given out as `Tsumogiri`, any other
///   as its face; either carries the riichi declared since the last discard.
///   The draw and the declaration are then forgotten.
/// - A riichi declaration is remembered.
/// - A call goes where [`place_meld`] puts it; an open quad is followed by a
///   `Dummy` among what is given out.
///
/// Faces are those of a match with or without red fives, as `red_enabled`
/// says. The step fails where a tile that it needs the face of has none. An
/// action of another kind is no action of a seat, and changes nothing.
pub open spec fn replay_step(state: ReplayState, action: ActionView, red_enabled: bool) -> Result<
    ReplayState,
    ConvError,
> {
    match action {
        ActionView::DRAW(draw) => {
            if has_face(draw.hai) {
                Ok(
                    ReplayState {
                        incoming: state.incoming.push(IncomingTile::Tsumo(face(draw.hai, red_enabled))),
                        last_draw: Some(draw.hai),
                        ..state
                    },
                )
            } else {
                Err(ConvError::InvalidTileFormat)
            }
        },
        ActionView::DISCARD(discard) => {
            if state.last_draw == Some(discard.hai) {
                Ok(
                    ReplayState {
                        outgoing: state.outgoing.push(
                            if state.reach_declared {
                                OutgoingTile::TsumogiriRiichi
                            } else {
                                OutgoingTile::Tsumogiri
                            },
                        ),
                        reach_declared: false,
                        last_draw: None,
                        ..state
                    },
                )
            } else if has_face(discard.hai) {
                Ok(
                    ReplayState {
                        outgoing: state.outgoing.push(
                            if state.reach_declared {
                                OutgoingTile::Riichi(face(discard.hai, red_enabled))
                            } else {
                                OutgoingTile::Discard(face(discard.hai, red_enabled))
                            },
                        ),
                        reach_declared: false,
                        last_draw: None,
                        ..state
                    },
                )
            } else {
                Err(ConvError::InvalidTileFormat)
            }
        },
        ActionView::REACH1(_) => Ok(ReplayState { reach_declared: true, ..state }),
        ActionView::N(call) => match place_meld(call.m, red_enabled) {
            Some(MeldPlacement::Incoming(tile)) => Ok(
                ReplayState {
                    incoming: state.incoming.push(tile),
                    outgoing: if tile is Daiminkan {
                        state.outgoing.push(OutgoingTile::Dummy)
                    } else {
                        state.outgoing
                    },
                    ..state
                },
            ),
            Some(MeldPlacement::Outgoing(tile)) => Ok(
                ReplayState { outgoing: state.outgoing.push(tile), ..state },
            ),
            None => Err(ConvError::InvalidTileFormat),
        },
        _ => Ok(state),
    }
}

/// The state after a seat's actions, taken in order, or the failure of the
/// first step that fails.
pub open spec fn replay(actions: Seq<ActionView>, red_enabled: bool) -> Result<
    ReplayState,
    ConvError,
>
    decreases actions.len(),
{
    if actions.len() == 0 {
        Ok(replay_start())
    } else {
        match replay(actions.drop_last(), red_enabled) {
            Ok(state) => replay_step(state, actions.last(), red_enabled),
            Err(e) => Err(e),
        }
    }
}

/// `outgoing` without the `Dummy` entries at its end.
pub open spec fn strip_trailing_dummy(outgoing: Seq<OutgoingTile>) -> Seq<OutgoingTile>
    decreases outgoing.len(),
{
    if outgoing.len() > 0 && outgoing.last() is Dummy {
        strip_trailing_dummy(outgoing.drop_last())
    } else {
        outgoing
    }
}

/// What a seat took in and gave out over its actions: the replayed
/// sequences, the second without the `Dummy` entries at its end, which no
/// discard followed.
pub open spec fn replayed(actions: Seq<ActionView>, red_enabled: bool) -> Result<
    (Seq<IncomingTile>, Seq<OutgoingTile>),
    ConvError,
> {
    match replay(actions, red_enabled) {
        Ok(state) => Ok((state.incoming, strip_trailing_dummy(state.outgoing))),
        Err(e) => Err(e),
    }
}

/// What is left after the trailing `Dummy` entries are gone does not end in
/// one, and is a prefix of what was there.
pub proof fn lemma_strip_trailing_dummy(outgoing: Seq<OutgoingTile>)
    ensures
        strip_trailing_dummy(outgoing).len() == 0 || !(strip_trailing_dummy(outgoing).last()
            is Dummy),
        strip_trailing_dummy(outgoing) == outgoing.take(strip_trailing_dummy(outgoing).len() as int),
        strip_trailing_dummy(outgoing).len() <= outgoing.len(),
        forall|i: int|
            strip_trailing_dummy(outgoing).len() <= i < outgoing.len() ==> outgoing[i] is Dummy,
    decreases outgoing.len(),
{
    if outgoing.len() > 0 && outgoing.last() is Dummy {
        lemma_strip_trailing_dummy(outgoing.drop_last());
        let rest = strip_trailing_dummy(outgoing.drop_last());
        assert(rest =~= outgoing.take(rest.len() as int));
        assert forall|i: int| rest.len() <= i < outgoing.len() implies outgoing[i] is Dummy by {
            if i < outgoing.len() - 1 {
                assert(outgoing.drop_last()[i] is Dummy);
            }
        }
    } else {
        assert(outgoing =~= outgoing.take(outgoing.len() as int));
    }
}

/// The only failure of a replay is a tile without a face.
pub proof fn lemma_replay_error(actions: Seq<ActionView>, red_enabled: bool)
    ensures
        replay(actions, red_enabled) matches Err(e) ==> e == ConvError::InvalidTileFormat,
    decreases actions.len(),
{
    if actions.len() > 0 {
        lemma_replay_error(actions.drop_last(), red_enabled);
    }
}

impl ReplayState {
    /// Whether every tile taken in and given out is a face.
    pub open spec fn valid(self) -> bool {
        &&& forall|i: int| 0 <= i < self.incoming.len() ==> (#[trigger] self.incoming[i]).valid()
        &&& forall|i: int| 0 <= i < self.outgoing.len() ==> (#[trigger] self.outgoing[i]).valid()
    }

    /// Whether no tile taken in or given out is a red five.
    pub open spec fn plain(self) -> bool {
        &&& forall|i: int| 0 <= i < self.incoming.len() ==> (#[trigger] self.incoming[i]).plain()
        &&& forall|i: int| 0 <= i < self.outgoing.len() ==> (#[trigger] self.outgoing[i]).plain()
    }
}

/// A seat takes in and gives out faces, and without red fives in the match
/// plain ones.
pub proof fn lemma_replay_valid(actions: Seq<ActionView>, red_enabled: bool)
    ensures
        replay(actions, red_enabled) matches Ok(state) ==> state.valid() && (!red_enabled
            ==> state.plain()),
        replayed(actions, red_enabled) matches Ok(tiles) ==> (forall|i: int|
            0 <= i < tiles.0.len() ==> (#[trigger] tiles.0[i]).valid() && (!red_enabled
                ==> tiles.0[i].plain())) && (forall|i: int|
            0 <= i < tiles.1.len() ==> (#[trigger] tiles.1[i]).valid() && (!red_enabled
                ==> tiles.1[i].plain())),
    decreases actions.len(),
{
    if actions.len() > 0 {
        lemma_replay_valid(actions.drop_last(), red_enabled);
        if replay(actions, red_enabled) is Ok {
            match actions.last() {
                ActionView::DRAW(draw) => {
                    crate::tile::lemma_decode_tile(draw.hai.0, red_enabled);
                },
                ActionView::DISCARD(discard) => {
                    crate::tile::lemma_decode_tile(discard.hai.0, red_enabled);
                },
                ActionView::N(call) => {
                    lemma_place_meld_valid(call.m, red_enabled);
                },
                _ => {},
            }
        }
    }
    if replay(actions, red_enabled) is Ok {
        let state = replay(actions, red_enabled).unwrap();
        lemma_strip_trailing_dummy(state.outgoing);
        let kept = strip_trailing_dummy(state.outgoing);
        assert forall|i: int| 0 <= i < kept.len() implies (#[trigger] kept[i]).valid() && (
        !red_enabled ==> kept[i].plain()) by {
            assert(kept[i] == state.outgoing[i]);
        }
    }
}

/// What a seat gives out never ends in a `Dummy`.
pub proof fn lemma_replayed_end(actions: Seq<ActionView>, red_enabled: bool)
    ensures
        replayed(actions, red_enabled) matches Ok(tiles) ==> tiles.1.len() == 0 || !(
        tiles.1.last() is Dummy),
{
    if replay(actions, red_enabled) is Ok {
        lemma_strip_trailing_dummy(replay(actions, red_enabled).unwrap().outgoing);
    }
}

/// Whether `action` is a draw, a discard, a riichi declaration or a call of
/// `target_player`.
pub fn is_valid_player_action(action: &Action, target_player: Player) -> (yes: bool)
    ensures
        yes == acts(action@, target_player),
{
    match action {
        Action::DRAW(draw) => draw.who == target_player,
        Action::DISCARD(discard) => discard.who == target_player,
        Action::REACH1(reach) => reach.who == target_player,
        Action::N(call) => call.who == target_player,
        _ => false,
    }
}

/// Replays a seat's actions in a match with or without red fives.
pub fn replay_actions(actions: &[&Action], red_enable: bool) -> (result: ConvResult<
    (Vec<IncomingTile>, Vec<OutgoingTile>),
>)
    requires
        all_replayable(views(actions@), red_enable),
    ensures
        agrees(result, replayed(views(actions@), red_enable)),
        result matches Ok(tiles) ==> tiles.1@.len() == 0 || !(tiles.1@.last() is Dummy),
        result matches Ok(tiles) ==> (forall|i: int|
            0 <= i < tiles.0@.len() ==> (#[trigger] tiles.0@[i]).valid() && (!red_enable
                ==> tiles.0@[i].plain())) && (forall|i: int|
            0 <= i < tiles.1@.len() ==> (#[trigger] tiles.1@[i]).valid() && (!red_enable
                ==> tiles.1@[i].plain())),
        result matches Err(e) ==> e == ConvError::InvalidTileFormat,
{
    let ghost seat_log = views(actions@);
    proof {
        lemma_replay_valid(seat_log, red_enable);
    }
    let mut incoming: Vec<IncomingTile> = Vec::new();
    let mut outgoing: Vec<OutgoingTile> = Vec::new();
    let mut reach_declared = false;
    let mut last_draw: Option<Hai> = None;
    let mut i: usize = 0;
    while i < actions.len()
        invariant
            0 <= i <= actions@.len(),
            seat_log == views(actions@),
            all_replayable(seat_log, red_enable),
            replay(seat_log.take(i as int), red_enable) == Ok::<ReplayState, ConvError>(
                ReplayState {
                    incoming: incoming@,
                    outgoing: outgoing@,
                    reach_declared,
                    last_draw,
                },
            ),
        decreases actions@.len() - i,
    {
        proof {
            assert(seat_log.take(i + 1).drop_last() =~= seat_log.take(i as int));
            assert(replayable(seat_log[i as int], red_enable));
            lemma_replay_fails_on(seat_log, red_enable, i + 1);
        }
        match actions[i] {
            Action::DRAW(draw) => {
                let tile = conv_hai_to_tile(draw.hai, red_enable)?;
                incoming.push(IncomingTile::Tsumo(tile));
                last_draw = Some(draw.hai);
            },
            Action::DISCARD(discard) => {
                let drawn = match last_draw {
                    Some(hai) => hai == discard.hai,
                    None => false,
                };
                if drawn {
                    if reach_declared {
                        outgoing.push(OutgoingTile::TsumogiriRiichi);
                    } else {
                        outgoing.push(OutgoingTile::Tsumogiri);
                    }
                } else {
                    let tile = conv_hai_to_tile(discard.hai, red_enable)?;
                    if reach_declared {
                        outgoing.push(OutgoingTile::Riichi(tile));
                    } else {
                        outgoing.push(OutgoingTile::Discard(tile));
                    }
                }
                reach_declared = false;
                last_draw = None;
            },
            Action::REACH1(_) => {
                reach_declared = true;
            },
            Action::N(call) => {
                match reorder_call_geometry(&call.m, red_enable)? {
                    MeldPlacement::Incoming(tile) => {
                        incoming.push(tile);
                        match tile {
                            IncomingTile::Daiminkan { .. } => {
                                outgoing.push(OutgoingTile::Dummy);
                            },
                            _ => {},
                        }
                    },
                    MeldPlacement::Outgoing(tile) => {
                        outgoing.push(tile);
                    },
                }
            },
            _ => unreached(),
        }
        i += 1;
    }
    proof {
        assert(seat_log.take(i as int) =~= seat_log);
        lemma_strip_trailing_dummy(outgoing@);
    }
    // A dummy at the end stands for a turn that never came.
    let ghost replayed_outgoing = outgoing@;
    while ends_in_dummy(&outgoing)
        invariant
            strip_trailing_dummy(outgoing@) == strip_trailing_dummy(replayed_outgoing),
        decreases outgoing@.len(),
    {
        proof {
            assert(outgoing@.subrange(0, outgoing@.len() - 1) =~= outgoing@.drop_last());
        }
        outgoing.pop();
    }
    Ok((incoming, outgoing))
}

/// A replay that has failed on a part of the actions fails alike on every
/// longer part.
proof fn lemma_replay_fails_on(actions: Seq<ActionView>, red_enabled: bool, n: int)
    requires
        0 <= n <= actions.len(),
    ensures
        replay(actions.take(n), red_enabled) is Err ==> replay(actions, red_enabled) == replay(
            actions.take(n),
            red_enabled,
        ),
    decreases actions.len() - n,
{
    if n < actions.len() {
        assert(actions.take(n + 1).drop_last() =~= actions.take(n));
        lemma_replay_fails_on(actions, red_enabled, n + 1);
    } else {
        assert(actions.take(n) =~= actions);
    }
}

fn ends_in_dummy(outgoing: &Vec<OutgoingTile>) -> (yes: bool)
    ensures
        yes == (outgoing@.len() > 0 && outgoing@.last() is Dummy),
{
    if outgoing.len() == 0 {
        false
    } else {
        match outgoing[outgoing.len() - 1] {
            OutgoingTile::Dummy => true,
            _ => false,
        }
    }
}

} // verus!
