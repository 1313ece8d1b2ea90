//! The conversion of a whole log: its rounds, its standings and the facts
//! about table and players.

use crate::connection::{connections, conv_connections, within};
use crate::error::{agrees, agrees_each, views, ConvError, ConvResult};
use crate::hand::{
    conv_tiles, decode_all, display_sorted, lemma_decode_all_valid, lemma_display_sorted_valid,
    sort_hand,
};
use crate::mjlog::{
    all_well_formed, find_go, first_go, Action, ActionUN1, ActionUN1View, ActionView, Mjlog,
    Player, TenhouRank,
};
use crate::points::{scale_points, times_100};
use crate::replay::{
    acts, all_replayable, calls_placeable, is_valid_player_action, lemma_replay_error,
    lemma_replay_valid, lemma_replayed_end, replay_actions, replayable, replayed, seat_actions,
};
use crate::result::{conv_round_result, round_result};
use crate::settings::{
    conv_dan, conv_round_setting, conv_rule, dan_text, lemma_round_setting_valid, round_setting,
    rule_of,
};
use crate::splitter::{as_slices, round_slices, split_rounds};
use crate::tenhou::{
    four_seats, Round, RoundPlayer, RoundPlayerView, RoundView, TenhouJson, TenhouJsonView,
};
use vstd::prelude::*;
use vstd::slice::{slice_subrange, slice_to_vec};
use vstd::string::StringExecFns;

verus! {

/// The format version that a rebuilt match states: the bit pattern of the
/// double 2.3.
pub const FORMAT_VERSION: u64 = 0x4002_6666_6666_6666;

/// The round of seat `seat` in the round `actions`, which starts with its
/// round-start action, in a match with or without red fives: the hand the
/// seat was dealt, in display order, and what the seat took in and gave out
/// over its actions. It fails where a tile that it needs the face of has
/// none.
pub open spec fn round_player(actions: Seq<ActionView>, seat: int, red_enabled: bool) -> Result<
    RoundPlayerView,
    ConvError,
>
    recommends
        actions.len() > 0,
        actions[0] is INIT,
        0 <= seat < actions[0]->INIT_0.hai.len(),
{
    match decode_all(actions[0]->INIT_0.hai[seat], red_enabled) {
        Err(e) => Err(e),
        Ok(hand) => match replayed(seat_actions(actions, Player(seat as u8)), red_enabled) {
            Err(e) => Err(e),
            Ok(tiles) => Ok(
                RoundPlayerView { hand: display_sorted(hand), incoming: tiles.0, outgoing: tiles.1 },
            ),
        },
    }
}

/// The rounds of the four seats, in the order of the seats.
pub open spec fn round_players(actions: Seq<ActionView>, red_enabled: bool) -> Result<
    Seq<RoundPlayerView>,
    ConvError,
>
    recommends
        actions.len() > 0,
        actions[0] is INIT,
        actions[0]->INIT_0.hai.len() == 4,
{
    if forall|seat: int|
        0 <= seat < 4 ==> (#[trigger] round_player(actions, seat, red_enabled)) is Ok {
        Ok(Seq::new(4, |seat: int| round_player(actions, seat, red_enabled).unwrap()))
    } else {
        Err(ConvError::InvalidTileFormat)
    }
}

/// The round `actions`, which starts with its round-start action, in a match
/// with or without red fives: its settings, its seats and its result, or the
/// first failure among them in this order.
pub open spec fn round_of(actions: Seq<ActionView>, red_enabled: bool) -> Result<
    RoundView,
    ConvError,
>
    recommends
        actions.len() > 0,
        actions[0] is INIT,
{
    match round_setting(actions, red_enabled) {
        Err(e) => Err(e),
        Ok(settings) => match round_players(actions, red_enabled) {
            Err(e) => Err(e),
            Ok(players) => match round_result(actions) {
                Err(e) => Err(e),
                Ok(result) => Ok(RoundView { settings, players, result }),
            },
        },
    }
}

/// The rounds that `slices` cuts out of `actions`, or the failure of the
/// first round that fails.
pub open spec fn rounds_of(
    actions: Seq<ActionView>,
    slices: Seq<(int, int)>,
    red_enabled: bool,
) -> Result<Seq<RoundView>, ConvError>
    decreases slices.len(),
{
    if slices.len() == 0 {
        Ok(Seq::empty())
    } else {
        match rounds_of(actions, slices.drop_last(), red_enabled) {
            Err(e) => Err(e),
            Ok(rounds) => match round_of(
                actions.subrange(slices.last().0, slices.last().1),
                red_enabled,
            ) {
                Err(e) => Err(e),
                Ok(round) => Ok(rounds.push(round)),
            },
        }
    }
}

/// The final standings that the last win or draw of `actions` records: the
/// scores, in hundreds, and the placement values. It is a failure for that
/// action to record none, and another for `actions` to hold no win or draw.
pub open spec fn final_result(actions: Seq<ActionView>) -> Result<(Seq<i32>, Seq<u64>), ConvError>
    decreases actions.len(),
{
    if actions.len() == 0 {
        Err(ConvError::NotFoundFinalResult)
    } else {
        match actions.last() {
            ActionView::AGARI(agari) => match agari.owari {
                Some(owari) => Ok(owari),
                None => Err(ConvError::InvalidRoundFormat),
            },
            ActionView::RYUUKYOKU(ryuukyoku) => match ryuukyoku.owari {
                Some(owari) => Ok(owari),
                None => Err(ConvError::InvalidRoundFormat),
            },
            _ => final_result(actions.drop_last()),
        }
    }
}

/// The first player-roster action of `actions`.
pub open spec fn first_un1(actions: Seq<ActionView>) -> Option<ActionUN1View>
    decreases actions.len(),
{
    if actions.len() == 0 {
        None
    } else {
        match actions.first() {
            ActionView::UN1(un1) => Some(un1),
            _ => first_un1(actions.drop_first()),
        }
    }
}

/// The match that the log `actions` records.
///
/// The log must hold a table-setup action, a player-roster action, a
/// round-start action and the final standings; these are looked for in this
/// order, and the first that is missing is the failure. Then the rounds are
/// rebuilt, each from its slice of the log. Ruleset and lobby are those of
/// the first table-setup action, and every tile is decoded and every call
/// laid out as that ruleset has red fives or has none. Titles, ratings,
/// sexes and names are those of the first player-roster action; the final
/// scores are in points.
pub open spec fn tenhou_json_of(actions: Seq<ActionView>) -> Result<TenhouJsonView, ConvError> {
    if first_go(actions) is None {
        Err(ConvError::NotFoundActionGO)
    } else if first_un1(actions) is None {
        Err(ConvError::NotFoundActionUN1)
    } else if round_slices(actions).len() == 0 {
        Err(ConvError::NotFoundRound)
    } else {
        let go = first_go(actions).unwrap();
        let un1 = first_un1(actions).unwrap();
        match final_result(actions) {
            Err(e) => Err(e),
            Ok(standings) => match rounds_of(
                actions,
                round_slices(actions),
                go.settings.red_enabled(),
            ) {
                Err(e) => Err(e),
                Ok(rounds) => Ok(
                    TenhouJsonView {
                        ver: FORMAT_VERSION,
                        reference: Seq::empty(),
                        rounds,
                        connections: connections(actions, round_slices(actions)),
                        ratingc: "PF4"@,
                        rule: rule_of(go.settings),
                        lobby: go.lobby,
                        dan: un1.dan.map_values(|dan: TenhouRank| dan_text(dan)),
                        rate: un1.rate,
                        sx: un1.sx,
                        final_points: times_100(standings.0),
                        final_results: standings.1,
                        names: un1.names,
                    },
                ),
            },
        }
    }
}

/// Whether each slice starts at a round-start action of `actions` and ends
/// within `actions`.
pub open spec fn starts_at_rounds(actions: Seq<ActionView>, slices: Seq<(int, int)>) -> bool {
    forall|k: int|
        0 <= k < slices.len() ==> 0 <= (#[trigger] slices[k]).0 < slices[k].1 <= actions.len()
            && actions[slices[k].0] is INIT
}

/// A rebuilt round has four seats, no seat gives out a `Dummy` last, and
/// every tile of the round is a face; in a match without red fives no tile of
/// the round is a red five.
pub proof fn lemma_round_well_formed(actions: Seq<ActionView>, red_enabled: bool)
    ensures
        round_players(actions, red_enabled) matches Ok(players) ==> four_seats(players),
        round_players(actions, red_enabled) matches Err(e) ==> e == ConvError::InvalidTileFormat,
        round_of(actions, red_enabled) matches Ok(round) ==> round.well_formed() && (!red_enabled
            ==> round.plain()),
{
    lemma_round_setting_valid(actions, red_enabled);
    if round_players(actions, red_enabled) is Ok {
        let players = round_players(actions, red_enabled).unwrap();
        assert forall|seat: int| 0 <= seat < 4 implies (#[trigger] players[seat]).valid() && (
        players[seat].outgoing.len() == 0 || !(players[seat].outgoing.last() is Dummy)) && (
        !red_enabled ==> players[seat].plain()) by {
            assert(round_player(actions, seat, red_enabled) is Ok);
            let dealt = actions[0]->INIT_0.hai[seat];
            lemma_decode_all_valid(dealt, red_enabled);
            lemma_display_sorted_valid(decode_all(dealt, red_enabled).unwrap());
            lemma_replay_valid(seat_actions(actions, Player(seat as u8)), red_enabled);
            lemma_replayed_end(seat_actions(actions, Player(seat as u8)), red_enabled);
        }
    }
}

/// Every round of a rebuilt match is well formed, and plain in a match
/// without red fives.
pub proof fn lemma_rounds_well_formed(
    actions: Seq<ActionView>,
    slices: Seq<(int, int)>,
    red_enabled: bool,
)
    ensures
        rounds_of(actions, slices, red_enabled) matches Ok(rounds) ==> rounds.len() == slices.len()
            && forall|k: int|
            0 <= k < rounds.len() ==> (#[trigger] rounds[k]).well_formed() && (!red_enabled
                ==> rounds[k].plain()),
    decreases slices.len(),
{
    if slices.len() > 0 {
        lemma_rounds_well_formed(actions, slices.drop_last(), red_enabled);
        lemma_round_well_formed(actions.subrange(slices.last().0, slices.last().1), red_enabled);
    }
}

/// A rebuilt match has as many rounds as its log has round-start actions, and
/// at least one. Each of them has four seats, none of which gives out a
/// `Dummy` last, and every tile of theirs is a face.
pub proof fn lemma_match_well_formed(actions: Seq<ActionView>)
    ensures
        tenhou_json_of(actions) matches Ok(json) ==> json.rounds.len() == round_slices(
            actions,
        ).len() && json.rounds.len() > 0 && forall|k: int|
            0 <= k < json.rounds.len() ==> (#[trigger] json.rounds[k]).well_formed(),
{
    if first_go(actions) is Some {
        lemma_rounds_well_formed(
            actions,
            round_slices(actions),
            first_go(actions).unwrap().settings.red_enabled(),
        );
    }
}

/// A match whose table setup rules red fives out is rebuilt without any: its
/// ruleset has none, and no indicator, no tile of a hand and no tile that a
/// seat takes in or gives out is a red five. A match whose table setup has
/// red fives states them for all three suits.
pub proof fn lemma_no_red_match_is_plain(actions: Seq<ActionView>)
    ensures
        tenhou_json_of(actions) matches Ok(json) ==> {
            let red_enabled = first_go(actions).unwrap().settings.red_enabled();
            &&& first_go(actions) is Some
            &&& json.rule.aka51 == red_enabled
            &&& json.rule.aka52 == red_enabled
            &&& json.rule.aka53 == red_enabled
            &&& !red_enabled ==> json.without_red()
        },
{
    if first_go(actions) is Some {
        lemma_rounds_well_formed(
            actions,
            round_slices(actions),
            first_go(actions).unwrap().settings.red_enabled(),
        );
    }
}

/// Rebuilding is a function of what the log holds: the outcomes for two logs
/// with the same content are the same error, or matches with the same
/// content.
pub proof fn lemma_conversion_deterministic(
    first_log: Mjlog,
    second_log: Mjlog,
    first: ConvResult<TenhouJson>,
    second: ConvResult<TenhouJson>,
)
    requires
        first_log@ == second_log@,
        agrees(first, tenhou_json_of(first_log@.actions)),
        agrees(second, tenhou_json_of(second_log@.actions)),
    ensures
        match (first, second) {
            (Ok(a), Ok(b)) => a@ == b@,
            (Err(a), Err(b)) => a == b,
            _ => false,
        },
{
}

/// Whether `action` is an action of `seat` that stands in `log`.
spec fn stands_in(action: ActionView, log: Seq<ActionView>, seat: Player) -> bool {
    exists|j: int| 0 <= j < log.len() && acts(#[trigger] log[j], seat) && log[j] == action
}

/// Picks the actions of `seat` out of a round. They can be replayed in a
/// match with or without red fives if the calls of `seat` can be laid out in
/// such a match.
fn player_actions_of(actions: &[Action], seat: Player) -> (picked: Vec<&Action>)
    ensures
        views(picked@) == seat_actions(views(actions@), seat),
        forall|red_enabled: bool| #[trigger]
            calls_placeable(views(actions@), seat, red_enabled) ==> all_replayable(
                views(picked@),
                red_enabled,
            ),
{
    let ghost log = views(actions@);
    let mut picked: Vec<&Action> = Vec::new();
    let mut i: usize = 0;
    proof {
        reveal(Seq::filter);
        assert(views(picked@) =~= seat_actions(log.take(0), seat));
    }
    while i < actions.len()
        invariant
            0 <= i <= actions@.len(),
            log == views(actions@),
            views(picked@) == seat_actions(log.take(i as int), seat),
            forall|k: int| 0 <= k < picked@.len() ==> stands_in((#[trigger] picked@[k])@, log, seat),
        decreases actions@.len() - i,
    {
        proof {
            reveal(Seq::filter);
            assert(log.take(i + 1).drop_last() =~= log.take(i as int));
        }
        if is_valid_player_action(&actions[i], seat) {
            picked.push(&actions[i]);
            proof {
                assert(acts(log[i as int], seat) && log[i as int] == picked@[picked@.len() - 1]@);
                assert(stands_in(picked@[picked@.len() - 1]@, log, seat));
            }
        }
        i += 1;
        proof {
            assert(views(picked@) =~= seat_actions(log.take(i as int), seat));
        }
    }
    proof {
        assert(log.take(i as int) =~= log);
        assert forall|red_enabled: bool| #[trigger]
            calls_placeable(log, seat, red_enabled) implies all_replayable(
            views(picked@),
            red_enabled,
        ) by {
            assert forall|k: int| 0 <= k < views(picked@).len() implies replayable(
                #[trigger] views(picked@)[k],
                red_enabled,
            ) by {
                assert(stands_in(picked@[k]@, log, seat));
                let j = choose|j: int|
                    0 <= j < log.len() && acts(#[trigger] log[j], seat) && log[j] == picked@[k]@;
                assert(acts(log[j], seat) && log[j] is N ==> log[j]->N_0.m.placeable(red_enabled));
            }
        }
    }
    picked
}

/// Rebuilds the four seats of a round of a match with or without red fives.
pub fn conv_round_players(actions: &[Action], red_enable: bool) -> (result: ConvResult<
    Vec<RoundPlayer>,
>)
    requires
        actions@.len() > 0,
        views(actions@)[0] is INIT,
        views(actions@)[0]->INIT_0.hai.len() == 4,
        forall|seat: u8|
            0 <= seat < 4 ==> #[trigger] calls_placeable(
                views(actions@),
                Player(seat),
                red_enable,
            ),
    ensures
        agrees_each(result, round_players(views(actions@), red_enable)),
        result matches Ok(players) ==> four_seats(views(players@)),
        result matches Err(e) ==> e == ConvError::InvalidTileFormat,
{
    let ghost log = views(actions@);
    proof {
        lemma_round_well_formed(log, red_enable);
    }
    let init_action = actions[0].as_init().unwrap();
    let mut players: Vec<RoundPlayer> = Vec::new();
    let mut seat: u8 = 0;
    while seat < 4
        invariant
            0 <= seat <= 4,
            actions@.len() > 0,
            log == views(actions@),
            log[0] == ActionView::INIT(init_action@),
            init_action.hai@.len() == 4,
            forall|seat: u8|
                0 <= seat < 4 ==> #[trigger] calls_placeable(log, Player(seat), red_enable),
            players@.len() == seat,
            forall|k: int|
                0 <= k < seat ==> (#[trigger] round_player(log, k, red_enable)) == Ok::<
                    RoundPlayerView,
                    ConvError,
                >(players@[k]@),
        decreases 4 - seat,
    {
        proof {
            assert(calls_placeable(log, Player(seat), red_enable));
            lemma_replay_error(seat_actions(log, Player(seat)), red_enable);
            assert(init_action@.hai[seat as int] == init_action.hai@[seat as int]@);
        }
        let dealt = match conv_tiles(init_action.hai[seat as usize].as_slice(), red_enable) {
            Ok(dealt) => dealt,
            Err(e) => {
                proof {
                    assert(round_player(log, seat as int, red_enable) is Err);
                }
                return Err(e);
            },
        };
        let hand = sort_hand(&dealt);
        let player_actions = player_actions_of(actions, Player::new(seat));
        let (incoming, outgoing) = match replay_actions(player_actions.as_slice(), red_enable) {
            Ok(tiles) => tiles,
            Err(e) => {
                proof {
                    assert(round_player(log, seat as int, red_enable) is Err);
                }
                return Err(e);
            },
        };
        players.push(RoundPlayer { hand, incoming, outgoing });
        seat += 1;
    }
    proof {
        assert(views(players@) =~= Seq::new(
            4,
            |seat: int| round_player(log, seat, red_enable).unwrap(),
        ));
    }
    Ok(players)
}

/// Rebuilds one round of a match with or without red fives from its actions.
pub fn conv_round(actions: &[Action], red_enable: bool) -> (result: ConvResult<Round>)
    requires
        actions@.len() > 0,
        views(actions@)[0] is INIT,
        all_well_formed(views(actions@), red_enable),
    ensures
        agrees(result, round_of(views(actions@), red_enable)),
        result matches Ok(round) ==> round@.well_formed() && (!red_enable ==> round@.plain()),
{
    let ghost log = views(actions@);
    proof {
        assert forall|i: int|
            0 <= i < log.len() && (#[trigger] log[i]) is AGARI implies log[i]->AGARI_0.scored() by {
            assert(log[i].well_formed(red_enable));
        }
        assert forall|seat: u8| 0 <= seat < 4 implies #[trigger] calls_placeable(
            log,
            Player(seat),
            red_enable,
        ) by {
            assert forall|i: int|
                0 <= i < log.len() && acts(#[trigger] log[i], Player(seat))
                    && log[i] is N implies log[i]->N_0.m.placeable(red_enable) by {
                assert(log[i].well_formed(red_enable));
            }
        }
        assert(log[0].well_formed(red_enable));
        lemma_round_well_formed(log, red_enable);
    }
    let settings = conv_round_setting(actions, red_enable)?;
    let players = conv_round_players(actions, red_enable)?;
    let result = conv_round_result(actions)?;
    Ok(Round { settings, players, result })
}

/// Rebuilds the rounds that `indices` cuts out of the log `actions` of a
/// match with or without red fives.
pub fn conv_rounds(actions: &[Action], indices: &[(usize, usize)], red_enable: bool) -> (result:
    ConvResult<Vec<Round>>)
    requires
        starts_at_rounds(views(actions@), as_slices(indices@)),
        all_well_formed(views(actions@), red_enable),
    ensures
        agrees_each(result, rounds_of(views(actions@), as_slices(indices@), red_enable)),
        result matches Ok(rounds) ==> rounds@.len() == indices@.len() && forall|k: int|
            0 <= k < rounds@.len() ==> (#[trigger] rounds@[k])@.well_formed() && (!red_enable
                ==> rounds@[k]@.plain()),
{
    let mut rounds: Vec<Round> = Vec::new();
    let ghost slices = as_slices(indices@);
    let ghost log = views(actions@);
    let mut i: usize = 0;
    proof {
        assert(views(rounds@) =~= Seq::<RoundView>::empty());
    }
    while i < indices.len()
        invariant
            0 <= i <= indices@.len(),
            slices == as_slices(indices@),
            log == views(actions@),
            starts_at_rounds(log, slices),
            all_well_formed(log, red_enable),
            rounds@.len() == i,
            rounds_of(log, slices.take(i as int), red_enable) == Ok::<Seq<RoundView>, ConvError>(
                views(rounds@),
            ),
            forall|k: int|
                0 <= k < rounds@.len() ==> (#[trigger] rounds@[k])@.well_formed() && (!red_enable
                    ==> rounds@[k]@.plain()),
        decreases indices@.len() - i,
    {
        let (start, end) = indices[i];
        proof {
            assert(slices[i as int] == (start as int, end as int));
            assert(slices.take(i + 1).drop_last() =~= slices.take(i as int));
            let round_actions = log.subrange(start as int, end as int);
            assert(views(actions@.subrange(start as int, end as int)) =~= round_actions);
            assert forall|k: int| 0 <= k < round_actions.len() implies (
            #[trigger] round_actions[k]).well_formed(red_enable) by {
                assert(log[start + k].well_formed(red_enable));
            }
            lemma_rounds_fail_on(log, slices, red_enable, i + 1);
        }
        let round = conv_round(slice_subrange(actions, start, end), red_enable)?;
        rounds.push(round);
        i += 1;
        proof {
            assert(views(rounds@) =~= rounds_of(log, slices.take(i as int), red_enable).unwrap());
        }
    }
    proof {
        assert(slices.take(i as int) =~= slices);
    }
    Ok(rounds)
}

/// Once a round has failed, the rounds fail alike however many follow.
proof fn lemma_rounds_fail_on(
    actions: Seq<ActionView>,
    slices: Seq<(int, int)>,
    red_enabled: bool,
    n: int,
)
    requires
        0 <= n <= slices.len(),
    ensures
        rounds_of(actions, slices.take(n), red_enabled) is Err ==> rounds_of(
            actions,
            slices,
            red_enabled,
        ) == rounds_of(actions, slices.take(n), red_enabled),
    decreases slices.len() - n,
{
    if n < slices.len() {
        assert(slices.take(n + 1).drop_last() =~= slices.take(n));
        lemma_rounds_fail_on(actions, slices, red_enabled, n + 1);
    } else {
        assert(slices.take(n) =~= slices);
    }
}

/// Finds the final standings of a match.
pub fn find_final_result(actions: &[Action]) -> (result: ConvResult<(Vec<i32>, Vec<u64>)>)
    ensures
        agrees(result, final_result(views(actions@))),
{
    let ghost log = views(actions@);
    // The last win or draw holds them.
    let mut i: usize = actions.len();
    proof {
        assert(log.take(i as int) =~= log);
    }
    while i > 0
        invariant
            0 <= i <= actions@.len(),
            log == views(actions@),
            final_result(log) == final_result(log.take(i as int)),
        decreases i,
    {
        proof {
            assert(log.take(i as int).drop_last() =~= log.take(i - 1));
        }
        match &actions[i - 1] {
            Action::AGARI(agari) => {
                return match &agari.owari {
                    Some(owari) => Ok(
                        (slice_to_vec(owari.0.as_slice()), slice_to_vec(owari.1.as_slice())),
                    ),
                    None => Err(ConvError::InvalidRoundFormat),
                };
            },
            Action::RYUUKYOKU(ryuukyoku) => {
                return match &ryuukyoku.owari {
                    Some(owari) => Ok(
                        (slice_to_vec(owari.0.as_slice()), slice_to_vec(owari.1.as_slice())),
                    ),
                    None => Err(ConvError::InvalidRoundFormat),
                };
            },
            _ => {},
        }
        i -= 1;
    }
    Err(ConvError::NotFoundFinalResult)
}

fn find_un1(actions: &[Action]) -> (found: Option<&ActionUN1>)
    ensures
        found is Some <==> first_un1(views(actions@)) is Some,
        found matches Some(un1) ==> first_un1(views(actions@)) == Some(un1@),
{
    let ghost log = views(actions@);
    let mut i: usize = 0;
    proof {
        assert(log.skip(0) =~= log);
    }
    while i < actions.len()
        invariant
            0 <= i <= actions@.len(),
            log == views(actions@),
            first_un1(log) == first_un1(log.skip(i as int)),
        decreases actions@.len() - i,
    {
        proof {
            assert(log.skip(i as int).drop_first() =~= log.skip(i + 1));
        }
        match &actions[i] {
            Action::UN1(un1) => {
                return Some(un1);
            },
            _ => {},
        }
        i += 1;
    }
    None
}

fn conv_dans(dans: &Vec<TenhouRank>) -> (titles: Vec<String>)
    ensures
        views(titles@) == dans@.map_values(|dan: TenhouRank| dan_text(dan)),
{
    let mut titles: Vec<String> = Vec::new();
    let mut i: usize = 0;
    while i < dans.len()
        invariant
            0 <= i <= dans@.len(),
            titles@.len() == i,
            forall|k: int| 0 <= k < i ==> (#[trigger] titles@[k])@ == dan_text(dans@[k]),
        decreases dans@.len() - i,
    {
        titles.push(conv_dan(&dans[i]));
        i += 1;
    }
    proof {
        assert(views(titles@) =~= dans@.map_values(|dan: TenhouRank| dan_text(dan)));
    }
    titles
}

fn clone_strings(strings: &Vec<String>) -> (copies: Vec<String>)
    ensures
        views(copies@) == views(strings@),
{
    let mut copies: Vec<String> = Vec::new();
    let mut i: usize = 0;
    while i < strings.len()
        invariant
            0 <= i <= strings@.len(),
            copies@.len() == i,
            forall|k: int| 0 <= k < i ==> (#[trigger] copies@[k])@ == strings@[k]@,
        decreases strings@.len() - i,
    {
        copies.push(strings[i].clone());
        i += 1;
    }
    proof {
        assert(views(copies@) =~= views(strings@));
    }
    copies
}

/// Rebuilds a match, round by round, from its action log.
pub fn conv_to_tenhou_json(mjlog: &Mjlog) -> (result: ConvResult<TenhouJson>)
    requires
        mjlog@.well_formed(),
    ensures
        agrees(result, tenhou_json_of(mjlog@.actions)),
        result matches Ok(json) ==> json@.rounds.len() > 0 && forall|k: int|
            0 <= k < json@.rounds.len() ==> (#[trigger] json@.rounds[k]).well_formed(),
        result matches Ok(json) ==> first_go(mjlog@.actions) is Some && (first_go(
            mjlog@.actions,
        ).unwrap().settings.no_red ==> json@.without_red()),
{
    let actions = mjlog.actions.as_slice();
    let action_go = match find_go(actions) {
        Some(go) => go,
        None => {
            return Err(ConvError::NotFoundActionGO);
        },
    };
    let action_un1 = match find_un1(actions) {
        Some(un1) => un1,
        None => {
            return Err(ConvError::NotFoundActionUN1);
        },
    };
    let round_indices = split_rounds(actions)?;
    let (final_points_raw, final_results_raw) = find_final_result(actions)?;
    let final_points = scale_points(&final_points_raw);
    let final_results = final_results_raw;
    let red_enable = !action_go.settings.no_red;
    proof {
        lemma_match_well_formed(views(actions@));
        lemma_no_red_match_is_plain(views(actions@));
    }
    let rounds = conv_rounds(actions, round_indices.as_slice(), red_enable)?;
    let connections = conv_connections(actions, round_indices.as_slice())?;
    let rule = conv_rule(&action_go.settings)?;
    Ok(
        TenhouJson {
            ver: FORMAT_VERSION,
            reference: String::new(),
            rounds,
            connections,
            ratingc: String::from_str("PF4"),
            rule,
            lobby: action_go.lobby,
            dan: conv_dans(&action_un1.dan),
            rate: slice_to_vec(action_un1.rate.as_slice()),
            sx: clone_strings(&action_un1.sx),
            final_points,
            final_results,
            names: clone_strings(&action_un1.names),
        },
    )
}

} // verus!
