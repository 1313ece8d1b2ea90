//! A round's settings and indicators, the ruleset's description and the
//! grades' titles.

use crate::error::{agrees, views, ConvError, ConvResult};
use crate::hand::{conv_tiles, decode_all, lemma_decode_all_valid};
use crate::mjlog::{Action, ActionView, GameSettings, TenhouRank, TenhouRoom};
use crate::points::{scale_points, times_100};
use crate::tenhou::{RoundSettings, RoundSettingsView, Rule, RuleView};
use crate::tile::{Hai, Tile};
use vstd::pervasive::unreached;
use vstd::prelude::*;
use vstd::string::StringExecFns;

verus! {

/// The indicators that the dora actions of `actions` turn over, in order.
pub open spec fn revealed_indicators(actions: Seq<ActionView>) -> Seq<Hai> {
    actions.filter_map(
        |action: ActionView|
            match action {
                ActionView::DORA(dora) => Some(dora.hai),
                _ => None,
            },
    )
}

/// The ura-dora indicators that `action` records: those of a win, none for
/// any other action.
pub open spec fn recorded_ura_dora(action: ActionView) -> Seq<Hai> {
    match action {
        ActionView::AGARI(agari) => agari.dora_hai_ura,
        _ => Seq::empty(),
    }
}

/// The ura-dora indicators of the first win of `actions` that records any,
/// or none where no win does. Only the win of a seat in riichi records them,
/// and all such wins of a round record the same.
pub open spec fn first_ura_dora(actions: Seq<ActionView>) -> Seq<Hai>
    decreases actions.len(),
{
    if actions.len() == 0 {
        Seq::empty()
    } else if first_ura_dora(actions.drop_last()).len() > 0 {
        first_ura_dora(actions.drop_last())
    } else {
        recorded_ura_dora(actions.last())
    }
}

/// The ura-dora indicators of a round are those of its first win that
/// records any; a round in which no win records any has none.
pub proof fn lemma_first_ura_dora(actions: Seq<ActionView>)
    ensures
        first_ura_dora(actions).len() > 0 ==> exists|i: int|
            0 <= i < actions.len() && actions[i] is AGARI && first_ura_dora(actions)
                == (#[trigger] actions[i])->AGARI_0.dora_hai_ura && forall|j: int|
                0 <= j < i ==> recorded_ura_dora(#[trigger] actions[j]).len() == 0,
        first_ura_dora(actions).len() == 0 ==> forall|i: int|
            0 <= i < actions.len() ==> recorded_ura_dora(#[trigger] actions[i]).len() == 0,
    decreases actions.len(),
{
    if actions.len() > 0 {
        let before = actions.drop_last();
        lemma_first_ura_dora(before);
        if first_ura_dora(before).len() > 0 {
            let i = choose|i: int|
                0 <= i < before.len() && before[i] is AGARI && first_ura_dora(before)
                    == (#[trigger] before[i])->AGARI_0.dora_hai_ura && forall|j: int|
                    0 <= j < i ==> recorded_ura_dora(#[trigger] before[j]).len() == 0;
            assert(actions[i] == before[i]);
            assert forall|j: int| 0 <= j < i implies recorded_ura_dora(#[trigger] actions[j]).len()
                == 0 by {
                assert(actions[j] == before[j]);
            }
        } else {
            assert forall|j: int| 0 <= j < actions.len() - 1 implies recorded_ura_dora(
                #[trigger] actions[j],
            ).len() == 0 by {
                assert(actions[j] == before[j]);
            }
            if first_ura_dora(actions).len() > 0 {
                assert(actions[actions.len() - 1] is AGARI);
            }
        }
    }
}

/// Once indicators are found, later actions do not change them.
proof fn lemma_first_ura_dora_stays(actions: Seq<ActionView>, n: int)
    requires
        0 <= n <= actions.len(),
        first_ura_dora(actions.take(n)).len() > 0,
    ensures
        first_ura_dora(actions) == first_ura_dora(actions.take(n)),
    decreases actions.len() - n,
{
    if n < actions.len() {
        assert(actions.take(n + 1).drop_last() =~= actions.take(n));
        lemma_first_ura_dora_stays(actions, n + 1);
    } else {
        assert(actions.take(n) =~= actions);
    }
}

/// Only wins and draws matter to the ura-dora indicators.
proof fn lemma_first_ura_dora_of_terminals(actions: Seq<ActionView>)
    ensures
        first_ura_dora(terminals(actions)) == first_ura_dora(actions),
    decreases actions.len(),
{
    reveal(Seq::filter);
    if actions.len() > 0 {
        lemma_first_ura_dora_of_terminals(actions.drop_last());
        if terminal(actions.last()) {
            assert(terminals(actions).drop_last() =~= terminals(actions.drop_last()));
        }
    }
}

/// Whether `action` ends a round.
pub open spec fn terminal(action: ActionView) -> bool {
    action is AGARI || action is RYUUKYOKU
}

/// The wins and draws among `actions`, in order.
pub open spec fn terminals(actions: Seq<ActionView>) -> Seq<ActionView> {
    actions.filter(|action: ActionView| terminal(action))
}

/// The settings of the round `actions`, which starts with its round-start
/// action, in a match with or without red fives: number, counters and scores
/// as that action has them, the scores in points; the dora indicators, the
/// first from the round start and the others in the order they were turned
/// over; and the ura-dora indicators. It fails where no win or draw stands in
/// the round, and where an indicator has no face.
pub open spec fn round_setting(actions: Seq<ActionView>, red_enabled: bool) -> Result<
    RoundSettingsView,
    ConvError,
>
    recommends
        actions.len() > 0,
        actions[0] is INIT,
{
    let init = actions[0]->INIT_0;
    if terminals(actions).len() == 0 {
        Err(ConvError::NotFoundTerminalAction)
    } else {
        match decode_all(
            seq![init.seed.dora_hyouji] + revealed_indicators(actions),
            red_enabled,
        ) {
            Err(e) => Err(e),
            Ok(dora) => match decode_all(first_ura_dora(actions), red_enabled) {
                Err(e) => Err(e),
                Ok(ura_dora) => Ok(
                    RoundSettingsView {
                        kyoku: init.seed.kyoku,
                        honba: init.seed.honba,
                        kyoutaku: init.seed.kyoutaku,
                        points: times_100(init.ten),
                        dora,
                        ura_dora,
                    },
                ),
            },
        }
    }
}

/// The indicators of a round's settings are faces, and a round's settings
/// fail for want of a win or draw, or over an indicator without a face.
pub proof fn lemma_round_setting_valid(actions: Seq<ActionView>, red_enabled: bool)
    ensures
        round_setting(actions, red_enabled) matches Ok(settings) ==> settings.valid() && (
        !red_enabled ==> settings.plain()),
        round_setting(actions, red_enabled) matches Err(e) ==> e
            == ConvError::NotFoundTerminalAction || e
            == ConvError::InvalidTileFormat,
{
    lemma_decode_all_valid(
        seq![actions[0]->INIT_0.seed.dora_hyouji] + revealed_indicators(actions),
        red_enabled,
    );
    lemma_decode_all_valid(first_ura_dora(actions), red_enabled);
}

/// The short name of a room.
pub open spec fn room_text(room: TenhouRoom) -> Seq<char> {
    match room {
        TenhouRoom::Ippan => "般"@,
        TenhouRoom::Joukyu => "上"@,
        TenhouRoom::Tokujou => "特"@,
        TenhouRoom::Houou => "鳳"@,
    }
}

/// The ruleset's short description: the room, the length of the match, then
/// a mark each for open all-simples hands, red fives and fast play where the
/// match has them.
pub open spec fn rule_text(settings: GameSettings) -> Seq<char> {
    room_text(settings.room) + (if settings.hanchan {
        "南"@
    } else {
        "東"@
    }) + (if settings.no_kuitan {
        ""@
    } else {
        "喰"@
    }) + (if settings.no_red {
        ""@
    } else {
        "赤"@
    }) + (if settings.soku {
        "速"@
    } else {
        ""@
    })
}

/// The ruleset as the rebuilt match states it: its description, and red fives
/// in all suits or in none.
pub open spec fn rule_of(settings: GameSettings) -> RuleView {
    RuleView {
        disp: rule_text(settings),
        aka53: !settings.no_red,
        aka52: !settings.no_red,
        aka51: !settings.no_red,
    }
}

/// The title of a grade.
pub open spec fn dan_text(dan: TenhouRank) -> Seq<char> {
    match dan {
        TenhouRank::Newcomer => "新人"@,
        TenhouRank::Kyu9 => "９級"@,
        TenhouRank::Kyu8 => "８級"@,
        TenhouRank::Kyu7 => "７級"@,
        TenhouRank::Kyu6 => "６級"@,
        TenhouRank::Kyu5 => "５級"@,
        TenhouRank::Kyu4 => "４級"@,
        TenhouRank::Kyu3 => "３級"@,
        TenhouRank::Kyu2 => "２級"@,
        TenhouRank::Kyu1 => "１級"@,
        TenhouRank::Dan1 => "初段"@,
        TenhouRank::Dan2 => "二段"@,
        TenhouRank::Dan3 => "三段"@,
        TenhouRank::Dan4 => "四段"@,
        TenhouRank::Dan5 => "五段"@,
        TenhouRank::Dan6 => "六段"@,
        TenhouRank::Dan7 => "七段"@,
        TenhouRank::Dan8 => "八段"@,
        TenhouRank::Dan9 => "九段"@,
        TenhouRank::Dan10 => "十段"@,
        TenhouRank::Tenhoui => "天鳳"@,
    }
}

/// The title of a grade.
pub fn conv_dan(dan: &TenhouRank) -> (title: String)
    ensures
        title@ == dan_text(*dan),
{
    match dan {
        TenhouRank::Newcomer => String::from_str("新人"),
        TenhouRank::Kyu9 => String::from_str("９級"),
        TenhouRank::Kyu8 => String::from_str("８級"),
        TenhouRank::Kyu7 => String::from_str("７級"),
        TenhouRank::Kyu6 => String::from_str("６級"),
        TenhouRank::Kyu5 => String::from_str("５級"),
        TenhouRank::Kyu4 => String::from_str("４級"),
        TenhouRank::Kyu3 => String::from_str("３級"),
        TenhouRank::Kyu2 => String::from_str("２級"),
        TenhouRank::Kyu1 => String::from_str("１級"),
        TenhouRank::Dan1 => String::from_str("初段"),
        TenhouRank::Dan2 => String::from_str("二段"),
        TenhouRank::Dan3 => String::from_str("三段"),
        TenhouRank::Dan4 => String::from_str("四段"),
        TenhouRank::Dan5 => String::from_str("五段"),
        TenhouRank::Dan6 => String::from_str("六段"),
        TenhouRank::Dan7 => String::from_str("七段"),
        TenhouRank::Dan8 => String::from_str("八段"),
        TenhouRank::Dan9 => String::from_str("九段"),
        TenhouRank::Dan10 => String::from_str("十段"),
        TenhouRank::Tenhoui => String::from_str("天鳳"),
    }
}

/// The dora indicators of a round: `dora_hyouji`, then those that
/// `mid_actions` turn over.
pub fn get_dora_vec(dora_hyouji: Hai, mid_actions: &[Action], red_enable: bool) -> (result:
    ConvResult<Vec<Tile>>)
    ensures
        agrees(
            result,
            decode_all(seq![dora_hyouji] + revealed_indicators(views(mid_actions@)), red_enable),
        ),
        result matches Err(e) ==> e == ConvError::InvalidTileFormat,
{
    let ghost log = views(mid_actions@);
    let mut dora_hais: Vec<Hai> = Vec::new();
    dora_hais.push(dora_hyouji);
    let mut i: usize = 0;
    while i < mid_actions.len()
        invariant
            0 <= i <= mid_actions@.len(),
            log == views(mid_actions@),
            dora_hais@ == seq![dora_hyouji] + revealed_indicators(log.take(i as int)),
        decreases mid_actions@.len() - i,
    {
        proof {
            assert(log.take(i + 1).drop_last() =~= log.take(i as int));
        }
        match &mid_actions[i] {
            Action::DORA(dora) => {
                dora_hais.push(dora.hai);
            },
            _ => {},
        }
        i += 1;
        proof {
            assert(dora_hais@ =~= seq![dora_hyouji] + revealed_indicators(log.take(i as int)));
        }
    }
    proof {
        assert(log.take(i as int) =~= log);
    }
    conv_tiles(dora_hais.as_slice(), red_enable)
}

/// The ura-dora indicators that a win or a draw records.
pub fn get_ura_dora(end_action: &Action, red_enable: bool) -> (result: ConvResult<Vec<Tile>>)
    requires
        terminal(end_action@),
    ensures
        agrees(result, decode_all(recorded_ura_dora(end_action@), red_enable)),
        result matches Err(e) ==> e == ConvError::InvalidTileFormat,
{
    match end_action {
        Action::AGARI(agari) => conv_tiles(agari.dora_hai_ura.as_slice(), red_enable),
        Action::RYUUKYOKU(_) => {
            let none: Vec<Tile> = Vec::new();
            proof {
                assert(none@ =~= Seq::<Hai>::empty().map_values(
                    |hai: Hai| crate::meld::face(hai, red_enable),
                ));
            }
            Ok(none)
        },
        _ => unreached(),
    }
}

/// The ura-dora indicators of a round that ends with `end_actions`.
pub fn get_ura_dora_vec(end_actions: &[&Action], red_enable: bool) -> (result: ConvResult<
    Vec<Tile>,
>)
    requires
        forall|i: int| 0 <= i < end_actions@.len() ==> terminal((#[trigger] end_actions@[i])@),
    ensures
        agrees(result, decode_all(first_ura_dora(views(end_actions@)), red_enable)),
        result matches Err(e) ==> e == ConvError::InvalidTileFormat,
{
    let ghost ends = views(end_actions@);
    let mut i: usize = 0;
    while i < end_actions.len()
        invariant
            0 <= i <= end_actions@.len(),
            ends == views(end_actions@),
            forall|k: int| 0 <= k < end_actions@.len() ==> terminal((#[trigger] end_actions@[k])@),
            first_ura_dora(ends.take(i as int)).len() == 0,
        decreases end_actions@.len() - i,
    {
        proof {
            assert(ends.take(i + 1).drop_last() =~= ends.take(i as int));
            assert(terminal(end_actions@[i as int]@));
            if recorded_ura_dora(ends[i as int]).len() > 0 {
                lemma_first_ura_dora_stays(ends, i + 1);
            }
        }
        let ura_dora = get_ura_dora(end_actions[i], red_enable)?;
        if ura_dora.len() > 0 {
            return Ok(ura_dora);
        }
        i += 1;
    }
    let none: Vec<Tile> = Vec::new();
    proof {
        assert(ends.take(i as int) =~= ends);
        assert(first_ura_dora(ends) =~= Seq::<Hai>::empty());
        assert(none@ =~= Seq::<Hai>::empty().map_values(
                    |hai: Hai| crate::meld::face(hai, red_enable),
                ));
    }
    Ok(none)
}

/// Describes the ruleset.
pub fn conv_rule(settings: &GameSettings) -> (result: ConvResult<Rule>)
    ensures
        agrees(result, Ok::<RuleView, ConvError>(rule_of(*settings))),
{
    let room_str = match settings.room {
        TenhouRoom::Ippan => "般",
        TenhouRoom::Joukyu => "上",
        TenhouRoom::Tokujou => "特",
        TenhouRoom::Houou => "鳳",
    };
    let hanchan_str = if settings.hanchan {
        "南"
    } else {
        "東"
    };
    let aka_str = if settings.no_red {
        ""
    } else {
        "赤"
    };
    let kuitan_str = if settings.no_kuitan {
        ""
    } else {
        "喰"
    };
    let soku_str = if settings.soku {
        "速"
    } else {
        ""
    };
    let disp = String::from_str(room_str).concat(hanchan_str).concat(kuitan_str).concat(
        aka_str,
    ).concat(soku_str);
    Ok(Rule { disp, aka53: !settings.no_red, aka52: !settings.no_red, aka51: !settings.no_red })
}

/// Picks the wins and draws out of a round.
fn end_actions_of(actions: &[Action]) -> (picked: Vec<&Action>)
    ensures
        views(picked@) == terminals(views(actions@)),
        forall|k: int| 0 <= k < picked@.len() ==> terminal((#[trigger] picked@[k])@),
{
    let ghost log = views(actions@);
    let mut picked: Vec<&Action> = Vec::new();
    let mut i: usize = 0;
    proof {
        reveal(Seq::filter);
        assert(views(picked@) =~= terminals(log.take(0)));
    }
    while i < actions.len()
        invariant
            0 <= i <= actions@.len(),
            log == views(actions@),
            views(picked@) == terminals(log.take(i as int)),
            forall|k: int| 0 <= k < picked@.len() ==> terminal((#[trigger] picked@[k])@),
        decreases actions@.len() - i,
    {
        proof {
            reveal(Seq::filter);
            assert(log.take(i + 1).drop_last() =~= log.take(i as int));
        }
        if actions[i].is_agari() || actions[i].is_ryuukyoku() {
            picked.push(&actions[i]);
        }
        i += 1;
        proof {
            assert(views(picked@) =~= terminals(log.take(i as int)));
        }
    }
    proof {
        assert(log.take(i as int) =~= log);
    }
    picked
}

/// Reads the settings of a round off its actions.
pub fn conv_round_setting(actions: &[Action], red_enable: bool) -> (result: ConvResult<
    RoundSettings,
>)
    requires
        actions@.len() > 0,
        views(actions@)[0] is INIT,
    ensures
        agrees(result, round_setting(views(actions@), red_enable)),
        result matches Ok(settings) ==> settings@.valid() && (!red_enable ==> settings@.plain()),
{
    proof {
        lemma_round_setting_valid(views(actions@), red_enable);
    }
    let init = actions[0].as_init().unwrap();
    let end_actions = end_actions_of(actions);
    if end_actions.len() == 0 {
        return Err(ConvError::NotFoundTerminalAction);
    }
    proof {
        lemma_first_ura_dora_of_terminals(views(actions@));
    }
    Ok(
        RoundSettings {
            kyoku: init.seed.kyoku,
            honba: init.seed.honba,
            kyoutaku: init.seed.kyoutaku,
            points: scale_points(&init.ten),
            dora: get_dora_vec(init.seed.dora_hyouji, actions, red_enable)?,
            ura_dora: get_ura_dora_vec(end_actions.as_slice(), red_enable)?,
        },
    )
}

} // verus!
