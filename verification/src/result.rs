//! How a round ended: the outcomes of its wins, or its draw.

use crate::error::{agrees, agrees_each, views, ConvError, ConvResult};
use crate::mjlog::{
    Action, ActionAGARI, ActionAGARIView, ActionRYUUKYOKU, ActionRYUUKYOKUView, ActionView, Player,
};
use crate::mjlog::ExtraRyuukyokuReason as LoggedReason;
use crate::points::{scale_points, times_100};
use crate::score::{
    get_ko_ron, get_ko_ron_yakuman, get_ko_tsumo, get_ko_tsumo_yakuman, get_oya_ron,
    get_oya_ron_yakuman, get_oya_tsumo, get_oya_tsumo_yakuman, lemma_normal_score_saturates,
    normal_score, table_for, yakuman_score, RankedScore,
};
use crate::settings::{first_ura_dora, lemma_first_ura_dora, round_setting};
use crate::tenhou::{
    Agari, AgariView, ExtraRyuukyokuReason, RoundResult, RoundResultView, Yaku, YakuLevel, YakuPair,
};
use vstd::prelude::*;

verus! {

/// The pattern that has the number of the log's pattern `x`.
pub open spec fn yaku_of(x: crate::mjlog::Yaku) -> Yaku {
    choose|yaku: Yaku| yaku.id() == x.id()
}

/// How a draw came about, as far as the log gives a reason: an exhausted
/// wall where it gives none.
pub open spec fn reason_of(x: Option<LoggedReason>) -> ExtraRyuukyokuReason {
    match x {
        Some(LoggedReason::KyuusyuKyuuhai) => ExtraRyuukyokuReason::KyuusyuKyuuhai,
        Some(LoggedReason::SuuchaRiichi) => ExtraRyuukyokuReason::SuuchaRiichi,
        Some(LoggedReason::SanchaHoura) => ExtraRyuukyokuReason::SanchaHoura,
        Some(LoggedReason::SuukanSanra) => ExtraRyuukyokuReason::SuukanSanra,
        Some(LoggedReason::SuufuuRenda) => ExtraRyuukyokuReason::SuufuuRenda,
        Some(LoggedReason::NagashiMangan) => ExtraRyuukyokuReason::NagashiMangan,
        None => ExtraRyuukyokuReason::Ryuukyoku,
    }
}

/// Whether a pattern is listed with a hand: all but ura dora worth no han.
pub open spec fn listed(pair: YakuPair) -> bool {
    !(pair.yaku is UraDora && pair.level == YakuLevel::Normal(0))
}

/// A pattern of an ordinary hand with its han.
pub open spec fn normal_pair(entry: (crate::mjlog::Yaku, u8)) -> YakuPair {
    YakuPair { yaku: yaku_of(entry.0), level: YakuLevel::Normal(entry.1) }
}

/// A pattern of a limit hand, which counts one limit.
pub open spec fn yakuman_pair(yaku: crate::mjlog::Yaku) -> YakuPair {
    YakuPair { yaku: yaku_of(yaku), level: YakuLevel::Yakuman(1) }
}

/// The listed patterns of an ordinary hand.
pub open spec fn yaku_pairs(entries: Seq<(crate::mjlog::Yaku, u8)>) -> Seq<YakuPair> {
    entries.map_values(|entry: (crate::mjlog::Yaku, u8)| normal_pair(entry)).filter(
        |pair: YakuPair| listed(pair),
    )
}

/// The patterns of a limit hand.
pub open spec fn yakuman_pairs(patterns: Seq<crate::mjlog::Yaku>) -> Seq<YakuPair> {
    patterns.map_values(|yaku: crate::mjlog::Yaku| yakuman_pair(yaku))
}

/// The sum of the numbers that the patterns' levels carry.
pub open spec fn level_total(pairs: Seq<YakuPair>) -> nat
    decreases pairs.len(),
{
    if pairs.len() == 0 {
        0
    } else {
        level_total(pairs.drop_last()) + pairs.last().level.number() as nat
    }
}

impl ActionAGARIView {
    /// Whether the win can be scored: it lists patterns of an ordinary hand,
    /// or at least one pattern of a limit hand and no more of them than the
    /// score tables count.
    pub open spec fn scored(self) -> bool {
        self.yaku.len() > 0 || 0 < self.yakuman.len() <= u8::MAX
    }
}

impl ActionAGARI {
    /// Whether the win can be scored.
    pub fn is_scored(&self) -> (yes: bool)
        ensures
            yes == self@.scored(),
    {
        self.yaku.len() > 0 || (0 < self.yakuman.len() && self.yakuman.len() <= 255)
    }
}

/// The outcome of the win `v` in a round dealt by `oya`.
///
/// The score changes are those of the log, in points; the liable seat is the
/// winner where the log names none. A hand that lists patterns with han is
/// an ordinary hand: its patterns are the listed ones, and its score is the
/// entry for its fu and the sum of its han in the table for the win. Any
/// other hand is a limit hand: its score is the entry for the count of its
/// patterns in that table.
pub open spec fn agari_of(v: ActionAGARIView, oya: Player) -> AgariView {
    let table = table_for(v.tsumo(), v.who == oya);
    let yaku = if v.yaku.len() > 0 {
        yaku_pairs(v.yaku)
    } else {
        yakuman_pairs(v.yakuman)
    };
    AgariView {
        delta_points: times_100(v.delta_points),
        who: v.who.0,
        from_who: v.from_who.0,
        pao_who: match v.pao_who {
            Some(w) => w.0,
            None => v.who.0,
        },
        ranked_score: if v.yaku.len() > 0 {
            normal_score(table, v.fu, level_total(yaku))
        } else {
            yakuman_score(table, level_total(yaku) as u8)
        },
        yaku,
    }
}

/// The wins among `actions`, in order.
pub open spec fn wins(actions: Seq<ActionView>) -> Seq<ActionAGARIView> {
    actions.filter_map(
        |action: ActionView|
            match action {
                ActionView::AGARI(agari) => Some(agari),
                _ => None,
            },
    )
}

/// The draws among `actions`, in order.
pub open spec fn draws(actions: Seq<ActionView>) -> Seq<ActionRYUUKYOKUView> {
    actions.filter_map(
        |action: ActionView|
            match action {
                ActionView::RYUUKYOKU(ryuukyoku) => Some(ryuukyoku),
                _ => None,
            },
    )
}

/// How the draw `v` came about: the reason the log gives; where it gives
/// none, by the hands shown as tenpai: all four, none, or some.
pub open spec fn draw_reason(v: ActionRYUUKYOKUView) -> ExtraRyuukyokuReason {
    match reason_of(v.reason) {
        ExtraRyuukyokuReason::Ryuukyoku => {
            if v.hai0 is Some && v.hai1 is Some && v.hai2 is Some && v.hai3 is Some {
                ExtraRyuukyokuReason::TenpaiEverybody
            } else if v.hai0 is None && v.hai1 is None && v.hai2 is None && v.hai3 is None {
                ExtraRyuukyokuReason::TenpaiNobody
            } else {
                ExtraRyuukyokuReason::Ryuukyoku
            }
        },
        reason => reason,
    }
}

/// The score changes of the draw `v` in points, or none where no score
/// changed.
pub open spec fn draw_points(v: ActionRYUUKYOKUView) -> Seq<i64> {
    if exists|i: int| 0 <= i < v.delta_points.len() && #[trigger] v.delta_points[i] != 0 {
        times_100(v.delta_points)
    } else {
        Seq::empty()
    }
}

/// The result of a round that ends in the draw `v`.
pub open spec fn draw_result(v: ActionRYUUKYOKUView) -> RoundResultView {
    RoundResultView::Ryuukyoku { reason: draw_reason(v), delta_points: draw_points(v) }
}

/// The outcomes of the wins `vs` in a round dealt by `oya`.
pub open spec fn agari_views(vs: Seq<ActionAGARIView>, oya: Player) -> Seq<AgariView> {
    vs.map_values(|v: ActionAGARIView| agari_of(v, oya))
}

/// The result of a round dealt by `oya` that ends in the wins `vs`.
pub open spec fn win_result(vs: Seq<ActionAGARIView>, oya: Player) -> RoundResultView {
    RoundResultView::Agari { agari_vec: agari_views(vs, oya) }
}

/// How the round `actions`, which starts with its round-start action, ended:
/// in a draw where it holds one draw and no win, with the outcomes of its
/// wins where it holds wins and no draw. Nothing else is a round's end.
pub open spec fn round_result(actions: Seq<ActionView>) -> Result<RoundResultView, ConvError>
    recommends
        actions.len() > 0,
        actions[0] is INIT,
{
    if draws(actions).len() == 1 && wins(actions).len() == 0 {
        Ok(draw_result(draws(actions)[0]))
    } else if draws(actions).len() == 0 && wins(actions).len() > 0 {
        Ok(win_result(wins(actions), actions[0]->INIT_0.oya))
    } else {
        Err(ConvError::InvalidRoundFormat)
    }
}

/// A round that ends in wins has one outcome for each of its wins, in their
/// order, and no draw; a round that ends in a draw holds that draw alone.
pub proof fn lemma_round_result_kinds(actions: Seq<ActionView>)
    ensures
        round_result(actions) matches Ok(RoundResultView::Agari { agari_vec }) ==> {
            &&& agari_vec.len() == wins(actions).len()
            &&& agari_vec.len() >= 1
            &&& draws(actions).len() == 0
            &&& forall|k: int|
                0 <= k < agari_vec.len() ==> #[trigger] agari_vec[k] == agari_of(
                    wins(actions)[k],
                    actions[0]->INIT_0.oya,
                )
        },
        round_result(actions) matches Ok(RoundResultView::Ryuukyoku { reason, delta_points }) ==> {
            &&& draws(actions).len() == 1
            &&& wins(actions).len() == 0
            &&& reason == draw_reason(draws(actions)[0])
            &&& delta_points == draw_points(draws(actions)[0])
        },
        round_result(actions) matches Err(e) ==> e == ConvError::InvalidRoundFormat,
{
}

/// Every win of a log is among its wins: a log without wins holds no win.
pub proof fn lemma_no_wins(actions: Seq<ActionView>)
    ensures
        wins(actions).len() == 0 <==> forall|i: int|
            0 <= i < actions.len() ==> !(#[trigger] actions[i] is AGARI),
    decreases actions.len(),
{
    if actions.len() > 0 {
        lemma_no_wins(actions.drop_last());
        if wins(actions).len() == 0 {
            assert forall|i: int| 0 <= i < actions.len() implies !(#[trigger] actions[i]
                is AGARI) by {
                if i < actions.len() - 1 {
                    assert(actions.drop_last()[i] == actions[i]);
                }
            }
        } else if !(actions.last() is AGARI) {
            let i = choose|i: int|
                0 <= i < actions.len() - 1 && #[trigger] actions.drop_last()[i] is AGARI;
            assert(actions[i] is AGARI);
        }
    }
}

/// A round that ends in a draw has no ura-dora indicators.
pub proof fn lemma_draw_has_no_ura_dora(actions: Seq<ActionView>)
    requires
        round_result(actions) matches Ok(RoundResultView::Ryuukyoku { .. }),
    ensures
        first_ura_dora(actions).len() == 0,
        forall|red_enabled: bool|
            #[trigger] round_setting(actions, red_enabled) matches Ok(settings)
                ==> settings.ura_dora.len() == 0,
{
    lemma_no_wins(actions);
    lemma_first_ura_dora(actions);
    if first_ura_dora(actions).len() > 0 {
        let i = choose|i: int|
            0 <= i < actions.len() && actions[i] is AGARI && first_ura_dora(actions)
                == (#[trigger] actions[i])->AGARI_0.dora_hai_ura;
        assert(actions[i] is AGARI);
    }
    crate::hand::lemma_decode_all_valid(first_ura_dora(actions), true);
    crate::hand::lemma_decode_all_valid(first_ura_dora(actions), false);
}

/// A draw without a reason in the log is named by the hands shown: all
/// four, none, or some. A reason in the log stands.
pub proof fn lemma_draw_reason(v: ActionRYUUKYOKUView)
    ensures
        v.reason is None && v.hai0 is Some && v.hai1 is Some && v.hai2 is Some && v.hai3 is Some
            ==> draw_reason(v) == ExtraRyuukyokuReason::TenpaiEverybody,
        v.reason is None && v.hai0 is None && v.hai1 is None && v.hai2 is None && v.hai3 is None
            ==> draw_reason(v) == ExtraRyuukyokuReason::TenpaiNobody,
        v.reason is None && !(v.hai0 is Some && v.hai1 is Some && v.hai2 is Some && v.hai3 is Some)
            && !(v.hai0 is None && v.hai1 is None && v.hai2 is None && v.hai3 is None)
            ==> draw_reason(v) == ExtraRyuukyokuReason::Ryuukyoku,
        v.reason is Some ==> draw_reason(v) == reason_of(v.reason) && draw_reason(v)
            != ExtraRyuukyokuReason::Ryuukyoku && draw_reason(v)
            != ExtraRyuukyokuReason::TenpaiEverybody && draw_reason(v)
            != ExtraRyuukyokuReason::TenpaiNobody,
{
}

/// Whether every win among `actions` can be scored.
pub open spec fn wins_scored(actions: Seq<ActionView>) -> bool {
    forall|i: int|
        0 <= i < actions.len() && (#[trigger] actions[i]) is AGARI ==> actions[i]->AGARI_0.scored()
}

/// Converts a pattern of the log.
pub fn conv_yaku(x: crate::mjlog::Yaku) -> (yaku: Yaku)
    ensures
        yaku.id() == x.id(),
        yaku == yaku_of(x),
{
    let yaku = match x {
        crate::mjlog::Yaku::MenzenTsumo => Yaku::MenzenTsumo,
        crate::mjlog::Yaku::Riichi => Yaku::Riichi,
        crate::mjlog::Yaku::Ippatsu => Yaku::Ippatsu,
        crate::mjlog::Yaku::Chankan => Yaku::Chankan,
        crate::mjlog::Yaku::Rinshankaihou => Yaku::Rinshankaihou,
        crate::mjlog::Yaku::HaiteiTsumo => Yaku::HaiteiTsumo,
        crate::mjlog::Yaku::HouteiRon => Yaku::HouteiRon,
        crate::mjlog::Yaku::Pinfu => Yaku::Pinfu,
        crate::mjlog::Yaku::Tanyao => Yaku::Tanyao,
        crate::mjlog::Yaku::Iipeikou => Yaku::Iipeikou,
        crate::mjlog::Yaku::PlayerWindTon => Yaku::PlayerWindTon,
        crate::mjlog::Yaku::PlayerWindNan => Yaku::PlayerWindNan,
        crate::mjlog::Yaku::PlayerWindSha => Yaku::PlayerWindSha,
        crate::mjlog::Yaku::PlayerWindPei => Yaku::PlayerWindPei,
        crate::mjlog::Yaku::FieldWindTon => Yaku::FieldWindTon,
        crate::mjlog::Yaku::FieldWindNan => Yaku::FieldWindNan,
        crate::mjlog::Yaku::FieldWindSha => Yaku::FieldWindSha,
        crate::mjlog::Yaku::FieldWindPei => Yaku::FieldWindPei,
        crate::mjlog::Yaku::YakuhaiHaku => Yaku::YakuhaiHaku,
        crate::mjlog::Yaku::YakuhaiHatsu => Yaku::YakuhaiHatsu,
        crate::mjlog::Yaku::YakuhaiChun => Yaku::YakuhaiChun,
        crate::mjlog::Yaku::DoubleRiichi => Yaku::DoubleRiichi,
        crate::mjlog::Yaku::Chiitoitsu => Yaku::Chiitoitsu,
        crate::mjlog::Yaku::Chanta => Yaku::Chanta,
        crate::mjlog::Yaku::Ikkitsuukan => Yaku::Ikkitsuukan,
        crate::mjlog::Yaku::SansyokuDoujun => Yaku::SansyokuDoujun,
        crate::mjlog::Yaku::SanshokuDoukou => Yaku::SanshokuDoukou,
        crate::mjlog::Yaku::Sankantsu => Yaku::Sankantsu,
        crate::mjlog::Yaku::Toitoi => Yaku::Toitoi,
        crate::mjlog::Yaku::Sanannkou => Yaku::Sanannkou,
        crate::mjlog::Yaku::Shousangen => Yaku::Shousangen,
        crate::mjlog::Yaku::Honroutou => Yaku::Honroutou,
        crate::mjlog::Yaku::Ryanpeikou => Yaku::Ryanpeikou,
        crate::mjlog::Yaku::Junchan => Yaku::Junchan,
        crate::mjlog::Yaku::Honiisou => Yaku::Honiisou,
        crate::mjlog::Yaku::Chiniisou => Yaku::Chiniisou,
        crate::mjlog::Yaku::Renhou => Yaku::Renhou,
        crate::mjlog::Yaku::Tenhou => Yaku::Tenhou,
        crate::mjlog::Yaku::Chiihou => Yaku::Chiihou,
        crate::mjlog::Yaku::Daisangen => Yaku::Daisangen,
        crate::mjlog::Yaku::Suuankou => Yaku::Suuankou,
        crate::mjlog::Yaku::SuuankouTanki => Yaku::SuuankouTanki,
        crate::mjlog::Yaku::Tsuuiisou => Yaku::Tsuuiisou,
        crate::mjlog::Yaku::Ryuuiisou => Yaku::Ryuuiisou,
        crate::mjlog::Yaku::Chinroutou => Yaku::Chinroutou,
        crate::mjlog::Yaku::Tyuurenpoutou => Yaku::Tyuurenpoutou,
        crate::mjlog::Yaku::Tyuurenpoutou9 => Yaku::Tyuurenpoutou9,
        crate::mjlog::Yaku::Kokushimusou => Yaku::Kokushimusou,
        crate::mjlog::Yaku::Kokushimusou13 => Yaku::Kokushimusou13,
        crate::mjlog::Yaku::Daisuushii => Yaku::Daisuushii,
        crate::mjlog::Yaku::Syousuushii => Yaku::Syousuushii,
        crate::mjlog::Yaku::Suukantsu => Yaku::Suukantsu,
        crate::mjlog::Yaku::Dora => Yaku::Dora,
        crate::mjlog::Yaku::UraDora => Yaku::UraDora,
        crate::mjlog::Yaku::AkaDora => Yaku::AkaDora,
    };
    proof {
        Yaku::lemma_id_injective(yaku, yaku_of(x));
    }
    yaku
}

/// Converts the reason that the log gives for a draw.
pub fn conv_extra_ryuukyoku_reason(x: &Option<LoggedReason>) -> (reason: ExtraRyuukyokuReason)
    ensures
        reason == reason_of(*x),
{
    match x {
        Some(LoggedReason::KyuusyuKyuuhai) => ExtraRyuukyokuReason::KyuusyuKyuuhai,
        Some(LoggedReason::SuuchaRiichi) => ExtraRyuukyokuReason::SuuchaRiichi,
        Some(LoggedReason::SanchaHoura) => ExtraRyuukyokuReason::SanchaHoura,
        Some(LoggedReason::SuukanSanra) => ExtraRyuukyokuReason::SuukanSanra,
        Some(LoggedReason::SuufuuRenda) => ExtraRyuukyokuReason::SuufuuRenda,
        Some(LoggedReason::NagashiMangan) => ExtraRyuukyokuReason::NagashiMangan,
        None => ExtraRyuukyokuReason::Ryuukyoku,
    }
}

/// Whether a pattern is listed with a hand.
pub fn is_not_ura_zero(x: &YakuPair) -> (yes: bool)
    ensures
        yes == listed(*x),
{
    match x.yaku {
        Yaku::UraDora => match x.level {
            YakuLevel::Normal(han) => han != 0,
            _ => true,
        },
        _ => true,
    }
}

/// Looks an ordinary hand of `han` han up in the table for the win `v`.
pub fn conv_ranked_score_normal(v: &ActionAGARI, han: u8, oya: Player) -> (score: RankedScore)
    ensures
        score == normal_score(table_for(v@.tsumo(), v.who == oya), v.fu, han as nat),
{
    if v.is_tsumo() {
        if v.who == oya {
            get_oya_tsumo(v.fu, han)
        } else {
            get_ko_tsumo(v.fu, han)
        }
    } else {
        if v.who == oya {
            get_oya_ron(v.fu, han)
        } else {
            get_ko_ron(v.fu, han)
        }
    }
}

/// Looks a limit hand of `num` limits up in the table for the win `v`.
pub fn conv_ranked_score_yakuman(v: &ActionAGARI, num: u8, oya: Player) -> (score: RankedScore)
    ensures
        score == yakuman_score(table_for(v@.tsumo(), v.who == oya), num),
{
    if v.is_tsumo() {
        if v.who == oya {
            get_oya_tsumo_yakuman(num)
        } else {
            get_ko_tsumo_yakuman(num)
        }
    } else {
        if v.who == oya {
            get_oya_ron_yakuman(num)
        } else {
            get_ko_ron_yakuman(num)
        }
    }
}

/// Converts the patterns of an ordinary hand, and drops those that are not
/// listed.
pub fn conv_yaku_vec(vs: &[(crate::mjlog::Yaku, u8)]) -> (pairs: Vec<YakuPair>)
    ensures
        pairs@ == yaku_pairs(vs@),
{
    let mut pairs: Vec<YakuPair> = Vec::new();
    let mut i: usize = 0;
    proof {
        reveal(Seq::filter);
    }
    while i < vs.len()
        invariant
            0 <= i <= vs@.len(),
            pairs@ == yaku_pairs(vs@.take(i as int)),
        decreases vs@.len() - i,
    {
        let pair = YakuPair { yaku: conv_yaku(vs[i].0), level: YakuLevel::Normal(vs[i].1) };
        proof {
            reveal(Seq::filter);
            let mapped = vs@.take(i + 1).map_values(
                |entry: (crate::mjlog::Yaku, u8)| normal_pair(entry),
            );
            assert(mapped.drop_last() =~= vs@.take(i as int).map_values(
                |entry: (crate::mjlog::Yaku, u8)| normal_pair(entry),
            ));
            assert(mapped.last() == pair);
        }
        if is_not_ura_zero(&pair) {
            pairs.push(pair);
        }
        i += 1;
    }
    proof {
        assert(vs@.take(i as int) =~= vs@);
    }
    pairs
}

/// Converts the patterns of a limit hand.
pub fn conv_yakuman_vec(vs: &[crate::mjlog::Yaku]) -> (pairs: Vec<YakuPair>)
    ensures
        pairs@ == yakuman_pairs(vs@),
{
    let mut pairs: Vec<YakuPair> = Vec::new();
    let mut i: usize = 0;
    while i < vs.len()
        invariant
            0 <= i <= vs@.len(),
            pairs@ == yakuman_pairs(vs@.take(i as int)),
        decreases vs@.len() - i,
    {
        pairs.push(YakuPair { yaku: conv_yaku(vs[i]), level: YakuLevel::Yakuman(1) });
        i += 1;
        proof {
            assert(pairs@ =~= yakuman_pairs(vs@.take(i as int)));
        }
    }
    proof {
        assert(vs@.take(i as int) =~= vs@);
    }
    pairs
}

/// Every pattern of a limit hand counts one limit.
proof fn lemma_yakuman_total(patterns: Seq<crate::mjlog::Yaku>)
    ensures
        level_total(yakuman_pairs(patterns)) == patterns.len(),
    decreases patterns.len(),
{
    if patterns.len() > 0 {
        lemma_yakuman_total(patterns.drop_last());
        assert(yakuman_pairs(patterns).drop_last() =~= yakuman_pairs(patterns.drop_last()));
    }
}

/// The sum of the patterns' level numbers, or 255 where it is more.
fn sum_levels(pairs: &Vec<YakuPair>) -> (sum: u8)
    ensures
        sum == if level_total(pairs@) <= 255 {
            level_total(pairs@)
        } else {
            255
        },
{
    let mut sum: u8 = 0;
    let mut i: usize = 0;
    while i < pairs.len()
        invariant
            0 <= i <= pairs@.len(),
            sum == if level_total(pairs@.take(i as int)) <= 255 {
                level_total(pairs@.take(i as int))
            } else {
                255
            },
        decreases pairs@.len() - i,
    {
        proof {
            assert(pairs@.take(i + 1).drop_last() =~= pairs@.take(i as int));
        }
        let number = pairs[i].level.get_number();
        sum = if 255 - sum < number {
            255
        } else {
            sum + number
        };
        i += 1;
    }
    proof {
        assert(pairs@.take(i as int) =~= pairs@);
    }
    sum
}

/// Converts one win.
pub fn conv_agari(v: &ActionAGARI, oya: Player) -> (result: ConvResult<Agari>)
    requires
        v@.scored(),
    ensures
        agrees(result, Ok::<AgariView, ConvError>(agari_of(v@, oya))),
{
    let delta_points = scale_points(&v.delta_points);
    let who = v.who.to_u8();
    let from_who = v.from_who.to_u8();
    let pao_who = if let Some(w) = v.pao_who {
        w.to_u8()
    } else {
        v.who.to_u8()
    };
    let yaku: Vec<YakuPair>;
    let ranked_score: RankedScore;
    if v.yaku.len() > 0 {
        yaku = conv_yaku_vec(v.yaku.as_slice());
        let han = sum_levels(&yaku);
        proof {
            if level_total(yaku@) > 255 {
                lemma_normal_score_saturates(
                    table_for(v@.tsumo(), v.who == oya),
                    v.fu,
                    255,
                    level_total(yaku@),
                );
            }
        }
        ranked_score = conv_ranked_score_normal(v, han, oya);
    } else {
        yaku = conv_yakuman_vec(v.yakuman.as_slice());
        proof {
            lemma_yakuman_total(v.yakuman@);
        }
        let num = sum_levels(&yaku);
        ranked_score = conv_ranked_score_yakuman(v, num, oya);
    }
    Ok(Agari { delta_points, who, from_who, pao_who, ranked_score, yaku })
}

/// Converts the wins of a round.
pub fn conv_agari_vec(vs: &[&ActionAGARI], oya: Player) -> (result: ConvResult<Vec<Agari>>)
    requires
        forall|i: int| 0 <= i < vs@.len() ==> (#[trigger] vs@[i])@.scored(),
    ensures
        agrees_each(result, Ok::<Seq<AgariView>, ConvError>(agari_views(views(vs@), oya))),
{
    let mut agari_vec: Vec<Agari> = Vec::new();
    let mut i: usize = 0;
    while i < vs.len()
        invariant
            0 <= i <= vs@.len(),
            forall|k: int| 0 <= k < vs@.len() ==> (#[trigger] vs@[k])@.scored(),
            agari_vec@.len() == i,
            forall|k: int| 0 <= k < i ==> (#[trigger] agari_vec@[k])@ == agari_of(vs@[k]@, oya),
        decreases vs@.len() - i,
    {
        let agari = conv_agari(vs[i], oya)?;
        agari_vec.push(agari);
        i += 1;
    }
    proof {
        assert(views(agari_vec@) =~= agari_views(views(vs@), oya));
    }
    Ok(agari_vec)
}

/// Converts the wins that end a round.
pub fn conv_round_result_from_agari(vs: &[&ActionAGARI], oya: Player) -> (result: ConvResult<
    RoundResult,
>)
    requires
        forall|i: int| 0 <= i < vs@.len() ==> (#[trigger] vs@[i])@.scored(),
    ensures
        agrees(result, Ok::<RoundResultView, ConvError>(win_result(views(vs@), oya))),
{
    let agari_vec = conv_agari_vec(vs, oya)?;
    Ok(RoundResult::Agari { agari_vec })
}

/// The score changes of a draw in points, or none where no score changed.
pub fn conv_delta_points_ryuukyoku(v: &ActionRYUUKYOKU) -> (points: Vec<i64>)
    ensures
        points@ == draw_points(v@),
{
    let mut i: usize = 0;
    while i < v.delta_points.len()
        invariant
            0 <= i <= v.delta_points@.len(),
            forall|k: int| 0 <= k < i ==> #[trigger] v@.delta_points[k] == 0,
        decreases v.delta_points@.len() - i,
    {
        if v.delta_points[i] != 0 {
            assert(v@.delta_points[i as int] != 0);
            return scale_points(&v.delta_points);
        }
        i += 1;
    }
    Vec::new()
}

/// Converts a draw.
pub fn conv_round_result_from_ryuukyoku(v: &ActionRYUUKYOKU) -> (result: ConvResult<RoundResult>)
    ensures
        agrees(result, Ok::<RoundResultView, ConvError>(draw_result(v@))),
{
    let reason = match conv_extra_ryuukyoku_reason(&v.reason) {
        ExtraRyuukyokuReason::Ryuukyoku => {
            let shown = (v.hai0.is_some(), v.hai1.is_some(), v.hai2.is_some(), v.hai3.is_some());
            if shown.0 && shown.1 && shown.2 && shown.3 {
                ExtraRyuukyokuReason::TenpaiEverybody
            } else if !shown.0 && !shown.1 && !shown.2 && !shown.3 {
                ExtraRyuukyokuReason::TenpaiNobody
            } else {
                ExtraRyuukyokuReason::Ryuukyoku
            }
        },
        x => x,
    };
    Ok(RoundResult::Ryuukyoku { reason, delta_points: conv_delta_points_ryuukyoku(v) })
}

/// Finds how a round ended.
pub fn conv_round_result(actions: &[Action]) -> (result: ConvResult<RoundResult>)
    requires
        actions@.len() > 0,
        views(actions@)[0] is INIT,
        wins_scored(views(actions@)),
    ensures
        agrees(result, round_result(views(actions@))),
{
    let ghost log = views(actions@);
    let init_action = actions[0].as_init().unwrap();
    let mut ryuukyoku_actions: Vec<&ActionRYUUKYOKU> = Vec::new();
    let mut agari_actions: Vec<&ActionAGARI> = Vec::new();
    let mut i: usize = 0;
    while i < actions.len()
        invariant
            0 <= i <= actions@.len(),
            log == views(actions@),
            wins_scored(log),
            views(ryuukyoku_actions@) == draws(log.take(i as int)),
            views(agari_actions@) == wins(log.take(i as int)),
            forall|k: int| 0 <= k < agari_actions@.len() ==> (#[trigger] agari_actions@[k])@.scored(),
        decreases actions@.len() - i,
    {
        proof {
            assert(log.take(i + 1).drop_last() =~= log.take(i as int));
            assert(log[i as int] is AGARI ==> log[i as int]->AGARI_0.scored());
        }
        match &actions[i] {
            Action::RYUUKYOKU(ryuukyoku) => {
                ryuukyoku_actions.push(ryuukyoku);
            },
            Action::AGARI(agari) => {
                agari_actions.push(agari);
            },
            _ => {},
        }
        i += 1;
        proof {
            assert(views(ryuukyoku_actions@) =~= draws(log.take(i as int)));
            assert(views(agari_actions@) =~= wins(log.take(i as int)));
        }
    }
    proof {
        assert(log.take(i as int) =~= log);
    }
    if ryuukyoku_actions.len() == 1 && agari_actions.len() == 0 {
        return conv_round_result_from_ryuukyoku(ryuukyoku_actions[0]);
    }
    // Several seats may win on one tile.
    if ryuukyoku_actions.len() == 0 && agari_actions.len() > 0 {
        return conv_round_result_from_agari(agari_actions.as_slice(), init_action.oya);
    }
    Err(ConvError::InvalidRoundFormat)
}

} // verus!
