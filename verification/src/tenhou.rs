//! The rebuilt match, round by round.

use crate::error::views;
use crate::score::RankedScore;
use crate::tile::Tile;
use vstd::prelude::*;

verus! {

/// Where a called tile came from, seen from the caller: the caller's own
/// seat, the seat to the right (shimocha), across (toimen) or to the left
/// (kamicha).
#[derive(Clone, Copy, Debug, PartialEq, Eq, Structural)]
pub enum Direction {
    SelfSeat,
    Shimocha,
    Toimen,
    Kamicha,
}

/// What a seat takes in: a drawn tile or a call on another seat's tile, the
/// tiles of a call in the order they lie on the table.
#[allow(inconsistent_fields)]
#[derive(Clone, Copy, Debug, PartialEq, Eq)]
pub enum IncomingTile {
    Tsumo(Tile),
    Chii { combination: (Tile, Tile, Tile) },
    Pon { dir: Direction, combination: (Tile, Tile, Tile) },
    Daiminkan { dir: Direction, combination: (Tile, Tile, Tile, Tile) },
}

/// What a seat gives out on its turn: a discard from the hand, the discard
/// that declares riichi, a closed quad, a triplet extended to a quad, the
/// tile just drawn (`Tsumogiri`, with riichi `TsumogiriRiichi`), or `Dummy`,
/// which fills the turn that an open quad takes.
#[derive(Clone, Copy, Debug, PartialEq, Eq)]
pub enum OutgoingTile {
    Discard(Tile),
    Riichi(Tile),
    Ankan(Tile),
    Kakan { dir: Direction, combination: (Tile, Tile, Tile), added: Tile },
    Tsumogiri,
    TsumogiriRiichi,
    Dummy,
}

impl IncomingTile {
    /// Whether every tile of the entry is a face.
    pub open spec fn valid(self) -> bool {
        match self {
            IncomingTile::Tsumo(tile) => tile.valid(),
            IncomingTile::Chii { combination } => combination.0.valid() && combination.1.valid()
                && combination.2.valid(),
            IncomingTile::Pon { combination, .. } => combination.0.valid() && combination.1.valid()
                && combination.2.valid(),
            IncomingTile::Daiminkan { combination, .. } => combination.0.valid()
                && combination.1.valid() && combination.2.valid() && combination.3.valid(),
        }
    }
}

impl OutgoingTile {
    /// Whether every tile of the entry is a face.
    pub open spec fn valid(self) -> bool {
        match self {
            OutgoingTile::Discard(tile) => tile.valid(),
            OutgoingTile::Riichi(tile) => tile.valid(),
            OutgoingTile::Ankan(tile) => tile.valid(),
            OutgoingTile::Kakan { combination, added, .. } => combination.0.valid()
                && combination.1.valid() && combination.2.valid() && added.valid(),
            OutgoingTile::Tsumogiri => true,
            OutgoingTile::TsumogiriRiichi => true,
            OutgoingTile::Dummy => true,
        }
    }
}

/// Whether every tile of `tiles` is a face.
pub open spec fn all_valid(tiles: Seq<Tile>) -> bool {
    forall|i: int| 0 <= i < tiles.len() ==> (#[trigger] tiles[i]).valid()
}

/// Whether no tile of `tiles` is a red five.
pub open spec fn all_plain(tiles: Seq<Tile>) -> bool {
    forall|i: int| 0 <= i < tiles.len() ==> !(#[trigger] tiles[i]).red()
}

impl IncomingTile {
    /// Whether no tile of the entry is a red five.
    pub open spec fn plain(self) -> bool {
        match self {
            IncomingTile::Tsumo(tile) => !tile.red(),
            IncomingTile::Chii { combination } => !combination.0.red() && !combination.1.red()
                && !combination.2.red(),
            IncomingTile::Pon { combination, .. } => !combination.0.red() && !combination.1.red()
                && !combination.2.red(),
            IncomingTile::Daiminkan { combination, .. } => !combination.0.red()
                && !combination.1.red() && !combination.2.red() && !combination.3.red(),
        }
    }
}

impl OutgoingTile {
    /// Whether no tile of the entry is a red five.
    pub open spec fn plain(self) -> bool {
        match self {
            OutgoingTile::Discard(tile) => !tile.red(),
            OutgoingTile::Riichi(tile) => !tile.red(),
            OutgoingTile::Ankan(tile) => !tile.red(),
            OutgoingTile::Kakan { combination, added, .. } => !combination.0.red()
                && !combination.1.red() && !combination.2.red() && !added.red(),
            OutgoingTile::Tsumogiri => true,
            OutgoingTile::TsumogiriRiichi => true,
            OutgoingTile::Dummy => true,
        }
    }
}

/// A scoring pattern, in the order of the patterns' numbers.
#[derive(Clone, Copy, Debug, PartialEq, Eq, Structural)]
pub enum Yaku {
    MenzenTsumo,
    Riichi,
    Ippatsu,
    Chankan,
    Rinshankaihou,
    HaiteiTsumo,
    HouteiRon,
    Pinfu,
    Tanyao,
    Iipeikou,
    PlayerWindTon,
    PlayerWindNan,
    PlayerWindSha,
    PlayerWindPei,
    FieldWindTon,
    FieldWindNan,
    FieldWindSha,
    FieldWindPei,
    YakuhaiHaku,
    YakuhaiHatsu,
    YakuhaiChun,
    DoubleRiichi,
    Chiitoitsu,
    Chanta,
    Ikkitsuukan,
    SansyokuDoujun,
    SanshokuDoukou,
    Sankantsu,
    Toitoi,
    Sanannkou,
    Shousangen,
    Honroutou,
    Ryanpeikou,
    Junchan,
    Honiisou,
    Chiniisou,
    Renhou,
    Tenhou,
    Chiihou,
    Daisangen,
    Suuankou,
    SuuankouTanki,
    Tsuuiisou,
    Ryuuiisou,
    Chinroutou,
    Tyuurenpoutou,
    Tyuurenpoutou9,
    Kokushimusou,
    Kokushimusou13,
    Daisuushii,
    Syousuushii,
    Suukantsu,
    Dora,
    UraDora,
    AkaDora,
}

impl Yaku {
    /// The pattern's number.
    pub open spec fn id(self) -> nat {
        match self {
            Yaku::MenzenTsumo => 0,
            Yaku::Riichi => 1,
            Yaku::Ippatsu => 2,
            Yaku::Chankan => 3,
            Yaku::Rinshankaihou => 4,
            Yaku::HaiteiTsumo => 5,
            Yaku::HouteiRon => 6,
            Yaku::Pinfu => 7,
            Yaku::Tanyao => 8,
            Yaku::Iipeikou => 9,
            Yaku::PlayerWindTon => 10,
            Yaku::PlayerWindNan => 11,
            Yaku::PlayerWindSha => 12,
            Yaku::PlayerWindPei => 13,
            Yaku::FieldWindTon => 14,
            Yaku::FieldWindNan => 15,
            Yaku::FieldWindSha => 16,
            Yaku::FieldWindPei => 17,
            Yaku::YakuhaiHaku => 18,
            Yaku::YakuhaiHatsu => 19,
            Yaku::YakuhaiChun => 20,
            Yaku::DoubleRiichi => 21,
            Yaku::Chiitoitsu => 22,
            Yaku::Chanta => 23,
            Yaku::Ikkitsuukan => 24,
            Yaku::SansyokuDoujun => 25,
            Yaku::SanshokuDoukou => 26,
            Yaku::Sankantsu => 27,
            Yaku::Toitoi => 28,
            Yaku::Sanannkou => 29,
            Yaku::Shousangen => 30,
            Yaku::Honroutou => 31,
            Yaku::Ryanpeikou => 32,
            Yaku::Junchan => 33,
            Yaku::Honiisou => 34,
            Yaku::Chiniisou => 35,
            Yaku::Renhou => 36,
            Yaku::Tenhou => 37,
            Yaku::Chiihou => 38,
            Yaku::Daisangen => 39,
            Yaku::Suuankou => 40,
            Yaku::SuuankouTanki => 41,
            Yaku::Tsuuiisou => 42,
            Yaku::Ryuuiisou => 43,
            Yaku::Chinroutou => 44,
            Yaku::Tyuurenpoutou => 45,
            Yaku::Tyuurenpoutou9 => 46,
            Yaku::Kokushimusou => 47,
            Yaku::Kokushimusou13 => 48,
            Yaku::Daisuushii => 49,
            Yaku::Syousuushii => 50,
            Yaku::Suukantsu => 51,
            Yaku::Dora => 52,
            Yaku::UraDora => 53,
            Yaku::AkaDora => 54,
        }
    }

    /// No two patterns share a number.
    pub proof fn lemma_id_injective(a: Yaku, b: Yaku)
        requires
            a.id() == b.id(),
        ensures
            a == b,
    {
    }
}

/// What a pattern is worth: han for a pattern of an ordinary hand, a count of
/// limits for a pattern of a limit hand.
#[derive(Clone, Copy, Debug, PartialEq, Eq, Structural)]
pub enum YakuLevel {
    Normal(u8),
    Yakuman(u8),
}

impl YakuLevel {
    /// The number that the level carries.
    pub open spec fn number(self) -> u8 {
        match self {
            YakuLevel::Normal(han) => han,
            YakuLevel::Yakuman(count) => count,
        }
    }

    /// The number that the level carries.
    pub fn get_number(&self) -> (number: u8)
        ensures
            number == self.number(),
    {
        match self {
            YakuLevel::Normal(han) => *han,
            YakuLevel::Yakuman(count) => *count,
        }
    }
}

/// A pattern of a winning hand with what it is worth.
#[derive(Clone, Copy, Debug, PartialEq, Eq, Structural)]
pub struct YakuPair {
    pub yaku: Yaku,
    pub level: YakuLevel,
}

/// One winner's outcome. Point changes are in points, one per seat;
/// `pao_who` is the seat liable for the hand, or the winner where none is.
#[derive(Clone, Debug, PartialEq, Eq)]
pub struct Agari {
    pub delta_points: Vec<i64>,
    pub who: u8,
    pub from_who: u8,
    pub pao_who: u8,
    pub ranked_score: RankedScore,
    pub yaku: Vec<YakuPair>,
}

/// One winner's outcome, its lists as sequences.
pub struct AgariView {
    pub delta_points: Seq<i64>,
    pub who: u8,
    pub from_who: u8,
    pub pao_who: u8,
    pub ranked_score: RankedScore,
    pub yaku: Seq<YakuPair>,
}

impl View for Agari {
    type V = AgariView;

    open spec fn view(&self) -> AgariView {
        AgariView {
            delta_points: self.delta_points@,
            who: self.who,
            from_who: self.from_who,
            pao_who: self.pao_who,
            ranked_score: self.ranked_score,
            yaku: self.yaku@,
        }
    }
}

/// How a round ended without a winner: an exhausted wall with some, all or
/// none of the seats tenpai, or one of the abandonments.
#[derive(Clone, Copy, Debug, PartialEq, Eq, Structural)]
pub enum ExtraRyuukyokuReason {
    Ryuukyoku,
    KyuusyuKyuuhai,
    SuuchaRiichi,
    SanchaHoura,
    SuukanSanra,
    SuufuuRenda,
    NagashiMangan,
    TenpaiEverybody,
    TenpaiNobody,
}

/// How a round ended: with one outcome per winner, or in a draw. The point
/// changes of a draw are in points, one per seat, and empty where no points
/// moved.
#[derive(Clone, Debug, PartialEq, Eq)]
pub enum RoundResult {
    Agari { agari_vec: Vec<Agari> },
    Ryuukyoku { reason: ExtraRyuukyokuReason, delta_points: Vec<i64> },
}

/// How a round ended, its lists as sequences.
pub enum RoundResultView {
    Agari { agari_vec: Seq<AgariView> },
    Ryuukyoku { reason: ExtraRyuukyokuReason, delta_points: Seq<i64> },
}

impl View for RoundResult {
    type V = RoundResultView;

    open spec fn view(&self) -> RoundResultView {
        match self {
            RoundResult::Agari { agari_vec } => RoundResultView::Agari {
                agari_vec: views(agari_vec@),
            },
            RoundResult::Ryuukyoku { reason, delta_points } => RoundResultView::Ryuukyoku {
                reason: *reason,
                delta_points: delta_points@,
            },
        }
    }
}

/// How a round starts: its number, the repeat counter, the riichi sticks on
/// the table, the seats' scores in points, the dora indicators in the order
/// they were turned over, and the ura-dora indicators.
#[derive(Clone, Debug, PartialEq, Eq)]
pub struct RoundSettings {
    pub kyoku: u8,
    pub honba: u8,
    pub kyoutaku: u8,
    pub points: Vec<i64>,
    pub dora: Vec<Tile>,
    pub ura_dora: Vec<Tile>,
}

/// A round's settings, its lists as sequences.
pub struct RoundSettingsView {
    pub kyoku: u8,
    pub honba: u8,
    pub kyoutaku: u8,
    pub points: Seq<i64>,
    pub dora: Seq<Tile>,
    pub ura_dora: Seq<Tile>,
}

impl RoundSettingsView {
    /// Whether every indicator is a face.
    pub open spec fn valid(self) -> bool {
        all_valid(self.dora) && all_valid(self.ura_dora)
    }

    /// Whether no indicator is a red five.
    pub open spec fn plain(self) -> bool {
        all_plain(self.dora) && all_plain(self.ura_dora)
    }
}

impl View for RoundSettings {
    type V = RoundSettingsView;

    open spec fn view(&self) -> RoundSettingsView {
        RoundSettingsView {
            kyoku: self.kyoku,
            honba: self.honba,
            kyoutaku: self.kyoutaku,
            points: self.points@,
            dora: self.dora@,
            ura_dora: self.ura_dora@,
        }
    }
}

/// One seat's round: the starting hand in display order, then what the seat
/// took in and what it gave out, each in the order it happened.
#[derive(Clone, Debug, PartialEq, Eq)]
pub struct RoundPlayer {
    pub hand: Vec<Tile>,
    pub incoming: Vec<IncomingTile>,
    pub outgoing: Vec<OutgoingTile>,
}

/// One seat's round, its lists as sequences.
pub struct RoundPlayerView {
    pub hand: Seq<Tile>,
    pub incoming: Seq<IncomingTile>,
    pub outgoing: Seq<OutgoingTile>,
}

impl RoundPlayerView {
    /// Whether every tile of the seat's round is a face.
    pub open spec fn valid(self) -> bool {
        &&& all_valid(self.hand)
        &&& forall|i: int| 0 <= i < self.incoming.len() ==> (#[trigger] self.incoming[i]).valid()
        &&& forall|i: int| 0 <= i < self.outgoing.len() ==> (#[trigger] self.outgoing[i]).valid()
    }
}

impl RoundPlayerView {
    /// Whether no tile of the seat's round is a red five.
    pub open spec fn plain(self) -> bool {
        &&& all_plain(self.hand)
        &&& forall|i: int| 0 <= i < self.incoming.len() ==> (#[trigger] self.incoming[i]).plain()
        &&& forall|i: int| 0 <= i < self.outgoing.len() ==> (#[trigger] self.outgoing[i]).plain()
    }
}

impl View for RoundPlayer {
    type V = RoundPlayerView;

    open spec fn view(&self) -> RoundPlayerView {
        RoundPlayerView { hand: self.hand@, incoming: self.incoming@, outgoing: self.outgoing@ }
    }
}

/// One round: `players` holds the seats 0 to 3 in order.
#[derive(Clone, Debug, PartialEq, Eq)]
pub struct Round {
    pub settings: RoundSettings,
    pub players: Vec<RoundPlayer>,
    pub result: RoundResult,
}

/// One round, its lists as sequences.
pub struct RoundView {
    pub settings: RoundSettingsView,
    pub players: Seq<RoundPlayerView>,
    pub result: RoundResultView,
}

/// Whether `players` are the four seats of a round: every tile of theirs is
/// a face, and none of them gives out a `Dummy` last.
pub open spec fn four_seats(players: Seq<RoundPlayerView>) -> bool {
    &&& players.len() == 4
    &&& forall|seat: int| 0 <= seat < 4 ==> (#[trigger] players[seat]).valid()
    &&& forall|seat: int|
        0 <= seat < 4 ==> (#[trigger] players[seat]).outgoing.len() == 0 || !(
        players[seat].outgoing.last() is Dummy)
}

impl RoundView {
    /// Whether the round has four seats, no seat gives out a `Dummy` last, and
    /// every tile of the round is a face.
    pub open spec fn well_formed(self) -> bool {
        self.settings.valid() && four_seats(self.players)
    }
}

impl RoundView {
    /// Whether no tile of the round is a red five.
    pub open spec fn plain(self) -> bool {
        &&& self.settings.plain()
        &&& forall|seat: int| 0 <= seat < self.players.len() ==> (#[trigger] self.players[seat]).plain()
    }
}

impl View for Round {
    type V = RoundView;

    open spec fn view(&self) -> RoundView {
        RoundView {
            settings: self.settings@,
            players: views(self.players@),
            result: self.result@,
        }
    }
}

/// `what` of a seat that left.
pub const CONNECTION_LEFT: u8 = 0;

/// `what` of a seat that rejoined.
pub const CONNECTION_REJOINED: u8 = 1;

/// A seat left or rejoined. `log` is the index of the round it happened in,
/// or `None` before the first round; `step` counts the draws, discards and
/// calls of that round up to then.
#[derive(Clone, Copy, Debug, PartialEq, Eq)]
pub struct Connection {
    pub what: u8,
    pub log: Option<usize>,
    pub who: u8,
    pub step: usize,
}

/// The ruleset: its short description, and whether the red five of each suit
/// is in play.
#[derive(Clone, Debug, PartialEq, Eq)]
pub struct Rule {
    pub disp: String,
    pub aka53: bool,
    pub aka52: bool,
    pub aka51: bool,
}

/// The ruleset, its description as a sequence.
pub struct RuleView {
    pub disp: Seq<char>,
    pub aka53: bool,
    pub aka52: bool,
    pub aka51: bool,
}

impl View for Rule {
    type V = RuleView;

    open spec fn view(&self) -> RuleView {
        RuleView { disp: self.disp@, aka53: self.aka53, aka52: self.aka52, aka51: self.aka51 }
    }
}

/// A match, round by round. `ver`, `rate` and `final_results` carry doubles
/// as their bit patterns (`f64::to_bits`); `final_points` is in points.
#[derive(Clone, Debug, PartialEq, Eq)]
pub struct TenhouJson {
    pub ver: u64,
    pub reference: String,
    pub rounds: Vec<Round>,
    pub connections: Vec<Connection>,
    pub ratingc: String,
    pub rule: Rule,
    pub lobby: u32,
    pub dan: Vec<String>,
    pub rate: Vec<u64>,
    pub sx: Vec<String>,
    pub final_points: Vec<i64>,
    pub final_results: Vec<u64>,
    pub names: Vec<String>,
}

/// A match, its lists as sequences.
pub struct TenhouJsonView {
    pub ver: u64,
    pub reference: Seq<char>,
    pub rounds: Seq<RoundView>,
    pub connections: Seq<Connection>,
    pub ratingc: Seq<char>,
    pub rule: RuleView,
    pub lobby: u32,
    pub dan: Seq<Seq<char>>,
    pub rate: Seq<u64>,
    pub sx: Seq<Seq<char>>,
    pub final_points: Seq<i64>,
    pub final_results: Seq<u64>,
    pub names: Seq<Seq<char>>,
}

impl TenhouJsonView {
    /// Whether the match is one without red fives: its ruleset has none, and
    /// no tile of its rounds is one.
    pub open spec fn without_red(self) -> bool {
        &&& !self.rule.aka51 && !self.rule.aka52 && !self.rule.aka53
        &&& forall|k: int| 0 <= k < self.rounds.len() ==> (#[trigger] self.rounds[k]).plain()
    }
}

impl View for TenhouJson {
    type V = TenhouJsonView;

    open spec fn view(&self) -> TenhouJsonView {
        TenhouJsonView {
            ver: self.ver,
            reference: self.reference@,
            rounds: views(self.rounds@),
            connections: self.connections@,
            ratingc: self.ratingc@,
            rule: self.rule@,
            lobby: self.lobby,
            dan: views(self.dan@),
            rate: self.rate@,
            sx: views(self.sx@),
            final_points: self.final_points@,
            final_results: self.final_results@,
            names: views(self.names@),
        }
    }
}

} // verus!
