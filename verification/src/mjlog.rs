//! The action log of a match, as a parser hands it over.

use crate::error::views;
use crate::tile::Hai;
use vstd::prelude::*;

verus! {

/// A seat at the table, counted from 0.
#[derive(Clone, Copy, Debug, PartialEq, Eq, Structural)]
pub struct Player(pub u8);

impl Player {
    /// The seat with the number `seat`.
    pub fn new(seat: u8) -> (player: Player)
        ensures
            player == Player(seat),
    {
        Player(seat)
    }

    /// The number of the seat.
    pub fn to_u8(&self) -> (seat: u8)
        ensures
            seat == self.0,
    {
        self.0
    }
}

/// Where a called tile came from, seen from the caller: the caller's own
/// seat, the seat to the right (shimocha), across (toimen) or to the left
/// (kamicha).
#[derive(Clone, Copy, Debug, PartialEq, Eq, Structural)]
pub enum Direction {
    SelfSeat,
    Shimocha,
    Toimen,
    Kamicha,
}

/// A call, as the log records it: the raw tiles in ascending order.
#[derive(Clone, Copy, Debug, PartialEq, Eq)]
pub enum Meld {
    /// A sequence; `called_position` is the place (0, 1 or 2) of the called
    /// tile in `combination`.
    Chii { combination: (Hai, Hai, Hai), called_position: u8 },
    /// A triplet; `unused` is the fourth tile of the face, which stays out of
    /// the call.
    Pon { dir: Direction, combination: (Hai, Hai, Hai), called: Hai, unused: Hai },
    /// A triplet extended to a quad by `added`.
    Kakan { dir: Direction, combination: (Hai, Hai, Hai), called: Hai, added: Hai },
    /// An open quad on the called tile `hai`.
    Daiminkan { dir: Direction, hai: Hai },
    /// A closed quad of the face of `hai`.
    Ankan { hai: Hai },
}

/// A scoring pattern, in the order of the log's pattern numbers.
#[derive(Clone, Copy, Debug, PartialEq, Eq, Structural)]
pub enum Yaku {
    MenzenTsumo,
    Riichi,
    Ippatsu,
    Chankan,
    Rinshankaihou,
    HaiteiTsumo,
    HouteiRon,
    Pinfu,
    Tanyao,
    Iipeikou,
    PlayerWindTon,
    PlayerWindNan,
    PlayerWindSha,
    PlayerWindPei,
    FieldWindTon,
    FieldWindNan,
    FieldWindSha,
    FieldWindPei,
    YakuhaiHaku,
    YakuhaiHatsu,
    YakuhaiChun,
    DoubleRiichi,
    Chiitoitsu,
    Chanta,
    Ikkitsuukan,
    SansyokuDoujun,
    SanshokuDoukou,
    Sankantsu,
    Toitoi,
    Sanannkou,
    Shousangen,
    Honroutou,
    Ryanpeikou,
    Junchan,
    Honiisou,
    Chiniisou,
    Renhou,
    Tenhou,
    Chiihou,
    Daisangen,
    Suuankou,
    SuuankouTanki,
    Tsuuiisou,
    Ryuuiisou,
    Chinroutou,
    Tyuurenpoutou,
    Tyuurenpoutou9,
    Kokushimusou,
    Kokushimusou13,
    Daisuushii,
    Syousuushii,
    Suukantsu,
    Dora,
    UraDora,
    AkaDora,
}

impl Yaku {
    /// The pattern's number in the log.
    pub open spec fn id(self) -> nat {
        match self {
            Yaku::MenzenTsumo => 0,
            Yaku::Riichi => 1,
            Yaku::Ippatsu => 2,
            Yaku::Chankan => 3,
            Yaku::Rinshankaihou => 4,
            Yaku::HaiteiTsumo => 5,
            Yaku::HouteiRon => 6,
            Yaku::Pinfu => 7,
            Yaku::Tanyao => 8,
            Yaku::Iipeikou => 9,
            Yaku::PlayerWindTon => 10,
            Yaku::PlayerWindNan => 11,
            Yaku::PlayerWindSha => 12,
            Yaku::PlayerWindPei => 13,
            Yaku::FieldWindTon => 14,
            Yaku::FieldWindNan => 15,
            Yaku::FieldWindSha => 16,
            Yaku::FieldWindPei => 17,
            Yaku::YakuhaiHaku => 18,
            Yaku::YakuhaiHatsu => 19,
            Yaku::YakuhaiChun => 20,
            Yaku::DoubleRiichi => 21,
            Yaku::Chiitoitsu => 22,
            Yaku::Chanta => 23,
            Yaku::Ikkitsuukan => 24,
            Yaku::SansyokuDoujun => 25,
            Yaku::SanshokuDoukou => 26,
            Yaku::Sankantsu => 27,
            Yaku::Toitoi => 28,
            Yaku::Sanannkou => 29,
            Yaku::Shousangen => 30,
            Yaku::Honroutou => 31,
            Yaku::Ryanpeikou => 32,
            Yaku::Junchan => 33,
            Yaku::Honiisou => 34,
            Yaku::Chiniisou => 35,
            Yaku::Renhou => 36,
            Yaku::Tenhou => 37,
            Yaku::Chiihou => 38,
            Yaku::Daisangen => 39,
            Yaku::Suuankou => 40,
            Yaku::SuuankouTanki => 41,
            Yaku::Tsuuiisou => 42,
            Yaku::Ryuuiisou => 43,
            Yaku::Chinroutou => 44,
            Yaku::Tyuurenpoutou => 45,
            Yaku::Tyuurenpoutou9 => 46,
            Yaku::Kokushimusou => 47,
            Yaku::Kokushimusou13 => 48,
            Yaku::Daisuushii => 49,
            Yaku::Syousuushii => 50,
            Yaku::Suukantsu => 51,
            Yaku::Dora => 52,
            Yaku::UraDora => 53,
            Yaku::AkaDora => 54,
        }
    }
}

/// Why a round was abandoned.
#[derive(Clone, Copy, Debug, PartialEq, Eq, Structural)]
pub enum ExtraRyuukyokuReason {
    KyuusyuKyuuhai,
    SuuchaRiichi,
    SanchaHoura,
    SuukanSanra,
    SuufuuRenda,
    NagashiMangan,
}

/// A player's grade, from newcomer through the nine kyu and ten dan grades to
/// the highest title.
#[derive(Clone, Copy, Debug, PartialEq, Eq, Structural)]
pub enum TenhouRank {
    Newcomer,
    Kyu9,
    Kyu8,
    Kyu7,
    Kyu6,
    Kyu5,
    Kyu4,
    Kyu3,
    Kyu2,
    Kyu1,
    Dan1,
    Dan2,
    Dan3,
    Dan4,
    Dan5,
    Dan6,
    Dan7,
    Dan8,
    Dan9,
    Dan10,
    Tenhoui,
}

/// The room a match was played in.
#[derive(Clone, Copy, Debug, PartialEq, Eq, Structural)]
pub enum TenhouRoom {
    Ippan,
    Joukyu,
    Tokujou,
    Houou,
}

/// The ruleset of a match.
#[derive(Clone, Copy, Debug, PartialEq, Eq)]
pub struct GameSettings {
    pub room: TenhouRoom,
    /// Two wind rounds instead of one.
    pub hanchan: bool,
    /// No red fives.
    pub no_red: bool,
    /// No open all-simples hands.
    pub no_kuitan: bool,
    /// Fast play.
    pub soku: bool,
}

/// Table setup.
#[derive(Clone, Copy, Debug, PartialEq, Eq)]
pub struct ActionGO {
    pub settings: GameSettings,
    pub lobby: u32,
}

/// The player roster, one entry per seat in each list. A rating is carried as
/// the bit pattern of its double (`f64::to_bits`): nothing here computes with
/// it.
#[derive(Clone, Debug, PartialEq, Eq)]
pub struct ActionUN1 {
    pub names: Vec<String>,
    pub dan: Vec<TenhouRank>,
    pub rate: Vec<u64>,
    pub sx: Vec<String>,
}

/// The roster, its lists as sequences.
pub struct ActionUN1View {
    pub names: Seq<Seq<char>>,
    pub dan: Seq<TenhouRank>,
    pub rate: Seq<u64>,
    pub sx: Seq<Seq<char>>,
}

impl View for ActionUN1 {
    type V = ActionUN1View;

    open spec fn view(&self) -> ActionUN1View {
        ActionUN1View {
            names: views(self.names@),
            dan: self.dan@,
            rate: self.rate@,
            sx: views(self.sx@),
        }
    }
}

/// A seat rejoined.
#[derive(Clone, Copy, Debug, PartialEq, Eq)]
pub struct ActionUN2 {
    pub who: Player,
}

/// A seat left.
#[derive(Clone, Copy, Debug, PartialEq, Eq)]
pub struct ActionBYE {
    pub who: Player,
}

/// The match begins.
#[derive(Clone, Copy, Debug, PartialEq, Eq)]
pub struct ActionTAIKYOKU {
    pub oya: Player,
}

/// The seed the wall was shuffled from.
#[derive(Clone, Debug, PartialEq, Eq)]
pub struct ActionSHUFFLE {
    pub seed: String,
}

/// The seed as a sequence.
pub struct ActionSHUFFLEView {
    pub seed: Seq<char>,
}

impl View for ActionSHUFFLE {
    type V = ActionSHUFFLEView;

    open spec fn view(&self) -> ActionSHUFFLEView {
        ActionSHUFFLEView { seed: self.seed@ }
    }
}

/// How a round starts: its number, the repeat counter, the riichi sticks on
/// the table and the first dora indicator.
#[derive(Clone, Copy, Debug, PartialEq, Eq)]
pub struct InitSeed {
    pub kyoku: u8,
    pub honba: u8,
    pub kyoutaku: u8,
    pub dora_hyouji: Hai,
}

/// A round starts. `ten` holds the seats' scores in hundreds, `hai` their
/// starting hands.
#[derive(Clone, Debug, PartialEq, Eq)]
pub struct ActionINIT {
    pub seed: InitSeed,
    pub ten: Vec<i32>,
    pub oya: Player,
    pub hai: Vec<Vec<Hai>>,
}

/// A round start, its lists as sequences.
pub struct ActionINITView {
    pub seed: InitSeed,
    pub ten: Seq<i32>,
    pub oya: Player,
    pub hai: Seq<Seq<Hai>>,
}

impl View for ActionINIT {
    type V = ActionINITView;

    open spec fn view(&self) -> ActionINITView {
        ActionINITView { seed: self.seed, ten: self.ten@, oya: self.oya, hai: views(self.hai@) }
    }
}

/// A seat declares riichi; its next discard carries the declaration.
#[derive(Clone, Copy, Debug, PartialEq, Eq)]
pub struct ActionREACH1 {
    pub who: Player,
}

/// A riichi declaration stands: its discard was not won on.
#[derive(Clone, Copy, Debug, PartialEq, Eq)]
pub struct ActionREACH2 {
    pub who: Player,
}

/// A seat calls.
#[derive(Clone, Copy, Debug, PartialEq, Eq)]
pub struct ActionN {
    pub who: Player,
    pub m: Meld,
}

/// A further dora indicator is turned over.
#[derive(Clone, Copy, Debug, PartialEq, Eq)]
pub struct ActionDORA {
    pub hai: Hai,
}

/// A seat wins. Point changes are in hundreds. `yaku` pairs each pattern
/// with its han, `yakuman` lists the patterns of a limit hand; `owari`
/// holds the final scores (in hundreds) and placement values (as bit
/// patterns of doubles) where this action ends the match.
#[derive(Clone, Debug, PartialEq, Eq)]
pub struct ActionAGARI {
    pub fu: u8,
    pub yaku: Vec<(Yaku, u8)>,
    pub yakuman: Vec<Yaku>,
    pub dora_hai_ura: Vec<Hai>,
    pub who: Player,
    pub from_who: Player,
    pub pao_who: Option<Player>,
    pub delta_points: Vec<i32>,
    pub owari: Option<(Vec<i32>, Vec<u64>)>,
}

/// The final standings as sequences.
pub open spec fn standings(owari: Option<(Vec<i32>, Vec<u64>)>) -> Option<(Seq<i32>, Seq<u64>)> {
    match owari {
        Some(lists) => Some((lists.0@, lists.1@)),
        None => None,
    }
}

/// A shown hand as a sequence.
pub open spec fn shown(hand: Option<Vec<Hai>>) -> Option<Seq<Hai>> {
    match hand {
        Some(tiles) => Some(tiles@),
        None => None,
    }
}

/// A win, its lists as sequences.
pub struct ActionAGARIView {
    pub fu: u8,
    pub yaku: Seq<(Yaku, u8)>,
    pub yakuman: Seq<Yaku>,
    pub dora_hai_ura: Seq<Hai>,
    pub who: Player,
    pub from_who: Player,
    pub pao_who: Option<Player>,
    pub delta_points: Seq<i32>,
    pub owari: Option<(Seq<i32>, Seq<u64>)>,
}

impl View for ActionAGARI {
    type V = ActionAGARIView;

    open spec fn view(&self) -> ActionAGARIView {
        ActionAGARIView {
            fu: self.fu,
            yaku: self.yaku@,
            yakuman: self.yakuman@,
            dora_hai_ura: self.dora_hai_ura@,
            who: self.who,
            from_who: self.from_who,
            pao_who: self.pao_who,
            delta_points: self.delta_points@,
            owari: standings(self.owari),
        }
    }
}

/// A round ends without a winner. `hai0` to `hai3` hold the hands that the
/// seats 0 to 3 showed as tenpai.
#[derive(Clone, Debug, PartialEq, Eq)]
pub struct ActionRYUUKYOKU {
    pub delta_points: Vec<i32>,
    pub hai0: Option<Vec<Hai>>,
    pub hai1: Option<Vec<Hai>>,
    pub hai2: Option<Vec<Hai>>,
    pub hai3: Option<Vec<Hai>>,
    pub reason: Option<ExtraRyuukyokuReason>,
    pub owari: Option<(Vec<i32>, Vec<u64>)>,
}

/// A draw, its lists as sequences.
pub struct ActionRYUUKYOKUView {
    pub delta_points: Seq<i32>,
    pub hai0: Option<Seq<Hai>>,
    pub hai1: Option<Seq<Hai>>,
    pub hai2: Option<Seq<Hai>>,
    pub hai3: Option<Seq<Hai>>,
    pub reason: Option<ExtraRyuukyokuReason>,
    pub owari: Option<(Seq<i32>, Seq<u64>)>,
}

impl View for ActionRYUUKYOKU {
    type V = ActionRYUUKYOKUView;

    open spec fn view(&self) -> ActionRYUUKYOKUView {
        ActionRYUUKYOKUView {
            delta_points: self.delta_points@,
            hai0: shown(self.hai0),
            hai1: shown(self.hai1),
            hai2: shown(self.hai2),
            hai3: shown(self.hai3),
            reason: self.reason,
            owari: standings(self.owari),
        }
    }
}

/// A seat draws a tile.
#[derive(Clone, Copy, Debug, PartialEq, Eq)]
pub struct ActionDRAW {
    pub who: Player,
    pub hai: Hai,
}

/// A seat discards a tile.
#[derive(Clone, Copy, Debug, PartialEq, Eq)]
pub struct ActionDISCARD {
    pub who: Player,
    pub hai: Hai,
}

/// One entry of the action log.
#[allow(non_camel_case_types)]
#[derive(Clone, Debug, PartialEq, Eq)]
pub enum Action {
    SHUFFLE(ActionSHUFFLE),
    GO(ActionGO),
    UN1(ActionUN1),
    UN2(ActionUN2),
    BYE(ActionBYE),
    TAIKYOKU(ActionTAIKYOKU),
    INIT(ActionINIT),
    REACH1(ActionREACH1),
    REACH2(ActionREACH2),
    N(ActionN),
    DORA(ActionDORA),
    AGARI(ActionAGARI),
    RYUUKYOKU(ActionRYUUKYOKU),
    DRAW(ActionDRAW),
    DISCARD(ActionDISCARD),
}

/// One entry of the action log, its lists as sequences.
#[allow(non_camel_case_types)]
pub enum ActionView {
    SHUFFLE(ActionSHUFFLEView),
    GO(ActionGO),
    UN1(ActionUN1View),
    UN2(ActionUN2),
    BYE(ActionBYE),
    TAIKYOKU(ActionTAIKYOKU),
    INIT(ActionINITView),
    REACH1(ActionREACH1),
    REACH2(ActionREACH2),
    N(ActionN),
    DORA(ActionDORA),
    AGARI(ActionAGARIView),
    RYUUKYOKU(ActionRYUUKYOKUView),
    DRAW(ActionDRAW),
    DISCARD(ActionDISCARD),
}

impl View for Action {
    type V = ActionView;

    open spec fn view(&self) -> ActionView {
        match self {
            Action::SHUFFLE(shuffle) => ActionView::SHUFFLE(shuffle@),
            Action::GO(go) => ActionView::GO(*go),
            Action::UN1(un1) => ActionView::UN1(un1@),
            Action::UN2(un2) => ActionView::UN2(*un2),
            Action::BYE(bye) => ActionView::BYE(*bye),
            Action::TAIKYOKU(taikyoku) => ActionView::TAIKYOKU(*taikyoku),
            Action::INIT(init) => ActionView::INIT(init@),
            Action::REACH1(reach) => ActionView::REACH1(*reach),
            Action::REACH2(reach) => ActionView::REACH2(*reach),
            Action::N(call) => ActionView::N(*call),
            Action::DORA(dora) => ActionView::DORA(*dora),
            Action::AGARI(agari) => ActionView::AGARI(agari@),
            Action::RYUUKYOKU(ryuukyoku) => ActionView::RYUUKYOKU(ryuukyoku@),
            Action::DRAW(draw) => ActionView::DRAW(*draw),
            Action::DISCARD(discard) => ActionView::DISCARD(*discard),
        }
    }
}

/// A match: its actions in the order they happened.
#[derive(Clone, Debug, PartialEq, Eq)]
pub struct Mjlog {
    pub actions: Vec<Action>,
}

/// A match as the sequence of its actions.
pub struct MjlogView {
    pub actions: Seq<ActionView>,
}

impl View for Mjlog {
    type V = MjlogView;

    open spec fn view(&self) -> MjlogView {
        MjlogView { actions: views(self.actions@) }
    }
}

impl ActionAGARIView {
    /// Whether the winner drew the winning tile.
    pub open spec fn tsumo(self) -> bool {
        self.who == self.from_who
    }
}

impl ActionAGARI {
    /// Whether the winner drew the winning tile.
    pub fn is_tsumo(&self) -> (yes: bool)
        ensures
            yes == self@.tsumo(),
    {
        self.who == self.from_who
    }
}

impl GameSettings {
    /// Whether red fives are in play.
    pub open spec fn red_enabled(self) -> bool {
        !self.no_red
    }
}

impl ActionView {
    /// Whether the action is one that the log of a match with or without red
    /// fives can hold: a round start deals four hands, a call can be laid
    /// out, and a win can be scored.
    pub open spec fn well_formed(self, red_enabled: bool) -> bool {
        match self {
            ActionView::INIT(init) => init.hai.len() == 4,
            ActionView::N(call) => call.m.placeable(red_enabled),
            ActionView::AGARI(agari) => agari.scored(),
            _ => true,
        }
    }
}

impl Action {
    /// Whether the action is one that the log of a match with or without red
    /// fives can hold.
    pub fn is_well_formed(&self, red_enable: bool) -> (yes: bool)
        ensures
            yes == self@.well_formed(red_enable),
    {
        match self {
            Action::INIT(init) => init.hai.len() == 4,
            Action::N(call) => call.m.is_placeable(red_enable),
            Action::AGARI(agari) => agari.is_scored(),
            _ => true,
        }
    }

    /// The round start that the action is, if it is one.
    pub fn as_init(&self) -> (init: Option<&ActionINIT>)
        ensures
            init == match self {
                Action::INIT(init) => Some(init),
                _ => None,
            },
            init is Some <==> self@ is INIT,
            init matches Some(found) ==> self@ == ActionView::INIT(found@),
    {
        match self {
            Action::INIT(init) => Some(init),
            _ => None,
        }
    }

    /// Whether the action starts a round.
    pub fn is_init(&self) -> (yes: bool)
        ensures
            yes == (self@ is INIT),
    {
        match self {
            Action::INIT(_) => true,
            _ => false,
        }
    }

    /// Whether the action is a win.
    pub fn is_agari(&self) -> (yes: bool)
        ensures
            yes == (self@ is AGARI),
    {
        match self {
            Action::AGARI(_) => true,
            _ => false,
        }
    }

    /// Whether the action is a draw.
    pub fn is_ryuukyoku(&self) -> (yes: bool)
        ensures
            yes == (self@ is RYUUKYOKU),
    {
        match self {
            Action::RYUUKYOKU(_) => true,
            _ => false,
        }
    }

    /// Whether the action sets the table up.
    pub fn is_go(&self) -> (yes: bool)
        ensures
            yes == (self@ is GO),
    {
        match self {
            Action::GO(_) => true,
            _ => false,
        }
    }

    /// Whether the action is the player roster.
    pub fn is_un1(&self) -> (yes: bool)
        ensures
            yes == (self@ is UN1),
    {
        match self {
            Action::UN1(_) => true,
            _ => false,
        }
    }
}

/// Whether every action of `actions` is well formed.
pub open spec fn all_well_formed(actions: Seq<ActionView>, red_enabled: bool) -> bool {
    forall|i: int| 0 <= i < actions.len() ==> (#[trigger] actions[i]).well_formed(red_enabled)
}

/// The first table-setup action of `actions`. Its ruleset is the ruleset of
/// the match.
pub open spec fn first_go(actions: Seq<ActionView>) -> Option<ActionGO>
    decreases actions.len(),
{
    if actions.len() == 0 {
        None
    } else {
        match actions.first() {
            ActionView::GO(go) => Some(go),
            _ => first_go(actions.drop_first()),
        }
    }
}

/// Finds the first table-setup action of a log.
pub fn find_go(actions: &[Action]) -> (found: Option<&ActionGO>)
    ensures
        found is Some <==> first_go(views(actions@)) is Some,
        found matches Some(go) ==> first_go(views(actions@)) == Some(*go),
{
    let ghost log = views(actions@);
    let mut i: usize = 0;
    proof {
        assert(log.skip(0) =~= log);
    }
    while i < actions.len()
        invariant
            0 <= i <= actions@.len(),
            log == views(actions@),
            first_go(log) == first_go(log.skip(i as int)),
        decreases actions@.len() - i,
    {
        proof {
            assert(log.skip(i as int).drop_first() =~= log.skip(i + 1));
        }
        match &actions[i] {
            Action::GO(go) => {
                return Some(go);
            },
            _ => {},
        }
        i += 1;
    }
    None
}

impl MjlogView {
    /// Whether the log is one that a match can leave: every action of it is
    /// well formed for a match with or without red fives, as its table setup
    /// says. Of a log without table setup, which is not converted, nothing is
    /// asked.
    pub open spec fn well_formed(self) -> bool {
        match first_go(self.actions) {
            Some(go) => all_well_formed(self.actions, go.settings.red_enabled()),
            None => true,
        }
    }
}

impl Mjlog {
    /// Whether the log is one that a match can leave.
    pub fn is_well_formed(&self) -> (yes: bool)
        ensures
            yes == self@.well_formed(),
    {
        let red_enable = match find_go(self.actions.as_slice()) {
            Some(go) => !go.settings.no_red,
            None => {
                return true;
            },
        };
        let mut i: usize = 0;
        while i < self.actions.len()
            invariant
                0 <= i <= self.actions@.len(),
                first_go(self@.actions) is Some,
                red_enable == first_go(self@.actions).unwrap().settings.red_enabled(),
                forall|k: int|
                    0 <= k < i ==> (#[trigger] self@.actions[k]).well_formed(red_enable),
            decreases self.actions@.len() - i,
        {
            assert(self@.actions[i as int] == self.actions@[i as int]@);
            if !self.actions[i].is_well_formed(red_enable) {
                return false;
            }
            i += 1;
        }
        true
    }
}

} // verus!
