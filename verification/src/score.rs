//! The score tables: what a hand pays by its fu and han, or by the limits it
//! stacks, to a dealer or another seat, on a drawn or a discarded tile.

use vstd::arithmetic::power2::{lemma2_to64, pow2};
use vstd::prelude::*;

verus! {

/// The four score tables: who won (the dealer, `Oya`, or another seat, `Ko`)
/// and how (by drawing the tile, `Tsumo`, or on another seat's tile, `Ron`).
#[derive(Clone, Copy, Debug, PartialEq, Eq, Structural)]
pub enum ScoreTable {
    OyaTsumo,
    KoTsumo,
    OyaRon,
    KoRon,
}

/// The rank of a hand: below the limits by its fu and han, or one of the
/// limits. `Yakuman` counts the limits that a limit hand stacks.
#[derive(Clone, Copy, Debug, PartialEq, Eq, Structural)]
pub enum ScoreRank {
    Normal { fu: u8, han: u8 },
    Mangan,
    Haneman,
    Baiman,
    Sanbaiman,
    KazoeYakuman,
    Yakuman { multiple: u8 },
}

/// What the winner is paid, by table: by each other seat (`OyaTsumo`), by
/// each other non-dealer and by the dealer (`KoTsumo`), or by the seat that
/// gave the tile.
#[derive(Clone, Copy, Debug, PartialEq, Eq, Structural)]
pub enum Payment {
    OyaTsumo { all: u32 },
    KoTsumo { ko: u32, oya: u32 },
    OyaRon { points: u32 },
    KoRon { points: u32 },
}

/// A hand's rank and what it pays.
#[derive(Clone, Copy, Debug, PartialEq, Eq, Structural)]
pub struct RankedScore {
    pub rank: ScoreRank,
    pub payment: Payment,
}

/// The table for a win.
pub open spec fn table_for(tsumo: bool, dealer: bool) -> ScoreTable {
    if tsumo {
        if dealer {
            ScoreTable::OyaTsumo
        } else {
            ScoreTable::KoTsumo
        }
    } else {
        if dealer {
            ScoreTable::OyaRon
        } else {
            ScoreTable::KoRon
        }
    }
}

/// `x` rounded up to the next hundred.
pub open spec fn round_up_100(x: int) -> int {
    ((x + 99) / 100) * 100
}

/// The rank of an ordinary hand: the limits by han, mangan also where the
/// basic points `fu * 2^(han + 2)` reach 2000.
pub open spec fn rank_of(fu: u8, han: nat) -> ScoreRank {
    if han >= 13 {
        ScoreRank::KazoeYakuman
    } else if han >= 11 {
        ScoreRank::Sanbaiman
    } else if han >= 8 {
        ScoreRank::Baiman
    } else if han >= 6 {
        ScoreRank::Haneman
    } else if han >= 5 || fu * pow2(han + 2) >= 2000 {
        ScoreRank::Mangan
    } else {
        ScoreRank::Normal { fu, han: han as u8 }
    }
}

/// The basic points of a rank.
pub open spec fn basic_points(rank: ScoreRank) -> int {
    match rank {
        ScoreRank::Normal { fu, han } => fu * pow2((han + 2) as nat),
        ScoreRank::Mangan => 2000,
        ScoreRank::Haneman => 3000,
        ScoreRank::Baiman => 4000,
        ScoreRank::Sanbaiman => 6000,
        ScoreRank::KazoeYakuman => 8000,
        ScoreRank::Yakuman { multiple } => 8000 * multiple,
    }
}

/// What a table pays on the basic points `basic`: a non-dealer pays them
/// once and a dealer twice where the tile was drawn; the seat that gave the
/// tile pays four times to a non-dealer and six times to the dealer; each
/// payment is rounded up to the hundred.
pub open spec fn payment_for(table: ScoreTable, basic: int) -> Payment {
    match table {
        ScoreTable::OyaTsumo => Payment::OyaTsumo { all: round_up_100(2 * basic) as u32 },
        ScoreTable::KoTsumo => Payment::KoTsumo {
            ko: round_up_100(basic) as u32,
            oya: round_up_100(2 * basic) as u32,
        },
        ScoreTable::OyaRon => Payment::OyaRon { points: round_up_100(6 * basic) as u32 },
        ScoreTable::KoRon => Payment::KoRon { points: round_up_100(4 * basic) as u32 },
    }
}

/// The entry of `table` for an ordinary hand.
pub open spec fn normal_score(table: ScoreTable, fu: u8, han: nat) -> RankedScore {
    let rank = rank_of(fu, han);
    RankedScore { rank, payment: payment_for(table, basic_points(rank)) }
}

/// The entry of `table` for a limit hand of `multiple` limits.
pub open spec fn yakuman_score(table: ScoreTable, multiple: u8) -> RankedScore {
    let rank = ScoreRank::Yakuman { multiple };
    RankedScore { rank, payment: payment_for(table, basic_points(rank)) }
}

impl Payment {
    /// The table that the payment was read from.
    pub open spec fn table(self) -> ScoreTable {
        match self {
            Payment::OyaTsumo { .. } => ScoreTable::OyaTsumo,
            Payment::KoTsumo { .. } => ScoreTable::KoTsumo,
            Payment::OyaRon { .. } => ScoreTable::OyaRon,
            Payment::KoRon { .. } => ScoreTable::KoRon,
        }
    }

    /// What the winner receives in all.
    pub open spec fn total(self) -> int {
        match self {
            Payment::OyaTsumo { all } => 3 * all,
            Payment::KoTsumo { ko, oya } => 2 * ko + oya,
            Payment::OyaRon { points } => points as int,
            Payment::KoRon { points } => points as int,
        }
    }
}

/// An entry names the table it stands in, and the tables of the dealer
/// differ from those of the other seats.
pub proof fn lemma_score_names_table(tsumo: bool, dealer: bool, fu: u8, han: nat, multiple: u8)
    ensures
        normal_score(table_for(tsumo, dealer), fu, han).payment.table() == table_for(tsumo, dealer),
        yakuman_score(table_for(tsumo, dealer), multiple).payment.table() == table_for(
            tsumo,
            dealer,
        ),
        table_for(tsumo, true) != table_for(tsumo, false),
{
}

/// For one hand the dealer's table never pays less than the table of
/// another seat, and it pays more wherever the hand has 100 basic points or
/// more, as every hand of 20 fu and 1 han or more has.
pub proof fn lemma_dealer_is_paid_more(tsumo: bool, fu: u8, han: nat)
    ensures
        normal_score(table_for(tsumo, true), fu, han).rank == normal_score(
            table_for(tsumo, false),
            fu,
            han,
        ).rank,
        normal_score(table_for(tsumo, true), fu, han).payment.total() >= normal_score(
            table_for(tsumo, false),
            fu,
            han,
        ).payment.total(),
        basic_points(rank_of(fu, han)) >= 100 ==> normal_score(
            table_for(tsumo, true),
            fu,
            han,
        ).payment.total() > normal_score(table_for(tsumo, false), fu, han).payment.total(),
        fu >= 20 && han >= 1 ==> basic_points(rank_of(fu, han)) >= 100,
{
    lemma2_to64();
    let basic = basic_points(rank_of(fu, han));
    if han <= 4 {
        assert(pow2(han + 2) == 4 || pow2(han + 2) == 8 || pow2(han + 2) == 16 || pow2(han + 2)
            == 32 || pow2(han + 2) == 64);
    }
    assert(0 <= basic <= 8000);
}

/// For one limit hand the dealer's table pays more than the table of
/// another seat.
pub proof fn lemma_dealer_is_paid_more_yakuman(tsumo: bool, multiple: u8)
    requires
        multiple >= 1,
    ensures
        yakuman_score(table_for(tsumo, true), multiple).payment.total() > yakuman_score(
            table_for(tsumo, false),
            multiple,
        ).payment.total(),
{
}

/// From 13 han on the entry no longer depends on the han.
pub proof fn lemma_normal_score_saturates(table: ScoreTable, fu: u8, han: nat, more: nat)
    requires
        han >= 13,
        more >= 13,
    ensures
        normal_score(table, fu, han) == normal_score(table, fu, more),
{
}

/// Rank and basic points of an ordinary hand.
fn rank_and_basic(fu: u8, han: u8) -> (result: (ScoreRank, u32))
    ensures
        result.0 == rank_of(fu, han as nat),
        result.1 == basic_points(result.0),
        result.1 <= 8000,
{
    proof {
        lemma2_to64();
    }
    if han >= 13 {
        (ScoreRank::KazoeYakuman, 8000)
    } else if han >= 11 {
        (ScoreRank::Sanbaiman, 6000)
    } else if han >= 8 {
        (ScoreRank::Baiman, 4000)
    } else if han >= 6 {
        (ScoreRank::Haneman, 3000)
    } else if han >= 5 {
        (ScoreRank::Mangan, 2000)
    } else {
        let factor: u32 = if han == 0 {
            4
        } else if han == 1 {
            8
        } else if han == 2 {
            16
        } else if han == 3 {
            32
        } else {
            64
        };
        assert(factor == pow2((han + 2) as nat));
        let fu_wide: u32 = fu as u32;
        assert(fu_wide * factor <= 255 * 64) by (nonlinear_arith)
            requires
                fu_wide <= 255,
                factor <= 64,
        ;
        let basic: u32 = fu_wide * factor;
        if basic >= 2000 {
            (ScoreRank::Mangan, 2000)
        } else {
            (ScoreRank::Normal { fu, han }, basic)
        }
    }
}

/// `x` rounded up to the next hundred.
fn ceil_100(x: u32) -> (rounded: u32)
    requires
        x <= 20_000_000,
    ensures
        rounded == round_up_100(x as int),
{
    ((x + 99) / 100) * 100
}

/// The payment of `table` on the basic points `basic`.
fn pay(table: ScoreTable, basic: u32) -> (payment: Payment)
    requires
        basic <= 8000 * 255,
    ensures
        payment == payment_for(table, basic as int),
{
    match table {
        ScoreTable::OyaTsumo => Payment::OyaTsumo { all: ceil_100(2 * basic) },
        ScoreTable::KoTsumo => Payment::KoTsumo { ko: ceil_100(basic), oya: ceil_100(2 * basic) },
        ScoreTable::OyaRon => Payment::OyaRon { points: ceil_100(6 * basic) },
        ScoreTable::KoRon => Payment::KoRon { points: ceil_100(4 * basic) },
    }
}

/// Looks an ordinary hand up in `table`.
pub fn get_normal(table: ScoreTable, fu: u8, han: u8) -> (score: RankedScore)
    ensures
        score == normal_score(table, fu, han as nat),
        score.payment.table() == table,
{
    let (rank, basic) = rank_and_basic(fu, han);
    RankedScore { rank, payment: pay(table, basic) }
}

/// Looks a limit hand of `num` limits up in `table`.
pub fn get_yakuman(table: ScoreTable, num: u8) -> (score: RankedScore)
    ensures
        score == yakuman_score(table, num),
        score.payment.table() == table,
{
    let basic: u32 = 8000 * (num as u32);
    RankedScore { rank: ScoreRank::Yakuman { multiple: num }, payment: pay(table, basic) }
}

/// Looks an ordinary hand up in the table of a dealer who drew the tile.
pub fn get_oya_tsumo(fu: u8, han: u8) -> (score: RankedScore)
    ensures
        score == normal_score(ScoreTable::OyaTsumo, fu, han as nat),
{
    get_normal(ScoreTable::OyaTsumo, fu, han)
}

/// Looks an ordinary hand up in the table of a non-dealer who drew the tile.
pub fn get_ko_tsumo(fu: u8, han: u8) -> (score: RankedScore)
    ensures
        score == normal_score(ScoreTable::KoTsumo, fu, han as nat),
{
    get_normal(ScoreTable::KoTsumo, fu, han)
}

/// Looks an ordinary hand up in the table of a dealer who won on a discard.
pub fn get_oya_ron(fu: u8, han: u8) -> (score: RankedScore)
    ensures
        score == normal_score(ScoreTable::OyaRon, fu, han as nat),
{
    get_normal(ScoreTable::OyaRon, fu, han)
}

/// Looks an ordinary hand up in the table of a non-dealer who won on a
/// discard.
pub fn get_ko_ron(fu: u8, han: u8) -> (score: RankedScore)
    ensures
        score == normal_score(ScoreTable::KoRon, fu, han as nat),
{
    get_normal(ScoreTable::KoRon, fu, han)
}

/// Looks a limit hand up in the table of a dealer who drew the tile.
pub fn get_oya_tsumo_yakuman(num: u8) -> (score: RankedScore)
    ensures
        score == yakuman_score(ScoreTable::OyaTsumo, num),
{
    get_yakuman(ScoreTable::OyaTsumo, num)
}

/// Looks a limit hand up in the table of a non-dealer who drew the tile.
pub fn get_ko_tsumo_yakuman(num: u8) -> (score: RankedScore)
    ensures
        score == yakuman_score(ScoreTable::KoTsumo, num),
{
    get_yakuman(ScoreTable::KoTsumo, num)
}

/// Looks a limit hand up in the table of a dealer who won on a discard.
pub fn get_oya_ron_yakuman(num: u8) -> (score: RankedScore)
    ensures
        score == yakuman_score(ScoreTable::OyaRon, num),
{
    get_yakuman(ScoreTable::OyaRon, num)
}

/// Looks a limit hand up in the table of a non-dealer who won on a discard.
pub fn get_ko_ron_yakuman(num: u8) -> (score: RankedScore)
    ensures
        score == yakuman_score(ScoreTable::KoRon, num),
{
    get_yakuman(ScoreTable::KoRon, num)
}

} // verus!
