//! Hands: decoding a list of raw tiles, and the order in which a hand is
//! displayed.

use crate::error::{agrees, ConvError, ConvResult};
use crate::meld::{face, has_face};
use crate::tenhou::{all_plain, all_valid};
use crate::tile::{conv_hai_to_tile, Hai, Tile};
use vstd::prelude::*;

verus! {

/// The faces of `hais`, or the failure where one of them has none.
pub open spec fn decode_all(hais: Seq<Hai>, red_enabled: bool) -> Result<Seq<Tile>, ConvError> {
    if forall|i: int| 0 <= i < hais.len() ==> has_face(#[trigger] hais[i]) {
        Ok(hais.map_values(|hai: Hai| face(hai, red_enabled)))
    } else {
        Err(ConvError::InvalidTileFormat)
    }
}

/// Where a face stands in a displayed hand: faces in the order of their
/// codes, each red five directly behind the plain five of its suit.
pub open spec fn hand_order(tile: Tile) -> nat {
    if tile.0 == 51 {
        151
    } else if tile.0 == 52 {
        251
    } else if tile.0 == 53 {
        351
    } else {
        (tile.0 * 10) as nat
    }
}

/// Whether `hand` is in display order.
pub open spec fn in_hand_order(hand: Seq<Tile>) -> bool {
    forall|i: int, j: int| 0 <= i <= j < hand.len() ==> hand_order(hand[i]) <= hand_order(hand[j])
}

/// `sorted` with `tile` put behind the last face that does not come after
/// it.
pub open spec fn insert_in_hand_order(sorted: Seq<Tile>, tile: Tile) -> Seq<Tile>
    decreases sorted.len(),
{
    if sorted.len() == 0 {
        seq![tile]
    } else if hand_order(sorted.last()) <= hand_order(tile) {
        sorted.push(tile)
    } else {
        insert_in_hand_order(sorted.drop_last(), tile).push(sorted.last())
    }
}

/// `hand` in display order.
pub open spec fn display_sorted(hand: Seq<Tile>) -> Seq<Tile>
    decreases hand.len(),
{
    if hand.len() == 0 {
        Seq::empty()
    } else {
        insert_in_hand_order(display_sorted(hand.drop_last()), hand.last())
    }
}

/// No two faces stand at the same place of the display order.
pub proof fn lemma_hand_order_injective(a: Tile, b: Tile)
    requires
        hand_order(a) == hand_order(b),
    ensures
        a == b,
{
}

proof fn lemma_insert_at(sorted: Seq<Tile>, tile: Tile, j: int)
    requires
        0 <= j <= sorted.len(),
        forall|k: int| j <= k < sorted.len() ==> hand_order(sorted[k]) > hand_order(tile),
        j == 0 || hand_order(sorted[j - 1]) <= hand_order(tile),
    ensures
        insert_in_hand_order(sorted, tile) == sorted.insert(j, tile),
    decreases sorted.len(),
{
    if sorted.len() == 0 {
        assert(seq![tile] =~= sorted.insert(j, tile));
    } else if hand_order(sorted.last()) <= hand_order(tile) {
        assert(j == sorted.len());
        assert(sorted.push(tile) =~= sorted.insert(j, tile));
    } else {
        assert(j < sorted.len());
        lemma_insert_at(sorted.drop_last(), tile, j);
        assert(sorted.drop_last().insert(j, tile).push(sorted.last()) =~= sorted.insert(j, tile));
    }
}

proof fn lemma_insert_in_hand_order(sorted: Seq<Tile>, tile: Tile)
    requires
        in_hand_order(sorted),
    ensures
        in_hand_order(insert_in_hand_order(sorted, tile)),
        insert_in_hand_order(sorted, tile).to_multiset() == sorted.to_multiset().insert(tile),
        insert_in_hand_order(sorted, tile).len() == sorted.len() + 1,
    decreases sorted.len(),
{
    broadcast use vstd::seq_lib::group_to_multiset_ensures;

    if sorted.len() == 0 {
    } else if hand_order(sorted.last()) <= hand_order(tile) {
    } else {
        let shorter = sorted.drop_last();
        lemma_insert_in_hand_order(shorter, tile);
        let inserted = insert_in_hand_order(shorter, tile);
        assert(sorted =~= shorter.push(sorted.last()));
        assert(inserted.push(sorted.last()).to_multiset() =~= sorted.to_multiset().insert(tile));
        let whole = inserted.push(sorted.last());
        assert forall|i: int, j: int| 0 <= i <= j < whole.len() implies hand_order(whole[i])
            <= hand_order(whole[j]) by {
            if j == whole.len() - 1 && i < j {
                // Every face of `inserted` is `tile` or a face of `shorter`.
                assert(inserted.to_multiset().count(whole[i]) > 0) by {
                    assert(inserted.contains(whole[i]));
                }
                if whole[i] != tile {
                    assert(shorter.to_multiset().count(whole[i]) > 0);
                    assert(shorter.contains(whole[i]));
                    let k = choose|k: int| 0 <= k < shorter.len() && shorter[k] == whole[i];
                    assert(hand_order(sorted[k]) <= hand_order(sorted[sorted.len() - 1]));
                }
            }
        }
    }
}

/// A hand in display order holds the faces it held before, each as often,
/// with no face before one that the order puts ahead of it.
pub proof fn lemma_display_sorted(hand: Seq<Tile>)
    ensures
        in_hand_order(display_sorted(hand)),
        display_sorted(hand).to_multiset() == hand.to_multiset(),
        display_sorted(hand).len() == hand.len(),
    decreases hand.len(),
{
    broadcast use vstd::seq_lib::group_to_multiset_ensures;

    if hand.len() > 0 {
        lemma_display_sorted(hand.drop_last());
        lemma_insert_in_hand_order(display_sorted(hand.drop_last()), hand.last());
        assert(hand =~= hand.drop_last().push(hand.last()));
    } else {
        assert(hand =~= Seq::<Tile>::empty());
    }
}

/// Decoded tiles are faces, and without red fives in the match plain ones.
pub proof fn lemma_decode_all_valid(hais: Seq<Hai>, red_enabled: bool)
    ensures
        decode_all(hais, red_enabled) matches Ok(tiles) ==> all_valid(tiles) && tiles.len()
            == hais.len() && (!red_enabled ==> all_plain(tiles)),
        decode_all(hais, red_enabled) matches Err(e) ==> e == ConvError::InvalidTileFormat,
{
    if decode_all(hais, red_enabled) is Ok {
        let tiles = decode_all(hais, red_enabled).unwrap();
        assert forall|i: int| 0 <= i < tiles.len() implies (#[trigger] tiles[i]).valid() && (
        !red_enabled ==> !tiles[i].red()) by {
            assert(has_face(hais[i]));
            crate::tile::lemma_decode_tile(hais[i].0, red_enabled);
        }
    }
}

/// A hand in display order holds no tile that it did not hold before.
pub proof fn lemma_display_sorted_holds(hand: Seq<Tile>, i: int)
    requires
        0 <= i < display_sorted(hand).len(),
    ensures
        exists|k: int| 0 <= k < hand.len() && #[trigger] hand[k] == display_sorted(hand)[i],
{
    broadcast use vstd::seq_lib::group_to_multiset_ensures;

    lemma_display_sorted(hand);
    let sorted = display_sorted(hand);
    assert(sorted.contains(sorted[i]));
    assert(hand.to_multiset().count(sorted[i]) > 0);
    assert(hand.contains(sorted[i]));
}

/// A hand of faces is a hand of faces in display order, and a plain hand a
/// plain one.
pub proof fn lemma_display_sorted_valid(hand: Seq<Tile>)
    ensures
        all_valid(hand) ==> all_valid(display_sorted(hand)),
        all_plain(hand) ==> all_plain(display_sorted(hand)),
{
    let sorted = display_sorted(hand);
    assert forall|i: int| 0 <= i < sorted.len() implies (all_valid(hand) ==> (
    #[trigger] sorted[i]).valid()) && (all_plain(hand) ==> !sorted[i].red()) by {
        lemma_display_sorted_holds(hand, i);
        let k = choose|k: int| 0 <= k < hand.len() && #[trigger] hand[k] == sorted[i];
        assert(hand[k] == sorted[i]);
    }
}

/// Display order leaves no choice: two hands in display order that hold the
/// same faces, each as often, are one hand.
pub proof fn lemma_hand_order_unique(a: Seq<Tile>, b: Seq<Tile>)
    requires
        in_hand_order(a),
        in_hand_order(b),
        a.to_multiset() == b.to_multiset(),
    ensures
        a == b,
    decreases a.len(),
{
    broadcast use vstd::seq_lib::group_to_multiset_ensures;
    broadcast use vstd::multiset::group_multiset_axioms;

    assert(a.len() == b.len()) by {
        assert(a.to_multiset().len() == a.len());
        assert(b.to_multiset().len() == b.len());
    }
    if a.len() == 0 {
        assert(a =~= b);
    } else {
        let x = a.last();
        let y = b.last();
        assert(hand_order(x) <= hand_order(y)) by {
            assert(a.contains(x));
            assert(b.to_multiset().count(x) > 0);
            assert(b.contains(x));
            let k = choose|k: int| 0 <= k < b.len() && b[k] == x;
            assert(hand_order(b[k]) <= hand_order(b[b.len() - 1]));
        }
        assert(hand_order(y) <= hand_order(x)) by {
            assert(b.contains(y));
            assert(a.to_multiset().count(y) > 0);
            assert(a.contains(y));
            let k = choose|k: int| 0 <= k < a.len() && a[k] == y;
            assert(hand_order(a[k]) <= hand_order(a[a.len() - 1]));
        }
        lemma_hand_order_injective(x, y);
        assert(a =~= a.drop_last().push(x));
        assert(b =~= b.drop_last().push(y));
        assert(a.drop_last().to_multiset() =~= a.to_multiset().remove(x));
        assert(b.drop_last().to_multiset() =~= b.to_multiset().remove(y));
        lemma_hand_order_unique(a.drop_last(), b.drop_last());
    }
}

/// Decodes a list of raw tiles of a match with or without red fives.
pub fn conv_tiles(xs: &[Hai], red_enable: bool) -> (result: ConvResult<Vec<Tile>>)
    ensures
        agrees(result, decode_all(xs@, red_enable)),
        result matches Ok(tiles) ==> all_valid(tiles@) && (!red_enable ==> all_plain(tiles@)),
        result matches Err(e) ==> e == ConvError::InvalidTileFormat,
{
    proof {
        lemma_decode_all_valid(xs@, red_enable);
    }
    let mut tiles: Vec<Tile> = Vec::new();
    let mut i: usize = 0;
    while i < xs.len()
        invariant
            0 <= i <= xs@.len(),
            forall|k: int| 0 <= k < i ==> has_face(#[trigger] xs@[k]),
            tiles@ == xs@.take(i as int).map_values(|hai: Hai| face(hai, red_enable)),
        decreases xs@.len() - i,
    {
        let tile = conv_hai_to_tile(xs[i], red_enable)?;
        tiles.push(tile);
        i += 1;
        proof {
            assert(tiles@ =~= xs@.take(i as int).map_values(|hai: Hai| face(hai, red_enable)));
        }
    }
    proof {
        assert(xs@.take(i as int) =~= xs@);
    }
    Ok(tiles)
}

/// The place of a face in a displayed hand.
pub fn get_initial_hand_order(t: &Tile) -> (order: u32)
    ensures
        order == hand_order(*t),
{
    let code: u8 = t.to_u8();
    if code == 51 {
        151
    } else if code == 52 {
        251
    } else if code == 53 {
        351
    } else {
        (code as u32) * 10
    }
}

/// Puts a hand in display order.
pub fn sort_hand(hand: &Vec<Tile>) -> (sorted: Vec<Tile>)
    ensures
        sorted@ == display_sorted(hand@),
        in_hand_order(sorted@),
        sorted@.to_multiset() == hand@.to_multiset(),
        all_valid(hand@) ==> all_valid(sorted@),
        all_plain(hand@) ==> all_plain(sorted@),
{
    proof {
        lemma_display_sorted_valid(hand@);
    }
    let mut sorted: Vec<Tile> = Vec::new();
    let mut i: usize = 0;
    while i < hand.len()
        invariant
            0 <= i <= hand@.len(),
            sorted@ == display_sorted(hand@.take(i as int)),
        decreases hand@.len() - i,
    {
        let tile = hand[i];
        let order = get_initial_hand_order(&tile);
        let mut j: usize = sorted.len();
        while j > 0 && get_initial_hand_order(&sorted[j - 1]) > order
            invariant
                0 <= j <= sorted@.len(),
                order == hand_order(tile),
                forall|k: int| j <= k < sorted@.len() ==> hand_order(sorted@[k]) > hand_order(tile),
            decreases j,
        {
            j -= 1;
        }
        proof {
            lemma_insert_at(sorted@, tile, j as int);
            assert(hand@.take(i + 1).drop_last() =~= hand@.take(i as int));
        }
        sorted.insert(j, tile);
        i += 1;
    }
    proof {
        assert(hand@.take(i as int) =~= hand@);
        lemma_display_sorted(hand@);
    }
    sorted
}

} // verus!
