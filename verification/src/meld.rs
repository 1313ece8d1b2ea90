//! Calls as they lie on the table. The log lists the raw tiles of a call in
//! ascending order; on the table the called tile lies on the side it came
//! from, and a red five has its own place.

use crate::error::{ConvError, ConvResult};
use crate::mjlog::{Direction, Meld};
use crate::tenhou::{IncomingTile, OutgoingTile};
use crate::tile::{conv_hai_to_tile, decode_tile, is_red_instance, Hai, Tile};
use vstd::prelude::*;

verus! {

/// Where a call lies on the table: with what the caller took in, or with
/// what the caller gave out.
#[derive(Clone, Copy, Debug, PartialEq, Eq)]
pub enum MeldPlacement {
    Incoming(IncomingTile),
    Outgoing(OutgoingTile),
}

/// The face of `hai` in a match with or without red fives. Meaningful for
/// codes below 136.
pub open spec fn face(hai: Hai, red_enabled: bool) -> Tile {
    decode_tile(hai.0, red_enabled).unwrap()
}

/// Whether `hai` has a face.
pub open spec fn has_face(hai: Hai) -> bool {
    hai.0 < 136
}

/// A direction of the log as a direction of the rebuilt match.
pub open spec fn direction_of(d: Direction) -> crate::tenhou::Direction {
    match d {
        Direction::SelfSeat => crate::tenhou::Direction::SelfSeat,
        Direction::Shimocha => crate::tenhou::Direction::Shimocha,
        Direction::Toimen => crate::tenhou::Direction::Toimen,
        Direction::Kamicha => crate::tenhou::Direction::Kamicha,
    }
}

/// A sequence's tiles as they lie on the table: the called tile first, the
/// two others behind it in ascending order.
pub open spec fn chii_order(combination: (Hai, Hai, Hai), called_position: u8) -> (Hai, Hai, Hai) {
    if called_position == 1 {
        (combination.1, combination.0, combination.2)
    } else if called_position == 2 {
        (combination.2, combination.0, combination.1)
    } else {
        combination
    }
}

/// A triplet of fives as it lies on the table. `called` is the face of the
/// called tile and `spare_is_red` says whether the red five is the face's
/// fourth tile, which is not in the triplet. Without red fives in the match,
/// or with the red five outside the triplet, the triplet is plain. A red
/// called tile lies on the side it came from: first from the left, in the
/// middle from across, last from the right. Otherwise a tile from the hand
/// is the red one: the last, or the middle one where the called tile, from
/// the right, lies last.
pub open spec fn triplet_order(
    dir: crate::tenhou::Direction,
    called: Tile,
    spare_is_red: bool,
    red_enabled: bool,
) -> (Tile, Tile, Tile) {
    let tile = called.as_black();
    if !red_enabled || spare_is_red {
        (tile, tile, tile)
    } else if called.red() {
        match dir {
            crate::tenhou::Direction::Kamicha => (called, tile, tile),
            crate::tenhou::Direction::Toimen => (tile, called, tile),
            _ => (tile, tile, called),
        }
    } else {
        match dir {
            crate::tenhou::Direction::Shimocha => (tile, tile.as_red(), tile),
            _ => (tile, tile, tile.as_red()),
        }
    }
}

/// An open quad of fives as it lies on the table: plain without red fives
/// in the match, else as a triplet, with four places.
pub open spec fn quad_order(dir: crate::tenhou::Direction, called: Tile, red_enabled: bool) -> (
    Tile,
    Tile,
    Tile,
    Tile,
) {
    let tile = called.as_black();
    if !red_enabled {
        (tile, tile, tile, tile)
    } else if called.red() {
        match dir {
            crate::tenhou::Direction::Kamicha => (called, tile, tile, tile),
            crate::tenhou::Direction::Toimen => (tile, called, tile, tile),
            _ => (tile, tile, tile, called),
        }
    } else {
        match dir {
            crate::tenhou::Direction::Shimocha => (tile, tile, tile.as_red(), tile),
            _ => (tile, tile, tile, tile.as_red()),
        }
    }
}

impl Meld {
    /// Whether the call can be laid out in a match with or without red fives:
    /// a sequence names one of its three places, and a red five that was
    /// called came from another seat.
    pub open spec fn placeable(self, red_enabled: bool) -> bool {
        match self {
            Meld::Chii { called_position, .. } => called_position <= 2,
            Meld::Pon { dir, called, unused, .. } => !(red_enabled && is_red_instance(called.0)
                && has_face(unused) && !is_red_instance(unused.0) && dir is SelfSeat),
            Meld::Kakan { dir, called, added, .. } => !(red_enabled && is_red_instance(called.0)
                && has_face(added) && !is_red_instance(added.0) && dir is SelfSeat),
            Meld::Daiminkan { dir, hai } => !(red_enabled && is_red_instance(hai.0)
                && dir is SelfSeat),
            Meld::Ankan { .. } => true,
        }
    }

    /// Whether the call can be laid out.
    pub fn is_placeable(&self, red_enable: bool) -> (yes: bool)
        ensures
            yes == self.placeable(red_enable),
    {
        match self {
            Meld::Chii { called_position, .. } => *called_position <= 2,
            Meld::Pon { dir, called, unused, .. } => !(red_enable && is_red_hai(*called)
                && unused.0 < 136 && !is_red_hai(*unused) && is_self_seat(*dir)),
            Meld::Kakan { dir, called, added, .. } => !(red_enable && is_red_hai(*called)
                && added.0 < 136 && !is_red_hai(*added) && is_self_seat(*dir)),
            Meld::Daiminkan { dir, hai } => !(red_enable && is_red_hai(*hai) && is_self_seat(*dir)),
            Meld::Ankan { .. } => true,
        }
    }
}

fn is_red_hai(hai: Hai) -> (yes: bool)
    ensures
        yes == is_red_instance(hai.0),
{
    hai.0 == crate::tile::RED_FIVE_CHARACTERS || hai.0 == crate::tile::RED_FIVE_DOTS || hai.0
        == crate::tile::RED_FIVE_BAMBOO
}

fn is_self_seat(dir: Direction) -> (yes: bool)
    ensures
        yes == (dir is SelfSeat),
{
    match dir {
        Direction::SelfSeat => true,
        _ => false,
    }
}

/// How `meld` lies on the table, or `None` where one of the tiles it is laid
/// out from has no face.
///
/// - A sequence is taken in, in the order of [`chii_order`].
/// - A triplet is taken in. Of fives it lies as [`triplet_order`] says,
///   judged by the called tile and the face's fourth tile; of any other face
///   it is three times the called tile's face.
/// - A triplet extended to a quad is given out: the triplet as above, judged
///   by the called and the added tile, with the added tile's face; of a face
///   other than five, the called tile's face four times.
/// - An open quad is taken in, of fives as [`quad_order`] says, else four
///   times the called tile's face.
/// - A closed quad is given out as its face, of fives as the red five where
///   the match has red fives.
///
/// Every face is the one the tile has in a match with or without red fives,
/// as `red_enabled` says.
pub open spec fn place_meld(meld: Meld, red_enabled: bool) -> Option<MeldPlacement> {
    match meld {
        Meld::Chii { combination, called_position } => {
            let order = chii_order(combination, called_position);
            if has_face(order.0) && has_face(order.1) && has_face(order.2) {
                Some(
                    MeldPlacement::Incoming(
                        IncomingTile::Chii {
                            combination: (
                                face(order.0, red_enabled),
                                face(order.1, red_enabled),
                                face(order.2, red_enabled),
                            ),
                        },
                    ),
                )
            } else {
                None
            }
        },
        Meld::Pon { dir, called, unused, .. } => {
            if called.five() {
                if has_face(unused) {
                    Some(
                        MeldPlacement::Incoming(
                            IncomingTile::Pon {
                                dir: direction_of(dir),
                                combination: triplet_order(
                                    direction_of(dir),
                                    face(called, red_enabled),
                                    face(unused, red_enabled).red(),
                                    red_enabled,
                                ),
                            },
                        ),
                    )
                } else {
                    None
                }
            } else if has_face(called) {
                Some(
                    MeldPlacement::Incoming(
                        IncomingTile::Pon {
                            dir: direction_of(dir),
                            combination: (
                                face(called, red_enabled),
                                face(called, red_enabled),
                                face(called, red_enabled),
                            ),
                        },
                    ),
                )
            } else {
                None
            }
        },
        Meld::Kakan { dir, called, added, .. } => {
            if called.five() {
                if has_face(added) {
                    Some(
                        MeldPlacement::Outgoing(
                            OutgoingTile::Kakan {
                                dir: direction_of(dir),
                                combination: triplet_order(
                                    direction_of(dir),
                                    face(called, red_enabled),
                                    face(added, red_enabled).red(),
                                    red_enabled,
                                ),
                                added: face(added, red_enabled),
                            },
                        ),
                    )
                } else {
                    None
                }
            } else if has_face(called) {
                Some(
                    MeldPlacement::Outgoing(
                        OutgoingTile::Kakan {
                            dir: direction_of(dir),
                            combination: (
                                face(called, red_enabled),
                                face(called, red_enabled),
                                face(called, red_enabled),
                            ),
                            added: face(called, red_enabled),
                        },
                    ),
                )
            } else {
                None
            }
        },
        Meld::Daiminkan { dir, hai } => {
            if hai.five() {
                Some(
                    MeldPlacement::Incoming(
                        IncomingTile::Daiminkan {
                            dir: direction_of(dir),
                            combination: quad_order(
                                direction_of(dir),
                                face(hai, red_enabled),
                                red_enabled,
                            ),
                        },
                    ),
                )
            } else if has_face(hai) {
                Some(
                    MeldPlacement::Incoming(
                        IncomingTile::Daiminkan {
                            dir: direction_of(dir),
                            combination: (
                                face(hai, red_enabled),
                                face(hai, red_enabled),
                                face(hai, red_enabled),
                                face(hai, red_enabled),
                            ),
                        },
                    ),
                )
            } else {
                None
            }
        },
        Meld::Ankan { hai } => {
            if has_face(hai) {
                Some(
                    MeldPlacement::Outgoing(
                        OutgoingTile::Ankan(
                            if red_enabled {
                                face(hai, red_enabled).as_red()
                            } else {
                                face(hai, red_enabled)
                            },
                        ),
                    ),
                )
            } else {
                None
            }
        },
    }
}

impl MeldPlacement {
    /// Whether every tile of the call is a face.
    pub open spec fn valid(self) -> bool {
        match self {
            MeldPlacement::Incoming(tile) => tile.valid(),
            MeldPlacement::Outgoing(tile) => tile.valid(),
        }
    }

    /// Whether no tile of the call is a red five.
    pub open spec fn plain(self) -> bool {
        match self {
            MeldPlacement::Incoming(tile) => tile.plain(),
            MeldPlacement::Outgoing(tile) => tile.plain(),
        }
    }
}

/// A call is laid out in faces, and without red fives in the match in plain
/// faces.
pub proof fn lemma_place_meld_valid(meld: Meld, red_enabled: bool)
    ensures
        place_meld(meld, red_enabled) matches Some(placement) ==> placement.valid() && (
        !red_enabled ==> placement.plain()),
{
    match meld {
        Meld::Chii { combination, called_position } => {
            let order = chii_order(combination, called_position);
            crate::tile::lemma_decode_tile(order.0.0, red_enabled);
            crate::tile::lemma_decode_tile(order.1.0, red_enabled);
            crate::tile::lemma_decode_tile(order.2.0, red_enabled);
        },
        Meld::Pon { called, unused, .. } => {
            crate::tile::lemma_decode_tile(called.0, red_enabled);
            crate::tile::lemma_decode_tile(unused.0, red_enabled);
        },
        Meld::Kakan { called, added, .. } => {
            crate::tile::lemma_decode_tile(called.0, red_enabled);
            crate::tile::lemma_decode_tile(added.0, red_enabled);
        },
        Meld::Daiminkan { hai, .. } => {
            crate::tile::lemma_decode_tile(hai.0, red_enabled);
        },
        Meld::Ankan { hai } => {
            crate::tile::lemma_decode_tile(hai.0, red_enabled);
        },
    }
}

/// Converts a direction.
pub fn conv_dir(d: Direction) -> (dir: crate::tenhou::Direction)
    ensures
        dir == direction_of(d),
{
    match d {
        Direction::SelfSeat => crate::tenhou::Direction::SelfSeat,
        Direction::Shimocha => crate::tenhou::Direction::Shimocha,
        Direction::Kamicha => crate::tenhou::Direction::Kamicha,
        Direction::Toimen => crate::tenhou::Direction::Toimen,
    }
}

/// Lays a triplet of fives out.
fn order_triplet(
    dir: crate::tenhou::Direction,
    called_tile: Tile,
    spare_tile: Tile,
    red_enable: bool,
) -> (combination: (Tile, Tile, Tile))
    requires
        !(red_enable && called_tile.red() && !spare_tile.red() && dir is SelfSeat),
    ensures
        combination == triplet_order(dir, called_tile, spare_tile.red(), red_enable),
{
    let tile = called_tile.to_black();
    if !red_enable || spare_tile.is_red() {
        (tile, tile, tile)
    } else if called_tile.is_red() {
        match dir {
            crate::tenhou::Direction::Kamicha => (called_tile, tile, tile),
            crate::tenhou::Direction::Toimen => (tile, called_tile, tile),
            _ => (tile, tile, called_tile),
        }
    } else {
        match dir {
            crate::tenhou::Direction::Shimocha => (tile, tile.to_red(), tile),
            _ => (tile, tile, tile.to_red()),
        }
    }
}

/// Rebuilds from a call's raw tiles, which the log lists in ascending order,
/// how the call lies on the table in a match with or without red fives.
pub fn reorder_call_geometry(meld: &Meld, red_enable: bool) -> (result: ConvResult<MeldPlacement>)
    requires
        meld.placeable(red_enable),
    ensures
        result == match place_meld(*meld, red_enable) {
            Some(placement) => Ok::<MeldPlacement, ConvError>(placement),
            None => Err::<MeldPlacement, ConvError>(ConvError::InvalidTileFormat),
        },
        result matches Ok(placement) ==> placement.valid() && (!red_enable ==> placement.plain()),
{
    proof {
        lemma_place_meld_valid(*meld, red_enable);
    }
    match meld {
        Meld::Chii { combination, called_position } => {
            let orders = if *called_position == 1 {
                (combination.1, combination.0, combination.2)
            } else if *called_position == 2 {
                (combination.2, combination.0, combination.1)
            } else {
                *combination
            };
            let first = conv_hai_to_tile(orders.0, red_enable)?;
            let second = conv_hai_to_tile(orders.1, red_enable)?;
            let third = conv_hai_to_tile(orders.2, red_enable)?;
            Ok(MeldPlacement::Incoming(IncomingTile::Chii { combination: (first, second, third) }))
        },
        Meld::Pon { dir: src_dir, called, unused, .. } => {
            let dir = conv_dir(*src_dir);
            if called.is_number5() {
                let called_tile = conv_hai_to_tile(*called, red_enable)?;
                let unused_tile = conv_hai_to_tile(*unused, red_enable)?;
                let combination = order_triplet(dir, called_tile, unused_tile, red_enable);
                Ok(MeldPlacement::Incoming(IncomingTile::Pon { dir, combination }))
            } else {
                let tile = conv_hai_to_tile(*called, red_enable)?;
                Ok(MeldPlacement::Incoming(IncomingTile::Pon { dir, combination: (tile, tile, tile) }))
            }
        },
        Meld::Kakan { dir: src_dir, called, added, .. } => {
            let dir = conv_dir(*src_dir);
            if called.is_number5() {
                let called_tile = conv_hai_to_tile(*called, red_enable)?;
                let added_tile = conv_hai_to_tile(*added, red_enable)?;
                let combination = order_triplet(dir, called_tile, added_tile, red_enable);
                Ok(
                    MeldPlacement::Outgoing(
                        OutgoingTile::Kakan { dir, combination, added: added_tile },
                    ),
                )
            } else {
                let tile = conv_hai_to_tile(*called, red_enable)?;
                Ok(
                    MeldPlacement::Outgoing(
                        OutgoingTile::Kakan { dir, combination: (tile, tile, tile), added: tile },
                    ),
                )
            }
        },
        Meld::Daiminkan { dir: src_dir, hai } => {
            let dir = conv_dir(*src_dir);
            if hai.is_number5() {
                let called_tile = conv_hai_to_tile(*hai, red_enable)?;
                let tile = called_tile.to_black();
                let combination = if !red_enable {
                    (tile, tile, tile, tile)
                } else if called_tile.is_red() {
                    match dir {
                        crate::tenhou::Direction::Kamicha => (called_tile, tile, tile, tile),
                        crate::tenhou::Direction::Toimen => (tile, called_tile, tile, tile),
                        _ => (tile, tile, tile, called_tile),
                    }
                } else {
                    match dir {
                        crate::tenhou::Direction::Shimocha => (tile, tile, tile.to_red(), tile),
                        _ => (tile, tile, tile, tile.to_red()),
                    }
                };
                Ok(MeldPlacement::Incoming(IncomingTile::Daiminkan { dir, combination }))
            } else {
                let tile = conv_hai_to_tile(*hai, red_enable)?;
                Ok(
                    MeldPlacement::Incoming(
                        IncomingTile::Daiminkan { dir, combination: (tile, tile, tile, tile) },
                    ),
                )
            }
        },
        Meld::Ankan { hai } => {
            let tile = conv_hai_to_tile(*hai, red_enable)?;
            if red_enable {
                // A closed quad of fives is taken to hold the red five.
                Ok(MeldPlacement::Outgoing(OutgoingTile::Ankan(tile.to_red())))
            } else {
                Ok(MeldPlacement::Outgoing(OutgoingTile::Ankan(tile)))
            }
        },
    }
}

} // verus!
