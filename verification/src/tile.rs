//! Raw tiles and their faces.

use crate::error::{ConvError, ConvResult};
use vstd::prelude::*;

verus! {

/// A raw instance code: one physical tile of the 136 in the set. Four
/// consecutive codes share one face; the codes run through the numbered suits
/// (characters, dots, bamboo) and then the seven honors.
#[derive(Clone, Copy, Debug, PartialEq, Eq, Structural)]
pub struct Hai(pub u8);

/// A tile face: `11..=19`, `21..=29` and `31..=39` are the ranks 1 to 9 of the
/// three numbered suits, `41..=47` the honors, and `51`, `52`, `53` the red
/// fives of the three suits.
#[derive(Clone, Copy, Debug, PartialEq, Eq, Structural)]
pub struct Tile(pub u8);

/// The red five of characters. This and the next two are the instance codes
/// that are red fives where red fives are in play.
pub const RED_FIVE_CHARACTERS: u8 = 16;

/// The red five of dots.
pub const RED_FIVE_DOTS: u8 = 52;

/// The red five of bamboo.
pub const RED_FIVE_BAMBOO: u8 = 88;

/// Whether `code` is the code of a tile face.
pub open spec fn is_tile_code(code: u8) -> bool {
    ||| 11 <= code <= 19
    ||| 21 <= code <= 29
    ||| 31 <= code <= 39
    ||| 41 <= code <= 47
    ||| 51 <= code <= 53
}

/// Whether `raw` is one of the three instance codes reserved for red fives.
pub open spec fn is_red_instance(raw: u8) -> bool {
    raw == RED_FIVE_CHARACTERS || raw == RED_FIVE_DOTS || raw == RED_FIVE_BAMBOO
}

/// The face of the instance `raw`, if it has one. With `red_enabled` the three
/// reserved instances are red fives; every other instance has the face given
/// by its suit `(raw / 4) / 9` and its rank `(raw / 4) % 9 + 1`, as long as
/// that suit and rank exist.
pub open spec fn decode_tile(raw: u8, red_enabled: bool) -> Option<Tile> {
    if red_enabled && raw == RED_FIVE_CHARACTERS {
        Some(Tile(51))
    } else if red_enabled && raw == RED_FIVE_DOTS {
        Some(Tile(52))
    } else if red_enabled && raw == RED_FIVE_BAMBOO {
        Some(Tile(53))
    } else {
        let suit = (raw / 4) / 9;
        let rank = (raw / 4) % 9 + 1;
        if suit < 3 || (suit == 3 && rank <= 7) {
            Some(Tile(((suit + 1) * 10 + rank) as u8))
        } else {
            None
        }
    }
}

/// The three reserved instances are the three red fives where red fives are
/// in play, and no other instance is a red five; without red fives no instance
/// is one. Every face that an instance has is one of the 37 faces.
pub proof fn lemma_decode_tile(raw: u8, red_enabled: bool)
    ensures
        decode_tile(RED_FIVE_CHARACTERS, true) == Some(Tile(51)),
        decode_tile(RED_FIVE_DOTS, true) == Some(Tile(52)),
        decode_tile(RED_FIVE_BAMBOO, true) == Some(Tile(53)),
        decode_tile(raw, red_enabled) matches Some(tile) ==> tile.valid() && (tile.red()
            <==> red_enabled && is_red_instance(raw)),
        decode_tile(raw, red_enabled) is Some <==> raw < 136,
        decode_tile(raw, false) matches Some(tile) ==> decode_tile(raw, true) == Some(
            if is_red_instance(raw) {
                tile.as_red()
            } else {
                tile
            },
        ),
{
}

impl Hai {
    /// The instance with the code `code`.
    pub fn new(code: u8) -> (hai: Hai)
        ensures
            hai == Hai(code),
    {
        Hai(code)
    }

    /// The code.
    pub fn to_u8(&self) -> (code: u8)
        ensures
            code == self.0,
    {
        self.0
    }

    /// Whether this instance is one of the twelve with rank five in a
    /// numbered suit.
    pub open spec fn five(self) -> bool {
        self.0 / 4 == 4 || self.0 / 4 == 13 || self.0 / 4 == 22
    }

    /// Whether this instance has rank five in a numbered suit.
    pub fn is_number5(&self) -> (yes: bool)
        ensures
            yes == self.five(),
    {
        let order: u8 = self.0 / 4;
        order == 4 || order == 13 || order == 22
    }
}

impl Tile {
    /// Whether this value is one of the 37 tile faces.
    pub open spec fn valid(self) -> bool {
        is_tile_code(self.0)
    }

    /// Whether this face is a red five.
    pub open spec fn red(self) -> bool {
        51 <= self.0 <= 53
    }

    /// The red five of this face's suit if this is a plain five, else this
    /// face.
    pub open spec fn as_red(self) -> Tile {
        if self.0 == 15 {
            Tile(51)
        } else if self.0 == 25 {
            Tile(52)
        } else if self.0 == 35 {
            Tile(53)
        } else {
            self
        }
    }

    /// The plain five of this face's suit if this is a red five, else this
    /// face.
    pub open spec fn as_black(self) -> Tile {
        if self.0 == 51 {
            Tile(15)
        } else if self.0 == 52 {
            Tile(25)
        } else if self.0 == 53 {
            Tile(35)
        } else {
            self
        }
    }

    /// The face with the code `code`, if there is one.
    pub fn from_u8(code: u8) -> (tile: Option<Tile>)
        ensures
            tile == if is_tile_code(code) {
                Some(Tile(code))
            } else {
                None
            },
    {
        if (11 <= code && code <= 19) || (21 <= code && code <= 29) || (31 <= code && code <= 39)
            || (41 <= code && code <= 47) || (51 <= code && code <= 53) {
            Some(Tile(code))
        } else {
            None
        }
    }

    /// The code.
    pub fn to_u8(&self) -> (code: u8)
        ensures
            code == self.0,
    {
        self.0
    }

    /// Whether this face is a red five.
    pub fn is_red(&self) -> (yes: bool)
        ensures
            yes == self.red(),
    {
        51 <= self.0 && self.0 <= 53
    }

    /// The red five of this face's suit if this is a plain five, else this face.
    pub fn to_red(&self) -> (tile: Tile)
        ensures
            tile == self.as_red(),
            self.valid() ==> tile.valid(),
    {
        if self.0 == 15 {
            Tile(51)
        } else if self.0 == 25 {
            Tile(52)
        } else if self.0 == 35 {
            Tile(53)
        } else {
            *self
        }
    }

    /// The plain five of this face's suit if this is a red five, else this face.
    pub fn to_black(&self) -> (tile: Tile)
        ensures
            tile == self.as_black(),
            self.valid() ==> tile.valid(),
            !tile.red(),
    {
        if self.0 == 51 {
            Tile(15)
        } else if self.0 == 52 {
            Tile(25)
        } else if self.0 == 53 {
            Tile(35)
        } else {
            *self
        }
    }
}

/// The tile with the face code `x`, or `InvalidTileFormat` where `x` is no
/// face code.
pub fn conv_tile_from_u8(x: u8) -> (result: ConvResult<Tile>)
    ensures
        result == if is_tile_code(x) {
            Ok::<Tile, ConvError>(Tile(x))
        } else {
            Err::<Tile, ConvError>(ConvError::InvalidTileFormat)
        },
{
    match Tile::from_u8(x) {
        Some(tile) => Ok(tile),
        None => Err(ConvError::InvalidTileFormat),
    }
}

/// Decodes a raw instance code into its face.
pub fn conv_hai_to_tile(hai: Hai, red_enable: bool) -> (result: ConvResult<Tile>)
    ensures
        result == match decode_tile(hai.0, red_enable) {
            Some(tile) => Ok::<Tile, ConvError>(tile),
            None => Err::<Tile, ConvError>(ConvError::InvalidTileFormat),
        },
        result is Ok <==> hai.0 < 136,
        result matches Ok(tile) ==> tile.valid() && (tile.red() <==> red_enable && is_red_instance(
            hai.0,
        )),
{
    let hai_number: u8 = hai.to_u8();
    if red_enable {
        if hai_number == RED_FIVE_CHARACTERS {
            return conv_tile_from_u8(51);
        }
        if hai_number == RED_FIVE_DOTS {
            return conv_tile_from_u8(52);
        }
        if hai_number == RED_FIVE_BAMBOO {
            return conv_tile_from_u8(53);
        }
    }
    // Faces in picture order: the ranks of the three suits, then the honors.
    let pict_order: u8 = hai_number / 4;
    let pict_type: u8 = pict_order / 9;
    if pict_type > 3 {
        return Err(ConvError::InvalidTileFormat);
    }
    let pict_num: u8 = (pict_order % 9) + 1;
    conv_tile_from_u8((pict_type + 1) * 10 + pict_num)
}

} // verus!
