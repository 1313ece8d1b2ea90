use mjlog2json::tile::{conv_hai_to_tile, conv_tile_from_u8, Hai, Tile};
use mjlog2json::ConvError;

#[test]
fn red_fives_decode_to_red_faces_when_enabled() {
    assert_eq!(conv_hai_to_tile(Hai::new(16), true), Ok(Tile(51)));
    assert_eq!(conv_hai_to_tile(Hai::new(52), true), Ok(Tile(52)));
    assert_eq!(conv_hai_to_tile(Hai::new(88), true), Ok(Tile(53)));
}

#[test]
fn red_instances_are_plain_fives_when_disabled() {
    assert_eq!(conv_hai_to_tile(Hai::new(16), false), Ok(Tile(15)));
    assert_eq!(conv_hai_to_tile(Hai::new(52), false), Ok(Tile(25)));
    assert_eq!(conv_hai_to_tile(Hai::new(88), false), Ok(Tile(35)));
}

#[test]
fn other_instances_of_five_are_plain() {
    for raw in [17u8, 18, 19] {
        assert_eq!(conv_hai_to_tile(Hai::new(raw), true), Ok(Tile(15)));
    }
    for raw in [53u8, 54, 55] {
        assert_eq!(conv_hai_to_tile(Hai::new(raw), true), Ok(Tile(25)));
    }
    for raw in [89u8, 90, 91] {
        assert_eq!(conv_hai_to_tile(Hai::new(raw), true), Ok(Tile(35)));
    }
}

#[test]
fn every_instance_decodes_by_suit_and_rank() {
    for raw in 0u8..136 {
        let order = raw / 4;
        let expected = (order / 9 + 1) * 10 + order % 9 + 1;
        assert_eq!(conv_hai_to_tile(Hai::new(raw), false), Ok(Tile(expected)));
        if raw != 16 && raw != 52 && raw != 88 {
            assert_eq!(conv_hai_to_tile(Hai::new(raw), true), Ok(Tile(expected)));
        }
    }
}

#[test]
fn first_and_last_instances_decode() {
    assert_eq!(conv_hai_to_tile(Hai::new(0), true), Ok(Tile(11)));
    assert_eq!(conv_hai_to_tile(Hai::new(35), true), Ok(Tile(19)));
    assert_eq!(conv_hai_to_tile(Hai::new(36), true), Ok(Tile(21)));
    assert_eq!(conv_hai_to_tile(Hai::new(107), true), Ok(Tile(39)));
    assert_eq!(conv_hai_to_tile(Hai::new(108), true), Ok(Tile(41)));
    assert_eq!(conv_hai_to_tile(Hai::new(135), true), Ok(Tile(47)));
}

#[test]
fn instances_past_the_set_are_refused() {
    for raw in 136u8..=255 {
        assert_eq!(conv_hai_to_tile(Hai::new(raw), true), Err(ConvError::InvalidTileFormat));
        assert_eq!(conv_hai_to_tile(Hai::new(raw), false), Err(ConvError::InvalidTileFormat));
    }
}

#[test]
fn red_faces_come_from_red_instances_only() {
    for raw in 0u8..=255 {
        if let Ok(tile) = conv_hai_to_tile(Hai::new(raw), true) {
            assert_eq!(tile.is_red(), raw == 16 || raw == 52 || raw == 88);
        }
        if let Ok(tile) = conv_hai_to_tile(Hai::new(raw), false) {
            assert!(!tile.is_red());
        }
    }
}

#[test]
fn tile_codes_outside_the_faces_are_refused() {
    assert_eq!(conv_tile_from_u8(0), Err(ConvError::InvalidTileFormat));
    assert_eq!(conv_tile_from_u8(10), Err(ConvError::InvalidTileFormat));
    assert_eq!(conv_tile_from_u8(20), Err(ConvError::InvalidTileFormat));
    assert_eq!(conv_tile_from_u8(40), Err(ConvError::InvalidTileFormat));
    assert_eq!(conv_tile_from_u8(48), Err(ConvError::InvalidTileFormat));
    assert_eq!(conv_tile_from_u8(50), Err(ConvError::InvalidTileFormat));
    assert_eq!(conv_tile_from_u8(54), Err(ConvError::InvalidTileFormat));
    assert_eq!(conv_tile_from_u8(255), Err(ConvError::InvalidTileFormat));
}

#[test]
fn tile_codes_of_faces_are_taken() {
    let mut faces = 0;
    for code in 0u8..=255 {
        if let Ok(tile) = conv_tile_from_u8(code) {
            assert_eq!(tile.to_u8(), code);
            assert_eq!(Tile::from_u8(code), Some(tile));
            faces += 1;
        } else {
            assert_eq!(Tile::from_u8(code), None);
        }
    }
    assert_eq!(faces, 37);
}

#[test]
fn fives_turn_red_and_back() {
    assert_eq!(Tile(15).to_red(), Tile(51));
    assert_eq!(Tile(25).to_red(), Tile(52));
    assert_eq!(Tile(35).to_red(), Tile(53));
    assert_eq!(Tile(51).to_black(), Tile(15));
    assert_eq!(Tile(52).to_black(), Tile(25));
    assert_eq!(Tile(53).to_black(), Tile(35));
    assert_eq!(Tile(14).to_red(), Tile(14));
    assert_eq!(Tile(45).to_red(), Tile(45));
    assert_eq!(Tile(51).to_red(), Tile(51));
    assert_eq!(Tile(15).to_black(), Tile(15));
    assert!(Tile(51).is_red());
    assert!(Tile(53).is_red());
    assert!(!Tile(15).is_red());
    assert!(!Tile(47).is_red());
}

#[test]
fn twelve_instances_are_fives() {
    let mut fives = Vec::new();
    for raw in 0u8..=255 {
        if Hai::new(raw).is_number5() {
            fives.push(raw);
        }
    }
    assert_eq!(fives, vec![16, 17, 18, 19, 52, 53, 54, 55, 88, 89, 90, 91]);
    assert_eq!(Hai::new(16).to_u8(), 16);
}
