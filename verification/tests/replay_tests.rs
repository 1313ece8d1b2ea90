use mjlog2json::mjlog::{
    Action, ActionAGARI, ActionDISCARD, ActionDORA, ActionDRAW, ActionN, ActionREACH1, ActionREACH2,
    Direction, Meld, Player,
};
use mjlog2json::replay::{is_valid_player_action, replay_actions};
use mjlog2json::tenhou::{IncomingTile, OutgoingTile};
use mjlog2json::tile::{Hai, Tile};
use mjlog2json::ConvError;

fn draws(seat: u8, hai: u8) -> Action {
    Action::DRAW(ActionDRAW { who: Player::new(seat), hai: Hai::new(hai) })
}

fn discards(seat: u8, hai: u8) -> Action {
    Action::DISCARD(ActionDISCARD { who: Player::new(seat), hai: Hai::new(hai) })
}

fn declares(seat: u8) -> Action {
    Action::REACH1(ActionREACH1 { who: Player::new(seat) })
}

fn calls(seat: u8, m: Meld) -> Action {
    Action::N(ActionN { who: Player::new(seat), m })
}

fn replay_seat(
    log: &[Action],
    seat: u8,
) -> Result<(Vec<IncomingTile>, Vec<OutgoingTile>), ConvError> {
    let own: Vec<&Action> =
        log.iter().filter(|action| is_valid_player_action(action, Player::new(seat))).collect();
    replay_actions(&own, true)
}

fn open_quad_of_east() -> Meld {
    Meld::Daiminkan { dir: Direction::Toimen, hai: Hai::new(108) }
}

fn east_quad() -> IncomingTile {
    IncomingTile::Daiminkan {
        dir: mjlog2json::tenhou::Direction::Toimen,
        combination: (Tile(41), Tile(41), Tile(41), Tile(41)),
    }
}

#[test]
fn a_seat_acts_in_its_draws_discards_declarations_and_calls() {
    let seat = Player::new(2);
    assert!(is_valid_player_action(&draws(2, 0), seat));
    assert!(is_valid_player_action(&discards(2, 0), seat));
    assert!(is_valid_player_action(&declares(2), seat));
    assert!(is_valid_player_action(&calls(2, open_quad_of_east()), seat));
    assert!(!is_valid_player_action(&draws(1, 0), seat));
    assert!(!is_valid_player_action(&discards(3, 0), seat));
    assert!(!is_valid_player_action(&declares(0), seat));
    assert!(!is_valid_player_action(&calls(1, open_quad_of_east()), seat));
    assert!(!is_valid_player_action(&Action::REACH2(ActionREACH2 { who: seat }), seat));
    assert!(!is_valid_player_action(&Action::DORA(ActionDORA { hai: Hai::new(0) }), seat));
}

#[test]
fn nothing_in_gives_nothing_out() {
    assert_eq!(replay_seat(&[], 0), Ok((vec![], vec![])));
}

#[test]
fn discarding_the_drawn_tile_is_tsumogiri() {
    let log = [draws(0, 4), discards(0, 4)];
    assert_eq!(
        replay_seat(&log, 0),
        Ok((vec![IncomingTile::Tsumo(Tile(12))], vec![OutgoingTile::Tsumogiri]))
    );
}

#[test]
fn discarding_another_tile_shows_its_face() {
    let log = [draws(0, 4), discards(0, 8)];
    assert_eq!(
        replay_seat(&log, 0),
        Ok((vec![IncomingTile::Tsumo(Tile(12))], vec![OutgoingTile::Discard(Tile(13))]))
    );
    // Another tile of the drawn face is another tile.
    let log = [draws(0, 4), discards(0, 5)];
    assert_eq!(
        replay_seat(&log, 0),
        Ok((vec![IncomingTile::Tsumo(Tile(12))], vec![OutgoingTile::Discard(Tile(12))]))
    );
}

#[test]
fn a_discarded_red_five_shows_red() {
    let log = [draws(0, 4), discards(0, 16), draws(0, 52), discards(0, 53)];
    assert_eq!(
        replay_seat(&log, 0),
        Ok((
            vec![IncomingTile::Tsumo(Tile(12)), IncomingTile::Tsumo(Tile(52))],
            vec![OutgoingTile::Discard(Tile(51)), OutgoingTile::Discard(Tile(25))]
        ))
    );
}

#[test]
fn the_discard_after_a_declaration_carries_it() {
    let log = [draws(0, 4), declares(0), discards(0, 8), draws(0, 12), discards(0, 12)];
    assert_eq!(
        replay_seat(&log, 0),
        Ok((
            vec![IncomingTile::Tsumo(Tile(12)), IncomingTile::Tsumo(Tile(14))],
            vec![OutgoingTile::Riichi(Tile(13)), OutgoingTile::Tsumogiri]
        ))
    );
    let log = [draws(0, 4), declares(0), discards(0, 4), draws(0, 12), discards(0, 20)];
    assert_eq!(
        replay_seat(&log, 0),
        Ok((
            vec![IncomingTile::Tsumo(Tile(12)), IncomingTile::Tsumo(Tile(14))],
            vec![OutgoingTile::TsumogiriRiichi, OutgoingTile::Discard(Tile(16))]
        ))
    );
}

#[test]
fn other_seats_are_passed_over() {
    let log = [
        draws(1, 200),
        draws(0, 4),
        declares(1),
        discards(1, 4),
        discards(0, 4),
        calls(2, Meld::Chii { combination: (Hai::new(0), Hai::new(4), Hai::new(8)), called_position: 9 }),
        Action::DORA(ActionDORA { hai: Hai::new(255) }),
        Action::AGARI(ActionAGARI {
            fu: 30,
            yaku: vec![],
            yakuman: vec![],
            dora_hai_ura: vec![],
            who: Player::new(0),
            from_who: Player::new(0),
            pao_who: None,
            delta_points: vec![],
            owari: None,
        }),
    ];
    assert_eq!(
        replay_seat(&log, 0),
        Ok((vec![IncomingTile::Tsumo(Tile(12))], vec![OutgoingTile::Tsumogiri]))
    );
    assert_eq!(replay_seat(&log, 3), Ok((vec![], vec![])));
    assert_eq!(replay_seat(&log, 1), Err(ConvError::InvalidTileFormat));
}

#[test]
fn a_tile_without_a_face_fails_the_replay() {
    assert_eq!(
        replay_seat(&[draws(0, 4), discards(0, 4), draws(0, 136)], 0),
        Err(ConvError::InvalidTileFormat)
    );
    assert_eq!(
        replay_seat(&[draws(0, 4), discards(0, 137), draws(0, 8)], 0),
        Err(ConvError::InvalidTileFormat)
    );
    assert_eq!(
        replay_seat(&[calls(0, Meld::Ankan { hai: Hai::new(200) })], 0),
        Err(ConvError::InvalidTileFormat)
    );
    // The drawn tile is given back unread.
    assert_eq!(
        replay_seat(&[draws(0, 4), discards(0, 4)], 0).map(|tiles| tiles.1),
        Ok(vec![OutgoingTile::Tsumogiri])
    );
}

#[test]
fn a_called_sequence_or_triplet_is_taken_in() {
    let log = [
        calls(
            1,
            Meld::Chii { combination: (Hai::new(8), Hai::new(12), Hai::new(16)), called_position: 2 },
        ),
        discards(1, 40),
        calls(
            1,
            Meld::Pon {
                dir: Direction::Shimocha,
                combination: (Hai::new(88), Hai::new(89), Hai::new(90)),
                called: Hai::new(88),
                unused: Hai::new(91),
            },
        ),
        discards(1, 44),
    ];
    assert_eq!(
        replay_seat(&log, 1),
        Ok((
            vec![
                IncomingTile::Chii { combination: (Tile(51), Tile(13), Tile(14)) },
                IncomingTile::Pon {
                    dir: mjlog2json::tenhou::Direction::Shimocha,
                    combination: (Tile(35), Tile(35), Tile(53)),
                },
            ],
            vec![OutgoingTile::Discard(Tile(22)), OutgoingTile::Discard(Tile(23))]
        ))
    );
}

#[test]
fn an_open_quad_takes_a_turn() {
    let log = [calls(0, open_quad_of_east()), draws(0, 4), discards(0, 4)];
    assert_eq!(
        replay_seat(&log, 0),
        Ok((
            vec![east_quad(), IncomingTile::Tsumo(Tile(12))],
            vec![OutgoingTile::Dummy, OutgoingTile::Tsumogiri]
        ))
    );
}

#[test]
fn a_turn_that_never_came_is_dropped() {
    let log = [draws(0, 4), discards(0, 8), calls(0, open_quad_of_east())];
    assert_eq!(
        replay_seat(&log, 0),
        Ok((
            vec![IncomingTile::Tsumo(Tile(12)), east_quad()],
            vec![OutgoingTile::Discard(Tile(13))]
        ))
    );
    let log = [calls(0, open_quad_of_east()), draws(0, 4)];
    assert_eq!(
        replay_seat(&log, 0),
        Ok((vec![east_quad(), IncomingTile::Tsumo(Tile(12))], vec![]))
    );
    let log = [
        calls(0, open_quad_of_east()),
        draws(0, 4),
        discards(0, 4),
        calls(0, open_quad_of_east()),
        calls(0, open_quad_of_east()),
    ];
    assert_eq!(
        replay_seat(&log, 0),
        Ok((
            vec![east_quad(), IncomingTile::Tsumo(Tile(12)), east_quad(), east_quad()],
            vec![OutgoingTile::Dummy, OutgoingTile::Tsumogiri]
        ))
    );
}

#[test]
fn what_a_seat_gives_out_never_ends_in_a_dummy() {
    let pieces: [fn() -> Action; 4] = [
        || draws(0, 4),
        || discards(0, 4),
        || calls(0, open_quad_of_east()),
        || calls(0, Meld::Ankan { hai: Hai::new(0) }),
    ];
    // Every log of six actions over the four kinds.
    for code in 0..4096usize {
        let mut log = Vec::new();
        let mut rest = code;
        for _ in 0..6 {
            log.push(pieces[rest % 4]());
            rest /= 4;
        }
        let (incoming, outgoing) = replay_seat(&log, 0).unwrap();
        assert_ne!(outgoing.last(), Some(&OutgoingTile::Dummy));
        let quads = log.iter().filter(|action| {
            matches!(action, Action::N(ActionN { m: Meld::Daiminkan { .. }, .. }))
        });
        let dummies = outgoing.iter().filter(|tile| **tile == OutgoingTile::Dummy);
        assert!(dummies.count() <= quads.count());
        let taken = log.iter().filter(|action| {
            matches!(action, Action::DRAW(_))
                || matches!(action, Action::N(ActionN { m: Meld::Daiminkan { .. }, .. }))
        });
        assert_eq!(incoming.len(), taken.count());
    }
}

#[test]
fn added_and_closed_quads_are_given_out() {
    let log = [
        draws(0, 111),
        calls(
            0,
            Meld::Kakan {
                dir: Direction::Kamicha,
                combination: (Hai::new(108), Hai::new(109), Hai::new(110)),
                called: Hai::new(108),
                added: Hai::new(111),
            },
        ),
        draws(0, 17),
        calls(0, Meld::Ankan { hai: Hai::new(17) }),
        draws(0, 0),
        discards(0, 0),
    ];
    assert_eq!(
        replay_seat(&log, 0),
        Ok((
            vec![
                IncomingTile::Tsumo(Tile(41)),
                IncomingTile::Tsumo(Tile(15)),
                IncomingTile::Tsumo(Tile(11)),
            ],
            vec![
                OutgoingTile::Kakan {
                    dir: mjlog2json::tenhou::Direction::Kamicha,
                    combination: (Tile(41), Tile(41), Tile(41)),
                    added: Tile(41),
                },
                OutgoingTile::Ankan(Tile(51)),
                OutgoingTile::Tsumogiri,
            ]
        ))
    );
}

#[test]
fn a_call_forgets_neither_the_draw_nor_the_declaration() {
    let log = [draws(0, 4), calls(0, Meld::Ankan { hai: Hai::new(0) }), discards(0, 4)];
    assert_eq!(
        replay_seat(&log, 0).map(|tiles| tiles.1),
        Ok(vec![OutgoingTile::Ankan(Tile(11)), OutgoingTile::Tsumogiri])
    );
    let log = [
        draws(0, 4),
        declares(0),
        calls(0, Meld::Ankan { hai: Hai::new(0) }),
        draws(0, 8),
        discards(0, 12),
    ];
    assert_eq!(
        replay_seat(&log, 0).map(|tiles| tiles.1),
        Ok(vec![OutgoingTile::Ankan(Tile(11)), OutgoingTile::Riichi(Tile(14))])
    );
}

#[test]
fn a_discard_forgets_the_draw() {
    let log = [draws(0, 4), discards(0, 8), discards(0, 4)];
    assert_eq!(
        replay_seat(&log, 0).map(|tiles| tiles.1),
        Ok(vec![OutgoingTile::Discard(Tile(13)), OutgoingTile::Discard(Tile(12))])
    );
}

#[test]
fn without_red_fives_a_seat_draws_and_discards_plain_fives() {
    let log = [&draws(0, 16), &discards(0, 52), &draws(0, 88), &discards(0, 88), &declares(0),
        &discards(0, 16)];
    assert_eq!(
        replay_actions(&log, false),
        Ok((
            vec![IncomingTile::Tsumo(Tile(15)), IncomingTile::Tsumo(Tile(35))],
            vec![
                OutgoingTile::Discard(Tile(25)),
                OutgoingTile::Tsumogiri,
                OutgoingTile::Riichi(Tile(15)),
            ]
        ))
    );
    assert_eq!(
        replay_actions(&log, true),
        Ok((
            vec![IncomingTile::Tsumo(Tile(51)), IncomingTile::Tsumo(Tile(53))],
            vec![
                OutgoingTile::Discard(Tile(52)),
                OutgoingTile::Tsumogiri,
                OutgoingTile::Riichi(Tile(51)),
            ]
        ))
    );
    let quad = calls(0, Meld::Ankan { hai: Hai::new(90) });
    assert_eq!(replay_actions(&[&quad], false), Ok((vec![], vec![OutgoingTile::Ankan(Tile(35))])));
}
