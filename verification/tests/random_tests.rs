use mjlog2json::mjlog::{
    Action, ActionAGARI, ActionBYE, ActionDISCARD, ActionDORA, ActionDRAW, ActionGO, ActionINIT,
    ActionN, ActionREACH1, ActionRYUUKYOKU, ActionUN1, ActionUN2, Direction, GameSettings,
    InitSeed, Meld, Mjlog, Player, TenhouRank, TenhouRoom,
};
use mjlog2json::splitter::extract_round_indices;
use mjlog2json::tenhou::{IncomingTile, OutgoingTile, RoundResult, TenhouJson};
use mjlog2json::tile::{Hai, Tile};
use mjlog2json::{conv_to_tenhou_json, ConvError};

/// A small generator of numbers, the same on every run.
struct Numbers(u64);

impl Numbers {
    fn next(&mut self) -> u64 {
        self.0 = self.0.wrapping_mul(6364136223846793005).wrapping_add(1442695040888963407);
        self.0 >> 33
    }

    fn below(&mut self, bound: u64) -> u64 {
        self.next() % bound
    }

    fn seat(&mut self) -> Player {
        Player::new(self.below(4) as u8)
    }

    /// Mostly a tile with a face, now and then one without.
    fn hai(&mut self) -> Hai {
        if self.below(200) == 0 {
            Hai::new(136 + self.below(120) as u8)
        } else {
            Hai::new(self.below(136) as u8)
        }
    }

    fn direction(&mut self) -> Direction {
        match self.below(3) {
            0 => Direction::Kamicha,
            1 => Direction::Toimen,
            _ => Direction::Shimocha,
        }
    }

    fn meld(&mut self) -> Meld {
        let (a, b, c) = (self.hai(), self.hai(), self.hai());
        match self.below(5) {
            0 => Meld::Chii { combination: (a, b, c), called_position: self.below(3) as u8 },
            1 => Meld::Pon { dir: self.direction(), combination: (a, b, c), called: a, unused: b },
            2 => Meld::Kakan { dir: self.direction(), combination: (a, b, c), called: a, added: b },
            3 => Meld::Daiminkan { dir: self.direction(), hai: a },
            _ => Meld::Ankan { hai: a },
        }
    }

    fn hand(&mut self) -> Vec<Hai> {
        (0..self.below(14)).map(|_| self.hai()).collect()
    }

    fn standings(&mut self) -> Option<(Vec<i32>, Vec<u64>)> {
        if self.below(3) == 0 {
            None
        } else {
            Some((vec![250, 250, 250, 250], vec![0; 4]))
        }
    }

    fn action(&mut self) -> Action {
        match self.below(24) {
            0 => Action::INIT(ActionINIT {
                seed: InitSeed {
                    kyoku: self.below(8) as u8,
                    honba: self.below(3) as u8,
                    kyoutaku: self.below(3) as u8,
                    dora_hyouji: self.hai(),
                },
                ten: vec![250, 250, 250, 250],
                oya: self.seat(),
                hai: vec![self.hand(), self.hand(), self.hand(), self.hand()],
            }),
            1 => Action::AGARI(ActionAGARI {
                fu: 20 + 10 * self.below(10) as u8,
                yaku: vec![
                    (mjlog2json::mjlog::Yaku::Riichi, 1),
                    (mjlog2json::mjlog::Yaku::Dora, self.below(14) as u8),
                    (mjlog2json::mjlog::Yaku::UraDora, self.below(2) as u8),
                ],
                yakuman: vec![],
                dora_hai_ura: (0..self.below(3)).map(|_| self.hai()).collect(),
                who: self.seat(),
                from_who: self.seat(),
                pao_who: None,
                delta_points: vec![10, -10, 0, 0],
                owari: self.standings(),
            }),
            2 => Action::RYUUKYOKU(ActionRYUUKYOKU {
                delta_points: vec![0, 0, 0, 0],
                hai0: if self.below(2) == 0 { None } else { Some(self.hand()) },
                hai1: if self.below(2) == 0 { None } else { Some(self.hand()) },
                hai2: if self.below(2) == 0 { None } else { Some(self.hand()) },
                hai3: if self.below(2) == 0 { None } else { Some(self.hand()) },
                reason: None,
                owari: self.standings(),
            }),
            3 => Action::BYE(ActionBYE { who: self.seat() }),
            4 => Action::UN2(ActionUN2 { who: self.seat() }),
            5 => Action::DORA(ActionDORA { hai: self.hai() }),
            6 => Action::REACH1(ActionREACH1 { who: self.seat() }),
            7 | 8 => Action::N(ActionN { who: self.seat(), m: self.meld() }),
            9..=15 => Action::DRAW(ActionDRAW { who: self.seat(), hai: self.hai() }),
            _ => Action::DISCARD(ActionDISCARD { who: self.seat(), hai: self.hai() }),
        }
    }

    fn log(&mut self) -> Mjlog {
        let mut actions = vec![
            Action::GO(ActionGO {
                settings: GameSettings {
                    room: TenhouRoom::Ippan,
                    hanchan: false,
                    no_red: self.below(2) == 0,
                    no_kuitan: false,
                    soku: false,
                },
                lobby: 0,
            }),
            Action::UN1(ActionUN1 {
                names: vec![String::new(); 4],
                dan: vec![TenhouRank::Newcomer; 4],
                rate: vec![0; 4],
                sx: vec![String::new(); 4],
            }),
        ];
        for _ in 0..self.below(50) {
            actions.push(self.action());
        }
        Mjlog { actions }
    }
}

fn is_face(tile: Tile) -> bool {
    matches!(tile.to_u8(), 11..=19 | 21..=29 | 31..=39 | 41..=47 | 51..=53)
}

fn holds_faces(json: &TenhouJson) -> bool {
    let is_face = |tile: Tile| is_face(tile) && (json.rule.aka51 || !tile.is_red());
    json.rounds.iter().all(|round| {
        round.settings.dora.iter().all(|tile| is_face(*tile))
            && round.settings.ura_dora.iter().all(|tile| is_face(*tile))
            && round.players.iter().all(|player| {
                player.hand.iter().all(|tile| is_face(*tile))
                    && player.incoming.iter().all(|entry| match *entry {
                        IncomingTile::Tsumo(tile) => is_face(tile),
                        IncomingTile::Chii { combination: (a, b, c) } => {
                            is_face(a) && is_face(b) && is_face(c)
                        }
                        IncomingTile::Pon { combination: (a, b, c), .. } => {
                            is_face(a) && is_face(b) && is_face(c)
                        }
                        IncomingTile::Daiminkan { combination: (a, b, c, d), .. } => {
                            is_face(a) && is_face(b) && is_face(c) && is_face(d)
                        }
                    })
                    && player.outgoing.iter().all(|entry| match *entry {
                        OutgoingTile::Discard(tile)
                        | OutgoingTile::Riichi(tile)
                        | OutgoingTile::Ankan(tile) => is_face(tile),
                        OutgoingTile::Kakan { combination: (a, b, c), added, .. } => {
                            is_face(a) && is_face(b) && is_face(c) && is_face(added)
                        }
                        _ => true,
                    })
            })
    })
}

#[test]
fn rebuilt_matches_keep_their_shape() {
    let mut numbers = Numbers(2024);
    let mut rebuilt = 0;
    let mut failures = [0usize; 4];
    let mut with_red = [0usize; 2];
    for _ in 0..20000 {
        let log = numbers.log();
        assert!(log.is_well_formed());
        let result = conv_to_tenhou_json(&log);
        assert_eq!(result, conv_to_tenhou_json(&log));
        assert_eq!(result, conv_to_tenhou_json(&log.clone()));
        match result {
            Ok(json) => {
                rebuilt += 1;
                let no_red = matches!(
                    &log.actions[0],
                    Action::GO(ActionGO { settings: GameSettings { no_red: true, .. }, .. })
                );
                assert_eq!(json.rule.aka51, !no_red);
                assert_eq!(json.rule.aka52, !no_red);
                assert_eq!(json.rule.aka53, !no_red);
                with_red[usize::from(!no_red)] += 1;
                assert_eq!(json.rounds.len(), extract_round_indices(&log.actions).len());
                assert!(!json.rounds.is_empty());
                assert!(holds_faces(&json));
                for round in &json.rounds {
                    assert_eq!(round.players.len(), 4);
                    for player in &round.players {
                        assert_ne!(player.outgoing.last(), Some(&OutgoingTile::Dummy));
                        let mut sorted = player.hand.clone();
                        sorted.sort_by_key(mjlog2json::hand::get_initial_hand_order);
                        assert_eq!(player.hand, sorted);
                    }
                    match &round.result {
                        RoundResult::Agari { agari_vec } => assert!(!agari_vec.is_empty()),
                        RoundResult::Ryuukyoku { delta_points, .. } => {
                            assert!(delta_points.is_empty())
                        }
                    }
                }
                let events = log
                    .actions
                    .iter()
                    .filter(|action| matches!(action, Action::BYE(_) | Action::UN2(_)))
                    .count();
                assert_eq!(json.connections.len(), events);
                for connection in &json.connections {
                    match connection.log {
                        None => assert_eq!(connection.step, 0),
                        Some(round) => assert!(round < json.rounds.len()),
                    }
                }
            }
            Err(ConvError::NotFoundRound) => failures[0] += 1,
            Err(ConvError::NotFoundFinalResult) => failures[1] += 1,
            Err(ConvError::InvalidRoundFormat) | Err(ConvError::NotFoundTerminalAction) => {
                failures[2] += 1
            }
            Err(ConvError::InvalidTileFormat) => failures[3] += 1,
            Err(other) => panic!("no such failure here: {:?}", other),
        }
    }
    // The logs are varied enough to end every way.
    assert!(rebuilt > 0);
    assert!(with_red[0] > 0 && with_red[1] > 0);
    assert!(failures.iter().all(|count| *count > 0));
}
