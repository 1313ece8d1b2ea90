use mjlog2json::mjlog::{
    Action, ActionAGARI, ActionDISCARD, ActionDRAW, ActionINIT, ActionTAIKYOKU, InitSeed, Player,
};
use mjlog2json::splitter::{extract_round_indices, split_rounds};
use mjlog2json::tile::Hai;
use mjlog2json::ConvError;

fn round_start() -> Action {
    Action::INIT(ActionINIT {
        seed: InitSeed { kyoku: 0, honba: 0, kyoutaku: 0, dora_hyouji: Hai::new(0) },
        ten: vec![250, 250, 250, 250],
        oya: Player::new(0),
        hai: vec![vec![], vec![], vec![], vec![]],
    })
}

fn a_draw() -> Action {
    Action::DRAW(ActionDRAW { who: Player::new(0), hai: Hai::new(4) })
}

fn a_discard() -> Action {
    Action::DISCARD(ActionDISCARD { who: Player::new(0), hai: Hai::new(4) })
}

fn win() -> Action {
    Action::AGARI(ActionAGARI {
        fu: 30,
        yaku: vec![],
        yakuman: vec![],
        dora_hai_ura: vec![],
        who: Player::new(0),
        from_who: Player::new(0),
        pao_who: None,
        delta_points: vec![],
        owari: None,
    })
}

fn match_start() -> Action {
    Action::TAIKYOKU(ActionTAIKYOKU { oya: Player::new(0) })
}

#[test]
fn a_log_without_round_starts_has_no_rounds() {
    assert_eq!(extract_round_indices(&[]), vec![]);
    assert_eq!(extract_round_indices(&[match_start(), a_draw(), a_discard(), win()]), vec![]);
    assert_eq!(split_rounds(&[]), Err(ConvError::NotFoundRound));
    assert_eq!(split_rounds(&[match_start(), a_draw(), a_discard()]), Err(ConvError::NotFoundRound));
}

#[test]
fn one_round_runs_to_the_end_of_the_log() {
    let log = [match_start(), round_start(), a_draw(), a_discard(), win()];
    assert_eq!(extract_round_indices(&log), vec![(1, 5)]);
    assert_eq!(split_rounds(&log), Ok(vec![(1, 5)]));
}

#[test]
fn each_round_ends_where_the_next_begins() {
    let log = [
        match_start(),
        match_start(),
        round_start(),
        a_draw(),
        a_discard(),
        win(),
        round_start(),
        round_start(),
        a_draw(),
        win(),
    ];
    assert_eq!(extract_round_indices(&log), vec![(2, 6), (6, 7), (7, 10)]);
}

#[test]
fn a_round_start_at_the_end_is_a_round_of_one_action() {
    let log = [round_start(), a_draw(), round_start()];
    assert_eq!(extract_round_indices(&log), vec![(0, 2), (2, 3)]);
}

#[test]
fn rounds_are_adjacent_and_cover_the_log_from_the_first_round_start() {
    let pieces: [fn() -> Action; 5] = [match_start, round_start, a_draw, a_discard, win];
    // Every log of five actions over the five kinds.
    for code in 0..3125usize {
        let mut log = Vec::new();
        let mut rest = code;
        for _ in 0..5 {
            log.push(pieces[rest % 5]());
            rest /= 5;
        }
        let rounds = extract_round_indices(&log);
        let first_start = log.iter().position(|action| matches!(action, Action::INIT(_)));
        match first_start {
            None => assert!(rounds.is_empty()),
            Some(first) => {
                assert_eq!(rounds[0].0, first);
                assert_eq!(rounds[rounds.len() - 1].1, log.len());
            }
        }
        for k in 0..rounds.len() {
            let (start, end) = rounds[k];
            assert!(start < end);
            assert!(matches!(log[start], Action::INIT(_)));
            for i in start + 1..end {
                assert!(!matches!(log[i], Action::INIT(_)));
            }
            if k > 0 {
                assert_eq!(rounds[k - 1].1, start);
            }
        }
    }
}
