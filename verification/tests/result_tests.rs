use mjlog2json::mjlog::{
    Action, ActionAGARI, ActionDRAW, ActionINIT, ActionRYUUKYOKU, InitSeed, Player,
};
use mjlog2json::result::{
    conv_agari, conv_agari_vec, conv_delta_points_ryuukyoku, conv_extra_ryuukyoku_reason,
    conv_ranked_score_normal, conv_ranked_score_yakuman, conv_round_result,
    conv_round_result_from_agari, conv_round_result_from_ryuukyoku, conv_yaku, conv_yaku_vec,
    conv_yakuman_vec, is_not_ura_zero,
};
use mjlog2json::score::{Payment, RankedScore, ScoreRank};
use mjlog2json::tenhou::{
    Agari, ExtraRyuukyokuReason, RoundResult, Yaku, YakuLevel, YakuPair,
};
use mjlog2json::tile::Hai;
use mjlog2json::ConvError;

fn round_start_dealt_by(oya: u8) -> Action {
    Action::INIT(ActionINIT {
        seed: InitSeed { kyoku: 0, honba: 0, kyoutaku: 0, dora_hyouji: Hai::new(0) },
        ten: vec![250, 250, 250, 250],
        oya: Player::new(oya),
        hai: vec![vec![], vec![], vec![], vec![]],
    })
}

fn win_of(who: u8, from_who: u8) -> ActionAGARI {
    ActionAGARI {
        fu: 30,
        yaku: vec![(mjlog2json::mjlog::Yaku::Riichi, 1), (mjlog2json::mjlog::Yaku::Dora, 2)],
        yakuman: vec![],
        dora_hai_ura: vec![],
        who: Player::new(who),
        from_who: Player::new(from_who),
        pao_who: None,
        delta_points: vec![0, 0, 0, 0],
        owari: None,
    }
}

fn draw_showing(hands: [bool; 4]) -> ActionRYUUKYOKU {
    let shown = |yes: bool| if yes { Some(vec![Hai::new(0)]) } else { None };
    ActionRYUUKYOKU {
        delta_points: vec![0, 0, 0, 0],
        hai0: shown(hands[0]),
        hai1: shown(hands[1]),
        hai2: shown(hands[2]),
        hai3: shown(hands[3]),
        reason: None,
        owari: None,
    }
}

fn pair(yaku: Yaku, han: u8) -> YakuPair {
    YakuPair { yaku, level: YakuLevel::Normal(han) }
}

#[test]
fn patterns_keep_their_names() {
    let from = [
        mjlog2json::mjlog::Yaku::MenzenTsumo,
        mjlog2json::mjlog::Yaku::Riichi,
        mjlog2json::mjlog::Yaku::Ippatsu,
        mjlog2json::mjlog::Yaku::Chankan,
        mjlog2json::mjlog::Yaku::Rinshankaihou,
        mjlog2json::mjlog::Yaku::HaiteiTsumo,
        mjlog2json::mjlog::Yaku::HouteiRon,
        mjlog2json::mjlog::Yaku::Pinfu,
        mjlog2json::mjlog::Yaku::Tanyao,
        mjlog2json::mjlog::Yaku::Iipeikou,
        mjlog2json::mjlog::Yaku::PlayerWindTon,
        mjlog2json::mjlog::Yaku::PlayerWindNan,
        mjlog2json::mjlog::Yaku::PlayerWindSha,
        mjlog2json::mjlog::Yaku::PlayerWindPei,
        mjlog2json::mjlog::Yaku::FieldWindTon,
        mjlog2json::mjlog::Yaku::FieldWindNan,
        mjlog2json::mjlog::Yaku::FieldWindSha,
        mjlog2json::mjlog::Yaku::FieldWindPei,
        mjlog2json::mjlog::Yaku::YakuhaiHaku,
        mjlog2json::mjlog::Yaku::YakuhaiHatsu,
        mjlog2json::mjlog::Yaku::YakuhaiChun,
        mjlog2json::mjlog::Yaku::DoubleRiichi,
        mjlog2json::mjlog::Yaku::Chiitoitsu,
        mjlog2json::mjlog::Yaku::Chanta,
        mjlog2json::mjlog::Yaku::Ikkitsuukan,
        mjlog2json::mjlog::Yaku::SansyokuDoujun,
        mjlog2json::mjlog::Yaku::SanshokuDoukou,
        mjlog2json::mjlog::Yaku::Sankantsu,
        mjlog2json::mjlog::Yaku::Toitoi,
        mjlog2json::mjlog::Yaku::Sanannkou,
        mjlog2json::mjlog::Yaku::Shousangen,
        mjlog2json::mjlog::Yaku::Honroutou,
        mjlog2json::mjlog::Yaku::Ryanpeikou,
        mjlog2json::mjlog::Yaku::Junchan,
        mjlog2json::mjlog::Yaku::Honiisou,
        mjlog2json::mjlog::Yaku::Chiniisou,
        mjlog2json::mjlog::Yaku::Renhou,
        mjlog2json::mjlog::Yaku::Tenhou,
        mjlog2json::mjlog::Yaku::Chiihou,
        mjlog2json::mjlog::Yaku::Daisangen,
        mjlog2json::mjlog::Yaku::Suuankou,
        mjlog2json::mjlog::Yaku::SuuankouTanki,
        mjlog2json::mjlog::Yaku::Tsuuiisou,
        mjlog2json::mjlog::Yaku::Ryuuiisou,
        mjlog2json::mjlog::Yaku::Chinroutou,
        mjlog2json::mjlog::Yaku::Tyuurenpoutou,
        mjlog2json::mjlog::Yaku::Tyuurenpoutou9,
        mjlog2json::mjlog::Yaku::Kokushimusou,
        mjlog2json::mjlog::Yaku::Kokushimusou13,
        mjlog2json::mjlog::Yaku::Daisuushii,
        mjlog2json::mjlog::Yaku::Syousuushii,
        mjlog2json::mjlog::Yaku::Suukantsu,
        mjlog2json::mjlog::Yaku::Dora,
        mjlog2json::mjlog::Yaku::UraDora,
        mjlog2json::mjlog::Yaku::AkaDora,
    ];
    let to = [
        Yaku::MenzenTsumo,
        Yaku::Riichi,
        Yaku::Ippatsu,
        Yaku::Chankan,
        Yaku::Rinshankaihou,
        Yaku::HaiteiTsumo,
        Yaku::HouteiRon,
        Yaku::Pinfu,
        Yaku::Tanyao,
        Yaku::Iipeikou,
        Yaku::PlayerWindTon,
        Yaku::PlayerWindNan,
        Yaku::PlayerWindSha,
        Yaku::PlayerWindPei,
        Yaku::FieldWindTon,
        Yaku::FieldWindNan,
        Yaku::FieldWindSha,
        Yaku::FieldWindPei,
        Yaku::YakuhaiHaku,
        Yaku::YakuhaiHatsu,
        Yaku::YakuhaiChun,
        Yaku::DoubleRiichi,
        Yaku::Chiitoitsu,
        Yaku::Chanta,
        Yaku::Ikkitsuukan,
        Yaku::SansyokuDoujun,
        Yaku::SanshokuDoukou,
        Yaku::Sankantsu,
        Yaku::Toitoi,
        Yaku::Sanannkou,
        Yaku::Shousangen,
        Yaku::Honroutou,
        Yaku::Ryanpeikou,
        Yaku::Junchan,
        Yaku::Honiisou,
        Yaku::Chiniisou,
        Yaku::Renhou,
        Yaku::Tenhou,
        Yaku::Chiihou,
        Yaku::Daisangen,
        Yaku::Suuankou,
        Yaku::SuuankouTanki,
        Yaku::Tsuuiisou,
        Yaku::Ryuuiisou,
        Yaku::Chinroutou,
        Yaku::Tyuurenpoutou,
        Yaku::Tyuurenpoutou9,
        Yaku::Kokushimusou,
        Yaku::Kokushimusou13,
        Yaku::Daisuushii,
        Yaku::Syousuushii,
        Yaku::Suukantsu,
        Yaku::Dora,
        Yaku::UraDora,
        Yaku::AkaDora,
    ];
    assert_eq!(from.len(), 55);
    for (x, expected) in from.iter().zip(to.iter()) {
        assert_eq!(conv_yaku(*x), *expected);
    }
}

#[test]
fn a_draw_without_a_reason_is_an_exhausted_wall() {
    assert_eq!(conv_extra_ryuukyoku_reason(&None), ExtraRyuukyokuReason::Ryuukyoku);
    let reasons = [
        (
            mjlog2json::mjlog::ExtraRyuukyokuReason::KyuusyuKyuuhai,
            ExtraRyuukyokuReason::KyuusyuKyuuhai,
        ),
        (mjlog2json::mjlog::ExtraRyuukyokuReason::SuuchaRiichi, ExtraRyuukyokuReason::SuuchaRiichi),
        (mjlog2json::mjlog::ExtraRyuukyokuReason::SanchaHoura, ExtraRyuukyokuReason::SanchaHoura),
        (mjlog2json::mjlog::ExtraRyuukyokuReason::SuukanSanra, ExtraRyuukyokuReason::SuukanSanra),
        (mjlog2json::mjlog::ExtraRyuukyokuReason::SuufuuRenda, ExtraRyuukyokuReason::SuufuuRenda),
        (
            mjlog2json::mjlog::ExtraRyuukyokuReason::NagashiMangan,
            ExtraRyuukyokuReason::NagashiMangan,
        ),
    ];
    for (x, expected) in reasons {
        assert_eq!(conv_extra_ryuukyoku_reason(&Some(x)), expected);
    }
}

#[test]
fn ura_dora_without_han_is_not_listed() {
    assert!(!is_not_ura_zero(&pair(Yaku::UraDora, 0)));
    assert!(is_not_ura_zero(&pair(Yaku::UraDora, 1)));
    assert!(is_not_ura_zero(&pair(Yaku::Dora, 0)));
    assert!(is_not_ura_zero(&pair(Yaku::AkaDora, 0)));
    assert!(is_not_ura_zero(&YakuPair { yaku: Yaku::UraDora, level: YakuLevel::Yakuman(0) }));
    assert_eq!(
        conv_yaku_vec(&[
            (mjlog2json::mjlog::Yaku::UraDora, 0),
            (mjlog2json::mjlog::Yaku::Riichi, 1),
            (mjlog2json::mjlog::Yaku::UraDora, 0),
            (mjlog2json::mjlog::Yaku::Dora, 0),
            (mjlog2json::mjlog::Yaku::UraDora, 2),
        ]),
        vec![pair(Yaku::Riichi, 1), pair(Yaku::Dora, 0), pair(Yaku::UraDora, 2)]
    );
    assert_eq!(conv_yaku_vec(&[]), vec![]);
    assert_eq!(conv_yaku_vec(&[(mjlog2json::mjlog::Yaku::UraDora, 0)]), vec![]);
}

#[test]
fn each_pattern_of_a_limit_hand_counts_one_limit() {
    assert_eq!(
        conv_yakuman_vec(&[mjlog2json::mjlog::Yaku::Daisuushii, mjlog2json::mjlog::Yaku::Tsuuiisou]),
        vec![
            YakuPair { yaku: Yaku::Daisuushii, level: YakuLevel::Yakuman(1) },
            YakuPair { yaku: Yaku::Tsuuiisou, level: YakuLevel::Yakuman(1) },
        ]
    );
    assert_eq!(conv_yakuman_vec(&[]), vec![]);
    assert_eq!(YakuLevel::Yakuman(3).get_number(), 3);
    assert_eq!(YakuLevel::Normal(7).get_number(), 7);
}

#[test]
fn the_table_goes_by_winner_and_tile() {
    let oya = Player::new(0);
    assert_eq!(
        conv_ranked_score_normal(&win_of(1, 2), 3, oya).payment,
        Payment::KoRon { points: 3900 }
    );
    assert_eq!(
        conv_ranked_score_normal(&win_of(0, 2), 3, oya).payment,
        Payment::OyaRon { points: 5800 }
    );
    assert_eq!(
        conv_ranked_score_normal(&win_of(1, 1), 3, oya).payment,
        Payment::KoTsumo { ko: 1000, oya: 2000 }
    );
    assert_eq!(
        conv_ranked_score_normal(&win_of(0, 0), 3, oya).payment,
        Payment::OyaTsumo { all: 2000 }
    );
    // The same win in a round dealt by the winner.
    assert_eq!(
        conv_ranked_score_normal(&win_of(1, 2), 3, Player::new(1)).payment,
        Payment::OyaRon { points: 5800 }
    );
    assert_eq!(
        conv_ranked_score_yakuman(&win_of(1, 2), 1, oya).payment,
        Payment::KoRon { points: 32000 }
    );
    assert_eq!(
        conv_ranked_score_yakuman(&win_of(0, 2), 1, oya).payment,
        Payment::OyaRon { points: 48000 }
    );
    assert_eq!(
        conv_ranked_score_yakuman(&win_of(1, 1), 2, oya).payment,
        Payment::KoTsumo { ko: 16000, oya: 32000 }
    );
    assert_eq!(
        conv_ranked_score_yakuman(&win_of(0, 0), 1, oya).payment,
        Payment::OyaTsumo { all: 16000 }
    );
}

#[test]
fn a_win_is_scored_by_fu_and_the_sum_of_han() {
    let mut win = win_of(1, 2);
    win.yaku = vec![
        (mjlog2json::mjlog::Yaku::Riichi, 1),
        (mjlog2json::mjlog::Yaku::Dora, 2),
        (mjlog2json::mjlog::Yaku::UraDora, 0),
    ];
    win.delta_points = vec![0, 39, -39, 0];
    assert!(win.is_scored());
    assert_eq!(
        conv_agari(&win, Player::new(0)),
        Ok(Agari {
            delta_points: vec![0, 3900, -3900, 0],
            who: 1,
            from_who: 2,
            pao_who: 1,
            ranked_score: RankedScore {
                rank: ScoreRank::Normal { fu: 30, han: 3 },
                payment: Payment::KoRon { points: 3900 },
            },
            yaku: vec![pair(Yaku::Riichi, 1), pair(Yaku::Dora, 2)],
        })
    );
}

#[test]
fn a_liable_seat_is_named() {
    let mut win = win_of(3, 3);
    win.yaku = vec![];
    win.yakuman = vec![mjlog2json::mjlog::Yaku::Daisangen];
    win.pao_who = Some(Player::new(2));
    win.delta_points = vec![0, 0, -320, 320];
    assert_eq!(
        conv_agari(&win, Player::new(0)),
        Ok(Agari {
            delta_points: vec![0, 0, -32000, 32000],
            who: 3,
            from_who: 3,
            pao_who: 2,
            ranked_score: RankedScore {
                rank: ScoreRank::Yakuman { multiple: 1 },
                payment: Payment::KoTsumo { ko: 8000, oya: 16000 },
            },
            yaku: vec![YakuPair { yaku: Yaku::Daisangen, level: YakuLevel::Yakuman(1) }],
        })
    );
}

#[test]
fn limits_stack() {
    let mut win = win_of(0, 1);
    win.yaku = vec![];
    win.yakuman = vec![
        mjlog2json::mjlog::Yaku::Daisuushii,
        mjlog2json::mjlog::Yaku::Tsuuiisou,
        mjlog2json::mjlog::Yaku::SuuankouTanki,
    ];
    let agari = conv_agari(&win, Player::new(0)).unwrap();
    assert_eq!(
        agari.ranked_score,
        RankedScore {
            rank: ScoreRank::Yakuman { multiple: 3 },
            payment: Payment::OyaRon { points: 144000 },
        }
    );
    assert_eq!(agari.yaku.len(), 3);
}

#[test]
fn patterns_with_han_come_before_patterns_of_a_limit_hand() {
    let mut win = win_of(1, 2);
    win.yakuman = vec![mjlog2json::mjlog::Yaku::Daisangen];
    let agari = conv_agari(&win, Player::new(0)).unwrap();
    assert_eq!(agari.ranked_score.rank, ScoreRank::Normal { fu: 30, han: 3 });
    assert_eq!(agari.yaku, vec![pair(Yaku::Riichi, 1), pair(Yaku::Dora, 2)]);
}

#[test]
fn han_add_up_past_the_byte() {
    let mut win = win_of(1, 2);
    win.yaku = vec![
        (mjlog2json::mjlog::Yaku::Dora, 200),
        (mjlog2json::mjlog::Yaku::AkaDora, 200),
        (mjlog2json::mjlog::Yaku::UraDora, 200),
    ];
    let agari = conv_agari(&win, Player::new(0)).unwrap();
    assert_eq!(
        agari.ranked_score,
        RankedScore { rank: ScoreRank::KazoeYakuman, payment: Payment::KoRon { points: 32000 } }
    );
    win.yaku = vec![(mjlog2json::mjlog::Yaku::Dora, 6), (mjlog2json::mjlog::Yaku::AkaDora, 7)];
    let agari = conv_agari(&win, Player::new(0)).unwrap();
    assert_eq!(agari.ranked_score.rank, ScoreRank::KazoeYakuman);
    win.yaku = vec![(mjlog2json::mjlog::Yaku::Dora, 6), (mjlog2json::mjlog::Yaku::AkaDora, 6)];
    let agari = conv_agari(&win, Player::new(0)).unwrap();
    assert_eq!(agari.ranked_score.rank, ScoreRank::Sanbaiman);
}

#[test]
fn a_hand_of_ura_dora_without_han_scores_no_han() {
    let mut win = win_of(1, 2);
    win.yaku = vec![(mjlog2json::mjlog::Yaku::UraDora, 0)];
    let agari = conv_agari(&win, Player::new(0)).unwrap();
    assert_eq!(agari.yaku, vec![]);
    assert_eq!(
        agari.ranked_score,
        RankedScore {
            rank: ScoreRank::Normal { fu: 30, han: 0 },
            payment: Payment::KoRon { points: 500 },
        }
    );
}

#[test]
fn score_changes_of_any_size_fit() {
    let mut win = win_of(1, 2);
    win.delta_points = vec![i32::MAX, i32::MIN, 1, -1, 0];
    let agari = conv_agari(&win, Player::new(0)).unwrap();
    assert_eq!(agari.delta_points, vec![214_748_364_700, -214_748_364_800, 100, -100, 0]);
}

#[test]
fn a_win_needs_patterns() {
    let mut win = win_of(1, 2);
    win.yaku = vec![];
    assert!(!win.is_scored());
    win.yakuman = vec![mjlog2json::mjlog::Yaku::Tenhou; 255];
    assert!(win.is_scored());
    assert_eq!(
        conv_agari(&win, Player::new(0)).unwrap().ranked_score.rank,
        ScoreRank::Yakuman { multiple: 255 }
    );
    win.yakuman = vec![mjlog2json::mjlog::Yaku::Tenhou; 256];
    assert!(!win.is_scored());
    win.yaku = vec![(mjlog2json::mjlog::Yaku::Riichi, 1)];
    assert!(win.is_scored());
}

#[test]
fn two_wins_on_one_tile_are_two_outcomes() {
    let first = win_of(1, 3);
    let mut second = win_of(2, 3);
    second.yaku = vec![(mjlog2json::mjlog::Yaku::Tanyao, 1)];
    let log = [
        round_start_dealt_by(2),
        Action::DRAW(ActionDRAW { who: Player::new(3), hai: Hai::new(0) }),
        Action::AGARI(first.clone()),
        Action::AGARI(second.clone()),
    ];
    match conv_round_result(&log) {
        Ok(RoundResult::Agari { agari_vec }) => {
            assert_eq!(agari_vec.len(), 2);
            assert_eq!(agari_vec[0].who, 1);
            assert_eq!(agari_vec[0].from_who, 3);
            assert_eq!(agari_vec[0].ranked_score.payment, Payment::KoRon { points: 3900 });
            assert_eq!(agari_vec[1].who, 2);
            assert_eq!(agari_vec[1].from_who, 3);
            assert_eq!(agari_vec[1].ranked_score.payment, Payment::OyaRon { points: 1500 });
            assert_eq!(agari_vec[0], conv_agari(&first, Player::new(2)).unwrap());
            assert_eq!(agari_vec[1], conv_agari(&second, Player::new(2)).unwrap());
        }
        other => panic!("not a win: {:?}", other),
    }
}

#[test]
fn wins_by_different_tiles_keep_their_sources() {
    let log =
        [round_start_dealt_by(0), Action::AGARI(win_of(1, 3)), Action::AGARI(win_of(2, 0))];
    match conv_round_result(&log) {
        Ok(RoundResult::Agari { agari_vec }) => {
            assert_eq!(agari_vec.len(), 2);
            assert_eq!((agari_vec[0].who, agari_vec[0].from_who), (1, 3));
            assert_eq!((agari_vec[1].who, agari_vec[1].from_who), (2, 0));
        }
        other => panic!("not a win: {:?}", other),
    }
}

#[test]
fn the_wins_of_a_round_are_converted_in_order() {
    let first = win_of(1, 3);
    let second = win_of(0, 0);
    let oya = Player::new(0);
    let converted = conv_agari_vec(&[&first, &second], oya).unwrap();
    assert_eq!(
        converted,
        vec![conv_agari(&first, oya).unwrap(), conv_agari(&second, oya).unwrap()]
    );
    assert_eq!(
        conv_round_result_from_agari(&[&first, &second], oya),
        Ok(RoundResult::Agari { agari_vec: converted })
    );
    assert_eq!(conv_agari_vec(&[], oya), Ok(vec![]));
}

#[test]
fn all_hands_shown_is_all_tenpai() {
    assert_eq!(
        conv_round_result_from_ryuukyoku(&draw_showing([true, true, true, true])),
        Ok(RoundResult::Ryuukyoku {
            reason: ExtraRyuukyokuReason::TenpaiEverybody,
            delta_points: vec![],
        })
    );
}

#[test]
fn no_hand_shown_is_no_tenpai() {
    assert_eq!(
        conv_round_result_from_ryuukyoku(&draw_showing([false, false, false, false])),
        Ok(RoundResult::Ryuukyoku {
            reason: ExtraRyuukyokuReason::TenpaiNobody,
            delta_points: vec![],
        })
    );
}

#[test]
fn some_hands_shown_is_a_plain_draw() {
    for code in 1..15u8 {
        let hands = [code & 1 != 0, code & 2 != 0, code & 4 != 0, code & 8 != 0];
        let mut draw = draw_showing(hands);
        draw.delta_points = vec![10, -10, 15, -15];
        assert_eq!(
            conv_round_result_from_ryuukyoku(&draw),
            Ok(RoundResult::Ryuukyoku {
                reason: ExtraRyuukyokuReason::Ryuukyoku,
                delta_points: vec![1000, -1000, 1500, -1500],
            })
        );
    }
}

#[test]
fn a_reason_in_the_log_stands() {
    for hands in [[true; 4], [false; 4], [true, false, true, false]] {
        let mut draw = draw_showing(hands);
        draw.reason = Some(mjlog2json::mjlog::ExtraRyuukyokuReason::SuufuuRenda);
        assert_eq!(
            conv_round_result_from_ryuukyoku(&draw),
            Ok(RoundResult::Ryuukyoku {
                reason: ExtraRyuukyokuReason::SuufuuRenda,
                delta_points: vec![],
            })
        );
    }
    let mut draw = draw_showing([true; 4]);
    draw.reason = Some(mjlog2json::mjlog::ExtraRyuukyokuReason::NagashiMangan);
    draw.delta_points = vec![-20, -20, 80, -40];
    assert_eq!(
        conv_round_result_from_ryuukyoku(&draw),
        Ok(RoundResult::Ryuukyoku {
            reason: ExtraRyuukyokuReason::NagashiMangan,
            delta_points: vec![-2000, -2000, 8000, -4000],
        })
    );
}

#[test]
fn score_changes_of_a_draw_are_listed_where_a_score_changed() {
    let mut draw = draw_showing([true, false, false, false]);
    draw.delta_points = vec![30, -10, -10, -10];
    assert_eq!(conv_delta_points_ryuukyoku(&draw), vec![3000, -1000, -1000, -1000]);
    draw.delta_points = vec![0, 0, 0, -1];
    assert_eq!(conv_delta_points_ryuukyoku(&draw), vec![0, 0, 0, -100]);
    draw.delta_points = vec![0, 0, 0, 0];
    assert_eq!(conv_delta_points_ryuukyoku(&draw), vec![]);
    draw.delta_points = vec![];
    assert_eq!(conv_delta_points_ryuukyoku(&draw), vec![]);
}

#[test]
fn one_draw_and_no_win_is_a_draw() {
    let log = [
        round_start_dealt_by(0),
        Action::DRAW(ActionDRAW { who: Player::new(0), hai: Hai::new(0) }),
        Action::RYUUKYOKU(draw_showing([true, true, false, false])),
    ];
    assert_eq!(
        conv_round_result(&log),
        Ok(RoundResult::Ryuukyoku { reason: ExtraRyuukyokuReason::Ryuukyoku, delta_points: vec![] })
    );
}

#[test]
fn a_round_ends_in_wins_or_in_one_draw() {
    let draw = || Action::RYUUKYOKU(draw_showing([true; 4]));
    let win = || Action::AGARI(win_of(1, 2));
    assert_eq!(conv_round_result(&[round_start_dealt_by(0)]), Err(ConvError::InvalidRoundFormat));
    assert_eq!(
        conv_round_result(&[round_start_dealt_by(0), draw(), draw()]),
        Err(ConvError::InvalidRoundFormat)
    );
    assert_eq!(
        conv_round_result(&[round_start_dealt_by(0), draw(), win()]),
        Err(ConvError::InvalidRoundFormat)
    );
    assert_eq!(
        conv_round_result(&[round_start_dealt_by(0), win(), draw()]),
        Err(ConvError::InvalidRoundFormat)
    );
    assert_eq!(
        conv_round_result(&[round_start_dealt_by(0), win(), draw(), draw()]),
        Err(ConvError::InvalidRoundFormat)
    );
    assert!(conv_round_result(&[round_start_dealt_by(0), win()]).is_ok());
    assert!(conv_round_result(&[round_start_dealt_by(0), draw()]).is_ok());
}
