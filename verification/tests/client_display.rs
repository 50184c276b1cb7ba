use client::audio::{all_sounds_loaded, gameplay_sounds, interaction_sound, landing_sound, ButtonInteraction, SoundCue};
use client::board::{banana_step_for_cell, player_initial, cell_label, find_player_ball, handle_board_click, shows_ball, wager_letter, wager_shown_at};
use client::hud::{
    card_button_look, card_quantity_label, controls_visibility, count_cards, hole_completed_status, hole_stats,
    hole_title, player_name_label, roll_status, strokes_line, CardButtonLook,
};
use client::leaderboard::{
    ensure_player_slots, leaderboard_entries, par_score_string, record_completed_hole, stroke_score_string,
    LeaderboardCompletedHolesScore, RankBadge,
};
use client::messages::{card_code, card_from_code, CardType, ClientAction, GameStateEnum, Scorecard, ServerUpdate, WagerToken};
use client::network::{packet_within_limit, MAX_PACKET_SIZE};
use client::replication::{map_enum_to_bevy_state, replicate_state_sync, ActivePlayerId, Ball, ClientGameState, Player};
use client::scorecard_summary::{scorecard_cell_content, scorecard_totals, round_total_string, ScoreColor, ScorecardCell, ScorecardTotals};
use client::settings::CurrentHole;
use client::terrain::{ActiveCourseTrack, MovementDirection, TerrainType};
use client::text::{decimal_string, signed_decimal_string};

fn sync(positions: Vec<u32>, game_state: GameStateEnum, wagers: Vec<WagerToken>) -> ServerUpdate {
    ServerUpdate::StateSync {
        sequence: 3,
        game_state,
        active_player_id: 77,
        current_hole: 5,
        player_positions: positions,
        player_scores: vec![],
        placed_wagers: wagers,
    }
}

#[test]
fn decimal_numerals() {
    assert_eq!(decimal_string(0), "0");
    assert_eq!(decimal_string(1234567890), "1234567890");
    assert_eq!(decimal_string(u64::MAX), u64::MAX.to_string());
    assert_eq!(signed_decimal_string(-45), "-45");
    assert_eq!(signed_decimal_string(i64::MIN), i64::MIN.to_string());
    assert_eq!(signed_decimal_string(7), "7");
}

#[test]
fn card_codes_round_trip() {
    for card in [CardType::Shield, CardType::Banana, CardType::GoldenDie] {
        assert_eq!(card_from_code(card_code(card)), card);
    }
    assert_eq!(card_from_code(9), CardType::GoldenDie);
}

#[test]
fn phases_map_one_to_one() {
    assert_eq!(map_enum_to_bevy_state(GameStateEnum::BananaChoice), ClientGameState::BananaChoice);
    assert_eq!(map_enum_to_bevy_state(GameStateEnum::MatchCompleted), ClientGameState::MatchCompleted);
    assert_eq!(map_enum_to_bevy_state(GameStateEnum::Lobby), ClientGameState::Lobby);
    assert_eq!(ClientGameState::default(), ClientGameState::Lobby);
    assert_eq!(ActivePlayerId::default(), ActivePlayerId(0));
}

#[test]
fn replicating_a_state_sync() {
    let wager = WagerToken { card_type: CardType::Banana, owner_id: 77, cell_index: 4 };
    let r = replicate_state_sync(&sync(vec![3, 70000], GameStateEnum::Moving, vec![wager])).unwrap();
    assert_eq!(r.wagers, vec![wager]);
    assert_eq!(r.current_hole, 5);
    assert_eq!(r.active_player_id, 77);
    assert_eq!(r.game_state, ClientGameState::Moving);
    assert_eq!(r.players.len(), 2);
    assert_eq!(r.players[0].0, Player { player_id: 77 });
    assert_eq!(r.players[0].1, Ball { cell_index: 3, direction: MovementDirection::Forward, origin_cell: 3 });
    assert_eq!(r.players[1].0, Player { player_id: 1 });
    assert_eq!(r.players[1].1.cell_index, (70000u32 as u16));
    assert!(replicate_state_sync(&ServerUpdate::AlertTriggered { alert_message: "x".to_string() }).is_none());
}

#[test]
fn par_scores_start_afresh_and_accumulate() {
    let mut scores = LeaderboardCompletedHolesScore::default();
    record_completed_hole(&mut scores, 1, GameStateEnum::AwaitingTurn, &vec![], 2, Some(4));
    assert_eq!(scores.player_par_scores, vec![0, 0]);
    record_completed_hole(&mut scores, 1, GameStateEnum::HoleCompleted, &vec![3, 6], 2, Some(4));
    assert_eq!(scores.player_par_scores, vec![-1, 2]);
    assert_eq!(scores.last_completed_hole, 1);
    // the same hole is not counted twice
    record_completed_hole(&mut scores, 1, GameStateEnum::HoleCompleted, &vec![3, 6], 2, Some(4));
    assert_eq!(scores.player_par_scores, vec![-1, 2]);
    // unknown par counts as 4; a missing scorecard as 0 strokes; a third player is added
    record_completed_hole(&mut scores, 2, GameStateEnum::HoleCompleted, &vec![5], 3, None);
    assert_eq!(scores.player_par_scores, vec![0, -2, -4]);
    assert_eq!(scores.last_completed_hole, 2);
    record_completed_hole(&mut scores, 3, GameStateEnum::Moving, &vec![5], 3, None);
    assert_eq!(scores.player_par_scores, vec![0, -2, -4]);
    ensure_player_slots(&mut scores, 5);
    assert_eq!(scores.player_par_scores, vec![0, -2, -4, 0, 0]);
}

#[test]
fn leaderboard_ranks_lowest_first_and_keeps_ties_in_order() {
    let scores = vec![2, -1, 2, -3];
    let entries = leaderboard_entries(&scores, 4, 77, "Ann");
    let order: Vec<usize> = entries.iter().map(|e| e.player_index).collect();
    assert_eq!(order, vec![3, 1, 0, 2]);
    assert_eq!(entries[0].rank, 1);
    assert_eq!(entries[0].name, "Bot 3");
    assert_eq!(entries[0].score_text, "-3");
    assert_eq!(entries[0].badge, RankBadge::Gold);
    assert_eq!(entries[1].badge, RankBadge::Silver);
    assert_eq!(entries[2].name, "Ann");
    assert_eq!(entries[2].player_id, 77);
    assert!(entries[2].is_active);
    assert_eq!(entries[2].score_text, "+2");
    assert_eq!(entries[3].badge, RankBadge::Dark);
    assert!(!entries[3].is_active);
}

#[test]
fn score_texts() {
    assert_eq!(par_score_string(0), "E");
    assert_eq!(par_score_string(5), "+5");
    assert_eq!(par_score_string(-2), "-2");
    assert_eq!(stroke_score_string(0, 4), "E");
    assert_eq!(stroke_score_string(4, 4), "E");
    assert_eq!(stroke_score_string(6, 4), "+2");
    assert_eq!(stroke_score_string(3, 4), "-1");
}

#[test]
fn scorecard_totals_and_cells() {
    let mut pars: Vec<Option<u8>> = vec![Some(4); 18];
    pars[0] = Some(3);
    pars[17] = None;
    let strokes: Vec<u16> = vec![2, 5, 4, 4, 4, 4, 4, 4, 4, 6];
    let t = scorecard_totals(&pars, &strokes);
    assert_eq!(t, ScorecardTotals { out_par: 35, in_par: 32, out_score: 35, in_score: 6 });
    let cell = |h: u8, p: bool, s: bool| ScorecardCell { hole_num: h, is_par: p, is_score: s };
    let c = scorecard_cell_content(cell(1, true, false), &pars, &strokes, t).unwrap();
    assert_eq!((c.text.as_str(), c.color), ("3", None));
    assert!(scorecard_cell_content(cell(18, true, false), &pars, &strokes, t).is_none());
    let c = scorecard_cell_content(cell(1, false, true), &pars, &strokes, t).unwrap();
    assert_eq!((c.text.as_str(), c.color), ("2", Some(ScoreColor::UnderPar)));
    let c = scorecard_cell_content(cell(2, false, true), &pars, &strokes, t).unwrap();
    assert_eq!((c.text.as_str(), c.color), ("5", Some(ScoreColor::OverPar)));
    let c = scorecard_cell_content(cell(3, false, true), &pars, &strokes, t).unwrap();
    assert_eq!(c.color, Some(ScoreColor::Even));
    let c = scorecard_cell_content(cell(12, false, true), &pars, &strokes, t).unwrap();
    assert_eq!((c.text.as_str(), c.color), ("-", Some(ScoreColor::Even)));
    assert_eq!(scorecard_cell_content(cell(20, true, false), &pars, &strokes, t).unwrap().text, "35");
    assert_eq!(scorecard_cell_content(cell(21, false, true), &pars, &strokes, t).unwrap().text, "6");
    assert_eq!(
        scorecard_cell_content(cell(22, false, false), &pars, &strokes, t).unwrap().text,
        "TOTAL STROKES: 41 (26 Under Par)"
    );
    assert!(scorecard_cell_content(cell(19, false, false), &pars, &strokes, t).is_none());
    let even = ScorecardTotals { out_par: 36, in_par: 36, out_score: 40, in_score: 32 };
    assert_eq!(round_total_string(even), "TOTAL STROKES: 72 (Even Par)");
    let over = ScorecardTotals { out_par: 36, in_par: 36, out_score: 40, in_score: 40 };
    assert_eq!(round_total_string(over), "TOTAL STROKES: 80 (8 Over Par)");
}

#[test]
fn hud_texts() {
    assert_eq!(hole_title(7), "HOLE 7");
    assert_eq!(hole_stats(4, 28), "PAR 4 \u{2022} 28 SPACES");
    assert_eq!(strokes_line(Some(3)), "\u{1F3C6} 3 strokes");
    assert_eq!(strokes_line(None), "\u{1F3C6} 0 strokes");
    let cards = vec![0, 2, 2, 1, 7];
    assert_eq!(count_cards(&cards, 2), 2);
    assert_eq!(card_quantity_label(0, &cards), "SHIELD (1)");
    assert_eq!(card_quantity_label(1, &cards), "BANANA (1)");
    assert_eq!(card_quantity_label(5, &cards), "GOLDEN (2)");
    assert_eq!(controls_visibility(GameStateEnum::AwaitingTurn), (true, false));
    assert_eq!(controls_visibility(GameStateEnum::MarkerPlacement), (false, true));
    assert_eq!(controls_visibility(GameStateEnum::Moving), (false, false));
    assert_eq!(hole_completed_status(3, None), "Completed Hole 3! Well played!");
    assert_eq!(hole_completed_status(3, Some(&vec![])), "Completed Hole 3! Well played! No cards earned.");
    assert_eq!(
        hole_completed_status(4, Some(&vec![0, 2, 1])),
        "Completed Hole 4! Well played! Earned: Guardian Shield, Golden Die, Trickster Banana"
    );
    assert_eq!(roll_status(&vec![3, 5]), "Rolled: 8 [3, 5]");
    assert_eq!(roll_status(&vec![6]), "Rolled: 6 [6]");
    assert_eq!(card_button_look(&vec![], Some(CardType::Shield), CardType::Shield), CardButtonLook::Disabled);
    assert_eq!(card_button_look(&vec![0], Some(CardType::Shield), CardType::Shield), CardButtonLook::Selected);
    assert_eq!(card_button_look(&vec![0, 1], Some(CardType::Shield), CardType::Banana), CardButtonLook::Normal);
    let _ = Scorecard { running_strokes: 0, total_strokes: 0, earned_cards: vec![], cards_earned_this_hole: vec![], strokes_per_hole: vec![] };
}

fn course() -> ActiveCourseTrack {
    let cells = vec![
        TerrainType::TeeBox,
        TerrainType::Fairway,
        TerrainType::Rough,
        TerrainType::Bunker,
        TerrainType::Water,
        TerrainType::OutOfBounds,
        TerrainType::Fairway,
        TerrainType::Green(2),
    ];
    ActiveCourseTrack { total_cells: cells.len() as u32, cells, par: 3 }
}

#[test]
fn board_labels_and_markers() {
    assert_eq!(cell_label(0, TerrainType::TeeBox), "TEE");
    assert_eq!(cell_label(3, TerrainType::Fairway), "3 FW");
    assert_eq!(cell_label(12, TerrainType::Rough), "12 RGH");
    assert_eq!(cell_label(4, TerrainType::Bunker), "4 BNK");
    assert_eq!(cell_label(5, TerrainType::Water), "5 WTR");
    assert_eq!(cell_label(6, TerrainType::OutOfBounds), "6 OB");
    assert_eq!(cell_label(20, TerrainType::Green(3)), "G3");
    assert!(shows_ball(4, 4));
    assert!(!shows_ball(5, 4));
    let wagers = vec![
        WagerToken { card_type: CardType::Banana, owner_id: 1, cell_index: 2 },
        WagerToken { card_type: CardType::Shield, owner_id: 1, cell_index: 2 },
    ];
    assert_eq!(wager_shown_at(&wagers, 2), Some(CardType::Banana));
    assert_eq!(wager_shown_at(&wagers, 3), None);
    assert_eq!(wager_letter(CardType::Shield), "S");
    assert_eq!(wager_letter(CardType::Banana), "B");
    assert_eq!(wager_letter(CardType::GoldenDie), "G");
}

#[test]
fn board_clicks() {
    let c = course();
    let ball = Ball { cell_index: 2, direction: MovementDirection::Forward, origin_cell: 2 };
    assert_eq!(banana_step_for_cell(ball, &c, 2), Some(0));
    assert_eq!(banana_step_for_cell(ball, &c, 5), Some(3));
    assert_eq!(banana_step_for_cell(ball, &c, 7), None);
    let players = vec![(Player { player_id: 5 }, Ball { cell_index: 6, ..ball }), (Player { player_id: 77 }, ball)];
    assert_eq!(find_player_ball(&players, 77), Some(ball));
    assert_eq!(find_player_ball(&players, 8), None);
    let mut selected = Some(CardType::Shield);
    let action = handle_board_click(ClientGameState::BananaChoice, &players, 77, Some(&c), &mut selected, 4);
    assert!(matches!(action, Some(ClientAction::ChooseBananaSlide { step_count: 2 })));
    assert_eq!(selected, Some(CardType::Shield));
    let action = handle_board_click(ClientGameState::MarkerPlacement, &players, 77, Some(&c), &mut selected, 4);
    assert!(matches!(action, Some(ClientAction::DraftCard { card_type: CardType::Shield, cell_index: 4 })));
    assert_eq!(selected, None);
    let action = handle_board_click(ClientGameState::MarkerPlacement, &players, 77, Some(&c), &mut selected, 4);
    assert!(action.is_none());
    let action = handle_board_click(ClientGameState::BananaChoice, &players, 77, None, &mut selected, 4);
    assert!(action.is_none());
}

#[test]
fn sounds() {
    assert_eq!(interaction_sound(ButtonInteraction::Pressed), Some(SoundCue::ButtonClick));
    assert_eq!(interaction_sound(ButtonInteraction::Hovered), Some(SoundCue::ButtonHover));
    assert_eq!(interaction_sound(ButtonInteraction::Idle), None);
    assert_eq!(landing_sound(TerrainType::Green(1)), SoundCue::LandFairway);
    assert_eq!(landing_sound(TerrainType::Water), SoundCue::LandWater);
    let c = course();
    assert_eq!(gameplay_sounds(&ServerUpdate::DiceRollOutcome { roll_values: vec![3] }, Some(&c)), vec![SoundCue::DiceRoll]);
    assert_eq!(gameplay_sounds(&ServerUpdate::SlideTransition { path: vec![1, 3] }, Some(&c)), vec![SoundCue::LandBunker]);
    assert!(gameplay_sounds(&ServerUpdate::SlideTransition { path: vec![1, 30] }, Some(&c)).is_empty());
    assert!(gameplay_sounds(&ServerUpdate::SlideTransition { path: vec![1, 3] }, None).is_empty());
    let w = WagerToken { card_type: CardType::Shield, owner_id: 1, cell_index: 2 };
    assert_eq!(
        gameplay_sounds(&sync(vec![0], GameStateEnum::HoleCompleted, vec![w]), None),
        vec![SoundCue::WagerPlace, SoundCue::HoleComplete]
    );
    assert_eq!(gameplay_sounds(&sync(vec![0], GameStateEnum::MatchCompleted, vec![]), None), vec![SoundCue::MatchComplete]);
    assert!(all_sounds_loaded(&vec![true, true]));
    assert!(!all_sounds_loaded(&vec![true, false]));
}

#[test]
fn packets_and_holes() {
    assert!(packet_within_limit(MAX_PACKET_SIZE));
    assert!(!packet_within_limit(MAX_PACKET_SIZE + 1));
    assert_eq!(CurrentHole::default(), CurrentHole(u8::MAX));
}

#[test]
fn name_labels_are_uppercased() {
    assert_eq!(player_initial("ann"), "A".to_string());
    assert_eq!(player_initial("zoe"), "Z".to_string());
    assert_eq!(player_initial(""), "?".to_string());
    assert_eq!(player_name_label("Ann"), "ANN".to_string());
    assert_eq!(player_name_label(""), "".to_string());
}
