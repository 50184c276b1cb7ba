use client::banana::{apply_banana_slide, banana_slide_landing, handle_choose_banana_slide, SlideDraws};
use client::messages::{CardType, ClientAction, GameStateEnum, ServerUpdate, WagerToken};
use client::server::{advance_hole_timer, handle_action, leave_room, serve_client_action, start_practice};
use client::state::OfflineServerState;
use client::terrain::{ActiveCourseTrack, LandingRule, MovementDirection, TerrainResolution, TerrainType};
use client::wager::{handle_draft_card, handle_skip_placement};

fn course() -> ActiveCourseTrack {
    // 0 tee, 1..=3 fairway, 4 rough, 5 fairway, 6 water, 7 fairway, 8 out of bounds, 9 fairway, 10..=11 green
    let cells = vec![
        TerrainType::TeeBox,
        TerrainType::Fairway,
        TerrainType::Fairway,
        TerrainType::Fairway,
        TerrainType::Rough,
        TerrainType::Fairway,
        TerrainType::Water,
        TerrainType::Fairway,
        TerrainType::OutOfBounds,
        TerrainType::Fairway,
        TerrainType::Green(1),
        TerrainType::Green(2),
    ];
    ActiveCourseTrack { total_cells: cells.len() as u32, cells, par: 4 }
}

fn alert_text(u: &ServerUpdate) -> String {
    match u {
        ServerUpdate::AlertTriggered { alert_message } => alert_message.clone(),
        _ => panic!("not an alert"),
    }
}

fn sync_parts(u: &ServerUpdate) -> (u64, GameStateEnum, u8, Vec<u32>, Vec<WagerToken>, u16, Vec<u8>) {
    match u {
        ServerUpdate::StateSync { sequence, game_state, current_hole, player_positions, placed_wagers, player_scores, .. } => (
            *sequence,
            *game_state,
            *current_hole,
            player_positions.clone(),
            placed_wagers.clone(),
            player_scores[0].running_strokes,
            player_scores[0].earned_cards.clone(),
        ),
        _ => panic!("not a state sync"),
    }
}

fn wager_state(inventory: Vec<u8>) -> OfflineServerState {
    let mut s = OfflineServerState::default();
    s.game_state = GameStateEnum::MarkerPlacement;
    s.is_wager_mode = true;
    s.inventory = inventory;
    s
}

#[test]
fn default_state_is_a_fresh_match() {
    let s = OfflineServerState::default();
    assert_eq!(s.current_hole, 1);
    assert_eq!(s.player_position, 0);
    assert_eq!(s.game_state, GameStateEnum::AwaitingTurn);
    assert_eq!(s.active_player_id, 1234);
    assert_eq!(s.course, "green");
    assert_eq!(s.player_name, "David");
    assert!(s.inventory.is_empty() && s.placed_wagers.is_empty());
    assert!(!s.is_initialized && s.hole_completed_timer_ms.is_none());
}

#[test]
fn draft_places_shield_on_hazard() {
    let c = course();
    let mut s = wager_state(vec![1, 0, 0]);
    let updates = handle_draft_card(&mut s, CardType::Shield, 4, &c);
    assert_eq!(updates.len(), 2);
    assert_eq!(alert_text(&updates[0]), "Placed Guardian Shield wager!");
    assert_eq!(s.inventory, vec![1, 0]);
    assert_eq!(s.placed_wagers, vec![WagerToken { card_type: CardType::Shield, owner_id: 1234, cell_index: 4 }]);
    assert_eq!(s.sequence, 1);
    assert_eq!(s.game_state, GameStateEnum::MarkerPlacement);
    let (seq, state, _, _, wagers, _, hand) = sync_parts(&updates[1]);
    assert_eq!((seq, state), (1, GameStateEnum::MarkerPlacement));
    assert_eq!(wagers.len(), 1);
    assert_eq!(hand, vec![1, 0]);
}

#[test]
fn last_card_placed_ends_placement() {
    let c = course();
    let mut s = wager_state(vec![2]);
    let updates = handle_draft_card(&mut s, CardType::GoldenDie, 3, &c);
    assert_eq!(alert_text(&updates[0]), "Placed Golden Die wager!");
    assert!(s.inventory.is_empty());
    assert_eq!(s.game_state, GameStateEnum::AwaitingTurn);
}

#[test]
fn draft_rejections_leave_state_unchanged() {
    let c = course();
    let cases: Vec<(CardType, u32, &str)> = vec![
        (CardType::Shield, 0, "Cannot place wager on Tee Box!"),
        (CardType::Banana, 10, "Cannot place wager on Green tiles!"),
        (CardType::Shield, 2, "Guardian Shield must be placed on a Hazard!"),
        (CardType::Banana, 4, "Trickster Banana must be placed on Fairway!"),
        (CardType::GoldenDie, 6, "Golden Die must be placed on Fairway!"),
        (CardType::Banana, 4 + 0, "Trickster Banana must be placed on Fairway!"),
        (CardType::Banana, 30, "Trickster Banana must be placed on Fairway!"),
    ];
    for (card, cell, msg) in cases {
        let mut s = wager_state(vec![0, 1, 2]);
        let updates = handle_draft_card(&mut s, card, cell, &c);
        assert_eq!(alert_text(&updates[0]), msg);
        assert_eq!(s.inventory, vec![0, 1, 2]);
        assert!(s.placed_wagers.is_empty());
        assert_eq!(s.sequence, 0);
    }
}

#[test]
fn banana_cannot_stand_four_before_out_of_bounds() {
    let c = course();
    let mut s = wager_state(vec![1]);
    // cell 4 + 4 = 8 is out of bounds; cell 4 is rough, so use fairway cell... none: build a course for it
    let mut cells = c.cells.clone();
    cells[4] = TerrainType::Fairway;
    let c2 = ActiveCourseTrack { cells, total_cells: c.total_cells, par: c.par };
    let updates = handle_draft_card(&mut s, CardType::Banana, 4, &c2);
    assert_eq!(alert_text(&updates[0]), "Trickster Banana cannot be placed 4 spaces before OB!");
    assert_eq!(s.inventory, vec![1]);
}

#[test]
fn one_wager_per_tile() {
    let c = course();
    let mut s = wager_state(vec![1, 1]);
    handle_draft_card(&mut s, CardType::Banana, 2, &c);
    let updates = handle_draft_card(&mut s, CardType::Banana, 2, &c);
    assert_eq!(alert_text(&updates[0]), "Tile already has a wager token placed!");
    assert_eq!(s.placed_wagers.len(), 1);
    assert_eq!(s.inventory, vec![1]);
}

#[test]
fn draft_without_card_in_hand() {
    let c = course();
    let mut s = wager_state(vec![0]);
    let updates = handle_draft_card(&mut s, CardType::GoldenDie, 2, &c);
    assert_eq!(alert_text(&updates[0]), "No card of that type in hand!");
    assert_eq!(s.inventory, vec![0]);
    assert_eq!(s.sequence, 0);
}

#[test]
fn draft_takes_first_matching_card() {
    let c = course();
    let mut s = wager_state(vec![2, 1, 2, 1]);
    handle_draft_card(&mut s, CardType::Banana, 2, &c);
    assert_eq!(s.inventory, vec![2, 2, 1]);
    assert_eq!(s.inventory.len() + s.placed_wagers.len(), 4);
}

#[test]
fn skip_placement_awaits_turn() {
    let mut s = wager_state(vec![0]);
    s.sequence = 7;
    let updates = handle_skip_placement(&mut s);
    assert_eq!(s.game_state, GameStateEnum::AwaitingTurn);
    assert_eq!(s.sequence, 8);
    assert_eq!(updates.len(), 1);
    assert_eq!(sync_parts(&updates[0]).0, 8);
}

fn banana_state(position: u32) -> OfflineServerState {
    let mut s = OfflineServerState::default();
    s.game_state = GameStateEnum::BananaChoice;
    s.player_position = position;
    s.strokes = 2;
    s
}

fn draws() -> SlideDraws {
    SlideDraws { shield_draw: 1, par_coin: true, par_draw: 0, banana_draw: 2 }
}

#[test]
fn slide_outside_banana_choice_only_reports() {
    let c = course();
    let mut s = OfflineServerState::default();
    s.cards_earned_this_hole.push(2).unwrap();
    assert_eq!(banana_slide_landing(&s, 2, &c), None);
    let updates = apply_banana_slide(&mut s, 2, &c, TerrainResolution { final_cell: 9, penalty_strokes: 0, completed_hole: false }, draws());
    assert_eq!(updates.len(), 1);
    assert!(s.cards_earned_this_hole.is_empty());
    assert_eq!(s.player_position, 0);
    assert_eq!(s.sequence, 0);
}

#[test]
fn slide_landing_query_caps_steps_at_four() {
    let c = course();
    let s = banana_state(1);
    assert_eq!(
        banana_slide_landing(&s, 9, &c),
        Some(LandingRule::Standard { target_cell: 5, origin_cell: 1, terrain: TerrainType::Fairway })
    );
}

#[test]
fn long_slide_goes_as_a_slide_of_four() {
    let c = course();
    let landing = TerrainResolution { final_cell: 5, penalty_strokes: 0, completed_hole: false };
    let wager = WagerToken { card_type: CardType::GoldenDie, owner_id: 1234, cell_index: 5 };
    let mut a = banana_state(1);
    a.placed_wagers.push(wager);
    let mut b = banana_state(1);
    b.placed_wagers.push(wager);
    let ua = apply_banana_slide(&mut a, 9, &c, landing, draws());
    let ub = apply_banana_slide(&mut b, 4, &c, landing, draws());
    assert_eq!(ua.len(), ub.len());
    assert_eq!(alert_text(&ua[0]), alert_text(&ub[0]));
    assert_eq!(sync_parts(&ua[1]), sync_parts(&ub[1]));
    assert_eq!((a.player_position, a.strokes, a.inventory.clone()), (b.player_position, b.strokes, b.inventory.clone()));
}

#[test]
fn slide_keeps_held_cards_in_front() {
    let c = course();
    let mut s = banana_state(1);
    s.inventory = vec![0, 1];
    s.placed_wagers.push(WagerToken { card_type: CardType::Banana, owner_id: 1234, cell_index: 2 });
    let landing = TerrainResolution { final_cell: 2, penalty_strokes: 0, completed_hole: false };
    apply_banana_slide(&mut s, 1, &c, landing, draws());
    assert_eq!(s.inventory, vec![0, 1, 2]);
}

#[test]
fn plain_slide_awaits_next_turn() {
    let c = course();
    let mut s = banana_state(1);
    let landing = TerrainResolution { final_cell: 3, penalty_strokes: 1, completed_hole: false };
    let updates = apply_banana_slide(&mut s, 2, &c, landing, draws());
    assert_eq!(updates.len(), 1);
    assert_eq!(s.player_position, 3);
    assert_eq!(s.strokes, 3);
    assert_eq!(s.game_state, GameStateEnum::AwaitingTurn);
    assert_eq!(s.sequence, 1);
}

#[test]
fn golden_die_on_landing_cell() {
    let c = course();
    let mut s = banana_state(1);
    s.placed_wagers.push(WagerToken { card_type: CardType::GoldenDie, owner_id: 1234, cell_index: 3 });
    s.strokes = 5;
    let landing = TerrainResolution { final_cell: 3, penalty_strokes: 0, completed_hole: false };
    let updates = apply_banana_slide(&mut s, 2, &c, landing, draws());
    assert_eq!(alert_text(&updates[0]), "Triggered Golden Die! -2 Strokes, earned Golden Die card.");
    assert_eq!(s.strokes, 3);
    assert_eq!(s.inventory, vec![2]);
    assert_eq!(s.game_state, GameStateEnum::AwaitingTurn);
}

#[test]
fn shield_turns_hazard_into_fairway_and_draws() {
    let c = course();
    let mut s = banana_state(2);
    s.placed_wagers.push(WagerToken { card_type: CardType::Shield, owner_id: 1234, cell_index: 4 });
    assert_eq!(
        banana_slide_landing(&s, 2, &c),
        Some(LandingRule::Standard { target_cell: 4, origin_cell: 2, terrain: TerrainType::Fairway })
    );
    let landing = TerrainResolution { final_cell: 4, penalty_strokes: 0, completed_hole: false };
    let updates = apply_banana_slide(&mut s, 2, &c, landing, draws());
    assert_eq!(alert_text(&updates[0]), "Shield triggered! Drew Banana.");
    assert_eq!(s.inventory, vec![1]);
}

#[test]
fn banana_keeps_the_choice_going() {
    let c = course();
    let mut s = banana_state(1);
    s.placed_wagers.push(WagerToken { card_type: CardType::Banana, owner_id: 1234, cell_index: 2 });
    let landing = TerrainResolution { final_cell: 2, penalty_strokes: 0, completed_hole: false };
    let updates = apply_banana_slide(&mut s, 1, &c, landing, draws());
    assert_eq!(alert_text(&updates[0]), "Banana triggered! Drew Golden Die, slide 0-4.");
    assert_eq!(s.game_state, GameStateEnum::BananaChoice);
    assert_eq!(s.inventory, vec![2]);
}

#[test]
fn holing_out_records_strokes_and_par_cards() {
    let c = course();
    // two under par: the coin decides banana (1) over golden die (2)
    let mut s = banana_state(9);
    let landing = TerrainResolution { final_cell: 11, penalty_strokes: 0, completed_hole: true };
    let updates = apply_banana_slide(&mut s, 2, &c, landing, draws());
    assert_eq!(s.game_state, GameStateEnum::HoleCompleted);
    assert_eq!(s.hole_completed_timer_ms, Some(0));
    assert_eq!(s.strokes_per_hole.as_slice(), &[2]);
    assert_eq!(s.inventory, vec![1]);
    assert_eq!(s.cards_earned_this_hole.as_slice(), &[1]);
    let (_, state, _, _, _, running, _) = sync_parts(&updates[updates.len() - 1]);
    assert_eq!((state, running), (GameStateEnum::HoleCompleted, 2));
}

#[test]
fn ace_earns_golden_die_and_bogey_earns_nothing() {
    let c = course();
    let mut s = banana_state(9);
    s.strokes = 1;
    apply_banana_slide(&mut s, 2, &c, TerrainResolution { final_cell: 11, penalty_strokes: 0, completed_hole: true }, draws());
    assert_eq!(s.inventory, vec![2]);
    let mut t = banana_state(9);
    t.strokes = 5;
    apply_banana_slide(&mut t, 2, &c, TerrainResolution { final_cell: 11, penalty_strokes: 0, completed_hole: true }, draws());
    assert!(t.inventory.is_empty());
    assert!(t.cards_earned_this_hole.is_empty());
    let mut u = banana_state(9);
    u.strokes = 3;
    apply_banana_slide(&mut u, 2, &c, TerrainResolution { final_cell: 11, penalty_strokes: 0, completed_hole: true }, draws());
    assert_eq!(u.inventory, vec![0]);
}

#[test]
fn full_hand_gets_no_more_cards() {
    let c = course();
    let mut s = banana_state(1);
    s.inventory = vec![0; 16];
    s.placed_wagers.push(WagerToken { card_type: CardType::GoldenDie, owner_id: 1234, cell_index: 3 });
    apply_banana_slide(&mut s, 2, &c, TerrainResolution { final_cell: 3, penalty_strokes: 0, completed_hole: false }, draws());
    assert_eq!(s.inventory.len(), 16);
}

#[test]
fn random_slide_draws_stay_in_range() {
    let c = course();
    for _ in 0..50 {
        let mut s = banana_state(2);
        s.placed_wagers.push(WagerToken { card_type: CardType::Shield, owner_id: 1234, cell_index: 4 });
        handle_choose_banana_slide(&mut s, 2, &c, TerrainResolution { final_cell: 4, penalty_strokes: 0, completed_hole: false });
        assert_eq!(s.inventory.len(), 1);
        assert!(s.inventory[0] <= 2);
    }
}

#[test]
fn hole_timer_waits_three_seconds() {
    let mut s = OfflineServerState::default();
    s.game_state = GameStateEnum::HoleCompleted;
    s.hole_completed_timer_ms = Some(0);
    assert!(advance_hole_timer(&mut s, 1000).is_none());
    assert_eq!(s.hole_completed_timer_ms, Some(1000));
    assert!(advance_hole_timer(&mut s, 1999).is_none());
    s.placed_wagers.push(WagerToken { card_type: CardType::Shield, owner_id: 1234, cell_index: 4 });
    s.player_position = 11;
    s.strokes = 4;
    let update = advance_hole_timer(&mut s, 1).expect("next hole");
    assert_eq!(s.current_hole, 2);
    assert_eq!(s.player_position, 0);
    assert_eq!(s.strokes, 0);
    assert!(s.placed_wagers.is_empty());
    assert_eq!(s.game_state, GameStateEnum::AwaitingTurn);
    assert_eq!(s.hole_completed_timer_ms, None);
    assert_eq!(s.sequence, 1);
    let (seq, state, hole, positions, _, running, _) = sync_parts(&update);
    assert_eq!((seq, state, hole, positions, running), (1, GameStateEnum::AwaitingTurn, 2, vec![0], 0));
}

#[test]
fn next_hole_in_wager_mode_places_markers() {
    let mut s = OfflineServerState::default();
    s.game_state = GameStateEnum::HoleCompleted;
    s.is_wager_mode = true;
    s.inventory = vec![1];
    advance_hole_timer(&mut s, 5000).expect("next hole");
    assert_eq!(s.game_state, GameStateEnum::MarkerPlacement);
}

#[test]
fn match_completes_after_hole_eighteen() {
    let mut s = OfflineServerState::default();
    s.game_state = GameStateEnum::HoleCompleted;
    s.current_hole = 18;
    s.strokes = 3;
    let update = advance_hole_timer(&mut s, 3000).expect("end of match");
    assert_eq!(s.current_hole, 19);
    assert_eq!(s.game_state, GameStateEnum::MatchCompleted);
    assert_eq!(s.strokes, 3);
    assert_eq!(sync_parts(&update).1, GameStateEnum::MatchCompleted);
}

#[test]
fn timer_cleared_outside_completed_hole() {
    let mut s = OfflineServerState::default();
    s.hole_completed_timer_ms = Some(500);
    assert!(advance_hole_timer(&mut s, 10).is_none());
    assert_eq!(s.hole_completed_timer_ms, None);
}

#[test]
fn start_and_leave_reset_the_match() {
    let mut s = OfflineServerState::default();
    s.strokes = 9;
    s.sequence = 40;
    let update = start_practice(&mut s, "Ann", "blue", true);
    assert_eq!(s.course, "blue");
    assert_eq!(s.player_name, "Ann");
    assert!(s.is_wager_mode && s.is_initialized);
    assert_eq!(s.strokes, 0);
    assert_eq!(sync_parts(&update).0, 0);
    let update = leave_room(&mut s);
    assert_eq!(s.course, "green");
    assert!(!s.is_initialized);
    assert_eq!(sync_parts(&update).3, vec![0]);
}

#[test]
fn serving_actions() {
    let c = course();
    let none = TerrainResolution { final_cell: 0, penalty_strokes: 0, completed_hole: false };
    let mut s = wager_state(vec![0]);
    // an action the rules do not allow now changes nothing
    let out = serve_client_action(&mut s, &ClientAction::SkipPlacement, &c, false, none).unwrap();
    assert!(out.is_empty());
    assert_eq!(s.game_state, GameStateEnum::MarkerPlacement);
    let out = serve_client_action(&mut s, &ClientAction::SkipPlacement, &c, true, none).unwrap();
    assert_eq!(out.len(), 1);
    assert_eq!(s.game_state, GameStateEnum::AwaitingTurn);
    assert!(serve_client_action(&mut s, &ClientAction::RollDice { dice_count: 2 }, &c, true, none).is_none());
    let start = ClientAction::StartPractice { nickname: "Bo".to_string(), course: "green".to_string(), is_wager_mode: false };
    let out = serve_client_action(&mut s, &start, &c, false, none).unwrap();
    assert_eq!(out.len(), 1);
    assert_eq!(s.player_name, "Bo");
    assert!(s.is_initialized);
    let out = handle_action(&mut s, &ClientAction::LeaveRoom, &c, none).unwrap();
    assert!(out.is_empty());
    assert_eq!(s.player_name, "Bo");
}

#[test]
fn unserved_action_at_sequence_limit_is_ignored() {
    let c = course();
    let none = TerrainResolution { final_cell: 0, penalty_strokes: 0, completed_hole: false };
    let mut s = wager_state(vec![0]);
    s.sequence = u64::MAX;
    let out = serve_client_action(&mut s, &ClientAction::SkipPlacement, &c, false, none).unwrap();
    assert!(out.is_empty());
    assert_eq!(s.sequence, u64::MAX);
    assert_eq!(s.game_state, GameStateEnum::MarkerPlacement);
}

#[test]
fn scorecard_totals_saturate() {
    let mut s = OfflineServerState::default();
    s.strokes = 70000;
    s.strokes_per_hole.push(4).unwrap();
    s.strokes_per_hole.push(5).unwrap();
    s.inventory = (0..20).map(|i| (i % 3) as u8).collect();
    let card = s.build_scorecard();
    assert_eq!(card.running_strokes, u16::MAX);
    assert_eq!(card.total_strokes, u16::MAX);
    assert_eq!(card.earned_cards.len(), 16);
    assert_eq!(card.strokes_per_hole, vec![4, 5]);
    s.strokes = 3;
    let card = s.build_scorecard();
    assert_eq!((card.running_strokes, card.total_strokes), (3, 12));
}

#[test]
fn state_sync_reports_one_player() {
    let mut s = OfflineServerState::default();
    s.player_position = 6;
    s.placed_wagers.push(WagerToken { card_type: CardType::Banana, owner_id: 1234, cell_index: 3 });
    match s.state_sync() {
        ServerUpdate::StateSync { active_player_id, player_positions, player_scores, placed_wagers, current_hole, .. } => {
            assert_eq!(active_player_id, 1234);
            assert_eq!(player_positions, vec![6]);
            assert_eq!(player_scores.len(), 1);
            assert_eq!(placed_wagers.len(), 1);
            assert_eq!(current_hole, 1);
        }
        _ => panic!("expected a state sync"),
    }
    let _ = MovementDirection::Forward;
}
