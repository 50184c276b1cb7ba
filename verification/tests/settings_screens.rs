use client::messages::{CardType, ClientAction};
use client::replication::ClientGameState;
use client::settings::{
    exit_gameplay, handle_landing_click, handle_nickname_input, handle_setup_click, handle_summary_click, is_control,
    match_layout, nickname_field, roll_action, screen_visibility, setup_highlights, ClientScreenState, GameMode,
    GameSettings, LandingButton, ScreenVisibility, SelectedWagerCard, SetupButton, SummaryButton,
};

#[test]
fn default_settings() {
    let s = GameSettings::default();
    assert_eq!(s.nickname, "David");
    assert_eq!(s.course, "green");
    assert_eq!(s.mode, GameMode::Standard);
    assert!(!s.is_input_focused);
    assert_eq!(ClientScreenState::default(), ClientScreenState::Landing);
    assert_eq!(SelectedWagerCard::default(), SelectedWagerCard(None));
}

#[test]
fn setup_clicks() {
    let mut s = GameSettings::default();
    let out = handle_setup_click(&mut s, SetupButton::NicknameInput);
    assert!(s.is_input_focused && out.next_screen.is_none() && out.action.is_none());
    handle_setup_click(&mut s, SetupButton::CourseBlue);
    assert_eq!(s.course, "blue");
    assert!(!s.is_input_focused);
    handle_setup_click(&mut s, SetupButton::ModeWagerCards);
    assert_eq!(s.mode, GameMode::WagerCards);
    let out = handle_setup_click(&mut s, SetupButton::Play);
    assert_eq!(out.next_screen, Some(ClientScreenState::Gameplay));
    match out.action {
        Some(ClientAction::StartPractice { nickname, course, is_wager_mode }) => {
            assert_eq!(nickname, "David");
            assert_eq!(course, "blue");
            assert!(is_wager_mode);
        }
        _ => panic!("expected a start"),
    }
    let out = handle_setup_click(&mut s, SetupButton::Cancel);
    assert_eq!(out.next_screen, Some(ClientScreenState::Landing));
    handle_setup_click(&mut s, SetupButton::CourseGreen);
    handle_setup_click(&mut s, SetupButton::ModeStandard);
    assert_eq!((s.course.as_str(), s.mode), ("green", GameMode::Standard));
}

#[test]
fn nickname_typing() {
    let mut s = GameSettings::default();
    handle_nickname_input(&mut s, false, &vec!['x']);
    assert_eq!(s.nickname, "David");
    s.is_input_focused = true;
    handle_nickname_input(&mut s, true, &vec!['x']);
    assert_eq!(s.nickname, "Davi");
    handle_nickname_input(&mut s, false, &vec!['d', '\n', '\u{7f}', '!']);
    assert_eq!(s.nickname, "David!");
    handle_nickname_input(&mut s, false, &"abcdefghijklmnop".chars().collect());
    assert_eq!(s.nickname, "David!abcdefghij");
    assert_eq!(s.nickname.len(), 16);
    s.nickname = String::new();
    handle_nickname_input(&mut s, true, &vec![]);
    assert_eq!(s.nickname, "");
    handle_nickname_input(&mut s, false, &vec!['\u{e9}'; 10]);
    assert_eq!(s.nickname.chars().count(), 8);
    assert!(is_control('\u{0}') && is_control('\u{9f}') && !is_control('a') && !is_control('\u{a0}'));
}

#[test]
fn other_screens() {
    let (screen, text) = handle_landing_click(LandingButton::SoloPractice);
    assert_eq!((screen, text), (Some(ClientScreenState::SoloSetup), None));
    let (screen, text) = handle_landing_click(LandingButton::NotReady);
    assert_eq!((screen, text.as_deref()), (None, Some("Under development!")));
    let mut s = GameSettings::default();
    s.nickname = "Zed".to_string();
    let out = exit_gameplay(&mut s);
    assert_eq!(s.nickname, "David");
    assert!(matches!(out.action, Some(ClientAction::LeaveRoom)));
    assert_eq!(out.next_screen, Some(ClientScreenState::Landing));
    let out = handle_summary_click(&s, SummaryButton::PlayAgain);
    assert!(matches!(out.action, Some(ClientAction::StartPractice { is_wager_mode: false, .. })));
    assert!(out.next_screen.is_none());
    let out = handle_summary_click(&s, SummaryButton::MainMenu);
    assert!(matches!(out.action, Some(ClientAction::LeaveRoom)));
    assert!(matches!(roll_action(true), ClientAction::RollDice { dice_count: 2 }));
    assert!(matches!(roll_action(false), ClientAction::RollDice { dice_count: 1 }));
    let _ = CardType::Shield;
}

#[test]
fn visibility_and_highlights() {
    assert_eq!(
        screen_visibility(ClientScreenState::Gameplay, GameMode::WagerCards),
        ScreenVisibility { landing: false, setup: false, gameplay: true, wager_panel: Some(true) }
    );
    assert_eq!(
        screen_visibility(ClientScreenState::Landing, GameMode::WagerCards),
        ScreenVisibility { landing: true, setup: false, gameplay: false, wager_panel: None }
    );
    assert!(match_layout(ClientGameState::MatchCompleted).summary);
    assert!(!match_layout(ClientGameState::MatchCompleted).board);
    assert!(match_layout(ClientGameState::Moving).board);
    assert_eq!(match_layout(ClientGameState::Moving).bottom_bar, None);
    let mut s = GameSettings::default();
    let h = setup_highlights(&s);
    assert!(h.course_green && !h.course_blue && h.mode_standard && !h.mode_wager && !h.nickname_focused);
    assert_eq!(nickname_field(&s), "David");
    s.is_input_focused = true;
    assert_eq!(nickname_field(&s), "David|");
    s.nickname.clear();
    assert_eq!(nickname_field(&s), "|");
    s.is_input_focused = false;
    assert_eq!(nickname_field(&s), "Type nickname...");
}
