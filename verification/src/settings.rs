//! The player's match settings and the screens of the client: the landing
//! screen, the solo setup screen with its nickname field, and the gameplay
//! screen with its buttons.
use vstd::prelude::*;
use crate::messages::{CardType, ClientAction};
use crate::replication::ClientGameState;

verus! {

/// The longest nickname, in bytes of UTF-8, that typing can produce.
pub const MAX_NICKNAME_BYTES: usize = 16;

/// Whether matches are played with wager cards.
#[derive(Debug, Clone, Copy, PartialEq, Eq, Structural)]
pub enum GameMode {
    Standard,
    WagerCards,
}

/// The screens of the client.
#[derive(Debug, Clone, Copy, PartialEq, Eq, Structural)]
pub enum ClientScreenState {
    Landing,
    SoloSetup,
    Gameplay,
}

impl Default for ClientScreenState {
    fn default() -> (screen: Self)
        ensures
            screen == ClientScreenState::Landing,
    {
        ClientScreenState::Landing
    }
}

/// The hole the client shows.
#[derive(Debug, Clone, Copy, PartialEq, Eq, Structural)]
pub struct CurrentHole(pub u8);

impl Default for CurrentHole {
    /// The largest `u8`, a hole no update reports, so that the first update
    /// always counts as a change of hole.
    fn default() -> (hole: Self)
        ensures
            hole.0 == u8::MAX,
    {
        CurrentHole(u8::MAX)
    }
}

/// The wager card chosen for placement, if any.
#[derive(Debug, Clone, Copy, PartialEq, Eq, Structural)]
pub struct SelectedWagerCard(pub Option<CardType>);

impl Default for SelectedWagerCard {
    fn default() -> (selected: Self)
        ensures
            selected.0 is None,
    {
        SelectedWagerCard(None)
    }
}

/// The settings a match is started with.
#[derive(Debug, Clone)]
pub struct GameSettings {
    pub nickname: String,
    pub course: String,
    pub mode: GameMode,
    pub is_input_focused: bool,
}

/// The contents of [`GameSettings`].
pub struct GameSettingsView {
    pub nickname: Seq<char>,
    pub course: Seq<char>,
    pub mode: GameMode,
    pub is_input_focused: bool,
}

impl View for GameSettings {
    type V = GameSettingsView;

    open spec fn view(&self) -> GameSettingsView {
        GameSettingsView {
            nickname: self.nickname@,
            course: self.course@,
            mode: self.mode,
            is_input_focused: self.is_input_focused,
        }
    }
}

/// The settings before the player changes any: nickname "David", the green
/// course, standard mode, the nickname field not focused.
pub open spec fn default_settings_view() -> GameSettingsView {
    GameSettingsView {
        nickname: "David"@,
        course: "green"@,
        mode: GameMode::Standard,
        is_input_focused: false,
    }
}

impl Default for GameSettings {
    fn default() -> (settings: Self)
        ensures
            settings@ == default_settings_view(),
    {
        GameSettings {
            nickname: String::from_str("David"),
            course: String::from_str("green"),
            mode: GameMode::Standard,
            is_input_focused: false,
        }
    }
}

/// The action that starts a practice match with these settings.
pub open spec fn start_action_matches(action: ClientAction, settings: GameSettingsView) -> bool {
    action matches ClientAction::StartPractice { nickname, course, is_wager_mode } && nickname@
        == settings.nickname && course@ == settings.course && is_wager_mode == (settings.mode
        == GameMode::WagerCards)
}

/// Builds the action that starts a practice match with `settings`.
pub fn start_practice_action(settings: &GameSettings) -> (action: ClientAction)
    ensures
        start_action_matches(action, settings@),
{
    ClientAction::StartPractice {
        nickname: settings.nickname.clone(),
        course: settings.course.clone(),
        is_wager_mode: settings.mode == GameMode::WagerCards,
    }
}

/// The buttons of the solo setup screen.
#[derive(Debug, Clone, Copy, PartialEq, Eq, Structural)]
pub enum SetupButton {
    CourseGreen,
    CourseBlue,
    ModeStandard,
    ModeWagerCards,
    NicknameInput,
    Cancel,
    Play,
}

/// What a click asks of the client: a screen to go to and an action to send.
#[derive(Debug, Clone)]
pub struct ClickOutcome {
    pub next_screen: Option<ClientScreenState>,
    pub action: Option<ClientAction>,
}

/// The settings after `button` is clicked on the setup screen: a course or
/// a mode is chosen, the nickname field gains focus, and every other button
/// takes the focus away.
pub open spec fn settings_after_setup_click(s: GameSettingsView, button: SetupButton) -> GameSettingsView {
    match button {
        SetupButton::CourseGreen => GameSettingsView { course: "green"@, is_input_focused: false, ..s },
        SetupButton::CourseBlue => GameSettingsView { course: "blue"@, is_input_focused: false, ..s },
        SetupButton::ModeStandard => GameSettingsView {
            mode: GameMode::Standard,
            is_input_focused: false,
            ..s
        },
        SetupButton::ModeWagerCards => GameSettingsView {
            mode: GameMode::WagerCards,
            is_input_focused: false,
            ..s
        },
        SetupButton::NicknameInput => GameSettingsView { is_input_focused: true, ..s },
        SetupButton::Cancel => GameSettingsView { is_input_focused: false, ..s },
        SetupButton::Play => GameSettingsView { is_input_focused: false, ..s },
    }
}

/// Handles a click on the setup screen. Cancel goes back to the landing
/// screen; Play starts a practice match with the settings and goes to the
/// gameplay screen.
pub fn handle_setup_click(settings: &mut GameSettings, button: SetupButton) -> (outcome: ClickOutcome)
    ensures
        final(settings)@ == settings_after_setup_click(old(settings)@, button),
        button == SetupButton::Cancel ==> outcome.next_screen == Some(ClientScreenState::Landing)
            && outcome.action is None,
        button == SetupButton::Play ==> outcome.next_screen == Some(ClientScreenState::Gameplay)
            && (outcome.action matches Some(a) && start_action_matches(a, final(settings)@)),
        button != SetupButton::Cancel && button != SetupButton::Play ==> outcome.next_screen is None
            && outcome.action is None,
{
    match button {
        SetupButton::CourseGreen => {
            settings.course = String::from_str("green");
            settings.is_input_focused = false;
            ClickOutcome { next_screen: None, action: None }
        },
        SetupButton::CourseBlue => {
            settings.course = String::from_str("blue");
            settings.is_input_focused = false;
            ClickOutcome { next_screen: None, action: None }
        },
        SetupButton::ModeStandard => {
            settings.mode = GameMode::Standard;
            settings.is_input_focused = false;
            ClickOutcome { next_screen: None, action: None }
        },
        SetupButton::ModeWagerCards => {
            settings.mode = GameMode::WagerCards;
            settings.is_input_focused = false;
            ClickOutcome { next_screen: None, action: None }
        },
        SetupButton::NicknameInput => {
            settings.is_input_focused = true;
            ClickOutcome { next_screen: None, action: None }
        },
        SetupButton::Cancel => {
            settings.is_input_focused = false;
            ClickOutcome { next_screen: Some(ClientScreenState::Landing), action: None }
        },
        SetupButton::Play => {
            settings.is_input_focused = false;
            let action = start_practice_action(settings);
            ClickOutcome { next_screen: Some(ClientScreenState::Gameplay), action: Some(action) }
        },
    }
}

/// Whether a character is a control character (general category Cc).
pub open spec fn is_control_char(c: char) -> bool {
    (c as u32) <= 0x1F || (0x7F <= (c as u32) && (c as u32) <= 0x9F)
}

/// `char::is_control`: whether `c` is a control character.
pub fn is_control(c: char) -> (control: bool)
    ensures
        control == is_control_char(c),
{
    let code = c as u32;
    code <= 0x1F || (0x7F <= code && code <= 0x9F)
}

/// `String::push`: appends `c` to `text`.
#[verifier::external_body]
fn string_push(text: &mut String, c: char)
    ensures
        final(text)@ == old(text)@.push(c),
{
    text.push(c)
}

/// `String::pop`: removes the last character of `text`, if any.
#[verifier::external_body]
fn string_pop(text: &mut String) -> (last: Option<char>)
    ensures
        old(text)@.len() == 0 ==> last is None && final(text)@ == old(text)@,
        old(text)@.len() > 0 ==> last == Some(old(text)@.last()) && final(text)@ == old(text)@.drop_last(),
{
    text.pop()
}

/// The nickname after `typed` is typed into it: each character that is not
/// a control character is appended while the nickname is shorter than the
/// longest allowed (in bytes of UTF-8, counted as a `usize`).
pub open spec fn nickname_after_typing(nickname: Seq<char>, typed: Seq<char>) -> Seq<char>
    decreases typed.len(),
{
    if typed.len() == 0 {
        nickname
    } else {
        let before = nickname_after_typing(nickname, typed.drop_last());
        let c = typed.last();
        if !is_control_char(c) && (vstd::utf8::encode_utf8(before).len() as usize) < MAX_NICKNAME_BYTES {
            before.push(c)
        } else {
            before
        }
    }
}

/// Applies keyboard input to the nickname field: nothing happens unless it
/// has focus; Backspace removes the last character (and the typed
/// characters are ignored); otherwise the typed characters are added.
pub fn handle_nickname_input(settings: &mut GameSettings, backspace: bool, typed: &Vec<char>)
    ensures
        !old(settings).is_input_focused ==> final(settings)@ == old(settings)@,
        old(settings).is_input_focused && backspace ==> final(settings)@ == (GameSettingsView {
            nickname: if old(settings)@.nickname.len() == 0 {
                old(settings)@.nickname
            } else {
                old(settings)@.nickname.drop_last()
            },
            ..old(settings)@
        }),
        old(settings).is_input_focused && !backspace ==> final(settings)@ == (GameSettingsView {
            nickname: nickname_after_typing(old(settings)@.nickname, typed@),
            ..old(settings)@
        }),
{
    if !settings.is_input_focused {
        return;
    }
    if backspace {
        let _ = string_pop(&mut settings.nickname);
        return;
    }
    let n = typed.len();
    let mut i: usize = 0;
    let ghost start = settings@.nickname;
    while i < n
        invariant
            n == typed@.len(),
            i <= n,
            settings@.nickname == nickname_after_typing(start, typed@.take(i as int)),
            settings@.course == old(settings)@.course,
            settings@.mode == old(settings)@.mode,
            settings@.is_input_focused == old(settings)@.is_input_focused,
        decreases n - i,
    {
        assert(typed@.take(i + 1).drop_last() =~= typed@.take(i as int));
        let c = typed[i];
        assert(typed@.take(i + 1).last() == c);
        if !is_control(c) && settings.nickname.as_str().len() < MAX_NICKNAME_BYTES {
            string_push(&mut settings.nickname, c);
        }
        i = i + 1;
    }
    assert(typed@.take(n as int) =~= typed@);
}

/// The buttons of the landing screen: solo practice, and the others (which
/// are not ready yet).
#[derive(Debug, Clone, Copy, PartialEq, Eq, Structural)]
pub enum LandingButton {
    SoloPractice,
    NotReady,
}

/// The status text shown for a button that is not ready yet.
pub open spec fn not_ready_text() -> Seq<char> {
    "Under development!"@
}

/// What a click on the landing screen does: solo practice opens the setup
/// screen; any other button shows the not-ready status text.
pub fn handle_landing_click(button: LandingButton) -> (outcome: (Option<ClientScreenState>, Option<String>))
    ensures
        button == LandingButton::SoloPractice ==> outcome.0 == Some(ClientScreenState::SoloSetup)
            && outcome.1 is None,
        button == LandingButton::NotReady ==> outcome.0 is None && (outcome.1 matches Some(t) && t@
            == not_ready_text()),
{
    match button {
        LandingButton::SoloPractice => (Some(ClientScreenState::SoloSetup), None),
        LandingButton::NotReady => (None, Some(String::from_str("Under development!"))),
    }
}

/// Leaves the gameplay screen from its menu button: the settings go back to
/// their defaults, the room is left, and the landing screen shows.
pub fn exit_gameplay(settings: &mut GameSettings) -> (outcome: ClickOutcome)
    ensures
        final(settings)@ == default_settings_view(),
        outcome.next_screen == Some(ClientScreenState::Landing),
        outcome.action matches Some(a) && a is LeaveRoom,
{
    *settings = GameSettings::default();
    ClickOutcome { next_screen: Some(ClientScreenState::Landing), action: Some(ClientAction::LeaveRoom) }
}

/// The buttons of the match summary.
#[derive(Debug, Clone, Copy, PartialEq, Eq, Structural)]
pub enum SummaryButton {
    PlayAgain,
    MainMenu,
}

/// What a click on the match summary does: play again starts a new practice
/// match with the settings; the main menu leaves the room and shows the
/// landing screen.
pub fn handle_summary_click(settings: &GameSettings, button: SummaryButton) -> (outcome: ClickOutcome)
    ensures
        button == SummaryButton::PlayAgain ==> outcome.next_screen is None && (outcome.action matches Some(
            a,
        ) && start_action_matches(a, settings@)),
        button == SummaryButton::MainMenu ==> outcome.next_screen == Some(ClientScreenState::Landing)
            && (outcome.action matches Some(a) && a is LeaveRoom),
{
    match button {
        SummaryButton::PlayAgain => ClickOutcome { next_screen: None, action: Some(start_practice_action(settings)) },
        SummaryButton::MainMenu => ClickOutcome {
            next_screen: Some(ClientScreenState::Landing),
            action: Some(ClientAction::LeaveRoom),
        },
    }
}

/// The action of a roll button: one die or two.
pub fn roll_action(two_dice: bool) -> (action: ClientAction)
    ensures
        action matches ClientAction::RollDice { dice_count } && dice_count == if two_dice { 2u8 } else { 1u8 },
{
    ClientAction::RollDice { dice_count: if two_dice { 2 } else { 1 } }
}

/// Which screens show: the landing, setup and gameplay screens, and (on the
/// gameplay screen only) whether the wager panel shows.
#[derive(Debug, Clone, Copy, PartialEq, Eq, Structural)]
pub struct ScreenVisibility {
    pub landing: bool,
    pub setup: bool,
    pub gameplay: bool,
    pub wager_panel: Option<bool>,
}

/// The visibility for a screen: only that screen shows; on the gameplay
/// screen the wager panel shows in wager mode.
pub open spec fn visibility_for(screen: ClientScreenState, mode: GameMode) -> ScreenVisibility {
    match screen {
        ClientScreenState::Landing => ScreenVisibility { landing: true, setup: false, gameplay: false, wager_panel: None },
        ClientScreenState::SoloSetup => ScreenVisibility { landing: false, setup: true, gameplay: false, wager_panel: None },
        ClientScreenState::Gameplay => ScreenVisibility {
            landing: false,
            setup: false,
            gameplay: true,
            wager_panel: Some(mode == GameMode::WagerCards),
        },
    }
}

/// Decides which screens show on entering `screen`.
pub fn screen_visibility(screen: ClientScreenState, mode: GameMode) -> (v: ScreenVisibility)
    ensures
        v == visibility_for(screen, mode),
{
    match screen {
        ClientScreenState::Landing => ScreenVisibility { landing: true, setup: false, gameplay: false, wager_panel: None },
        ClientScreenState::SoloSetup => ScreenVisibility { landing: false, setup: true, gameplay: false, wager_panel: None },
        ClientScreenState::Gameplay => ScreenVisibility {
            landing: false,
            setup: false,
            gameplay: true,
            wager_panel: Some(mode == GameMode::WagerCards),
        },
    }
}

/// Which parts of the gameplay screen show: the top bar, the leaderboard
/// ticker, the board and the match summary always get a value; the bottom
/// bar and the wager panel are only hidden (at the end of the match).
#[derive(Debug, Clone, Copy, PartialEq, Eq, Structural)]
pub struct MatchLayout {
    pub hud: bool,
    pub ticker: bool,
    pub board: bool,
    pub bottom_bar: Option<bool>,
    pub wager_panel: Option<bool>,
    pub summary: bool,
}

/// The layout for a phase: at the end of the match only the summary shows;
/// otherwise the summary hides and the top bar, ticker and board show.
pub open spec fn layout_for(state: ClientGameState) -> MatchLayout {
    if state == ClientGameState::MatchCompleted {
        MatchLayout { hud: false, ticker: false, board: false, bottom_bar: Some(false), wager_panel: Some(false), summary: true }
    } else {
        MatchLayout { hud: true, ticker: true, board: true, bottom_bar: None, wager_panel: None, summary: false }
    }
}

/// Decides the layout of the gameplay screen for `state`.
pub fn match_layout(state: ClientGameState) -> (layout: MatchLayout)
    ensures
        layout == layout_for(state),
{
    if state == ClientGameState::MatchCompleted {
        MatchLayout { hud: false, ticker: false, board: false, bottom_bar: Some(false), wager_panel: Some(false), summary: true }
    } else {
        MatchLayout { hud: true, ticker: true, board: true, bottom_bar: None, wager_panel: None, summary: false }
    }
}

/// Which choices of the setup screen are highlighted.
#[derive(Debug, Clone, Copy, PartialEq, Eq, Structural)]
pub struct SetupHighlights {
    pub course_green: bool,
    pub course_blue: bool,
    pub mode_standard: bool,
    pub mode_wager: bool,
    pub nickname_focused: bool,
}

/// The highlights for some settings: the chosen course, the chosen mode and
/// a focused nickname field.
pub open spec fn highlights_for(s: GameSettingsView) -> SetupHighlights {
    SetupHighlights {
        course_green: s.course == "green"@,
        course_blue: s.course == "blue"@,
        mode_standard: s.mode == GameMode::Standard,
        mode_wager: s.mode == GameMode::WagerCards,
        nickname_focused: s.is_input_focused,
    }
}

/// Decides the highlights of the setup screen.
pub fn setup_highlights(settings: &GameSettings) -> (h: SetupHighlights)
    ensures
        h == highlights_for(settings@),
{
    let green = String::from_str("green");
    let blue = String::from_str("blue");
    SetupHighlights {
        course_green: settings.course == green,
        course_blue: settings.course == blue,
        mode_standard: settings.mode == GameMode::Standard,
        mode_wager: settings.mode == GameMode::WagerCards,
        nickname_focused: settings.is_input_focused,
    }
}

/// The nickname field's text: a placeholder or a lone cursor when empty, the
/// nickname with a cursor when focused, the nickname otherwise.
pub open spec fn nickname_field_text(s: GameSettingsView) -> Seq<char> {
    if s.nickname.len() == 0 {
        if s.is_input_focused {
            "|"@
        } else {
            "Type nickname..."@
        }
    } else if s.is_input_focused {
        s.nickname + "|"@
    } else {
        s.nickname
    }
}

/// Writes the nickname field's text.
pub fn nickname_field(settings: &GameSettings) -> (text: String)
    ensures
        text@ == nickname_field_text(settings@),
{
    if settings.nickname.as_str().is_empty() {
        if settings.is_input_focused {
            String::from_str("|")
        } else {
            String::from_str("Type nickname...")
        }
    } else if settings.is_input_focused {
        let mut text = settings.nickname.clone();
        text.append("|");
        text
    } else {
        settings.nickname.clone()
    }
}

} // verus!
