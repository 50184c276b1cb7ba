//! The messages exchanged between the client and the game server, and the
//! game-state values they carry.
use vstd::prelude::*;

verus! {

/// The phases of a match as the server reports them.
#[derive(Debug, Clone, Copy, PartialEq, Eq, Structural)]
pub enum GameStateEnum {
    Lobby,
    MarkerPlacement,
    AwaitingTurn,
    Rolling,
    Moving,
    BananaChoice,
    HazardAlert,
    HoleCompleted,
    MatchCompleted,
}

/// The three kinds of wager card.
#[derive(Debug, Clone, Copy, PartialEq, Eq, Structural)]
pub enum CardType {
    Shield,
    Banana,
    GoldenDie,
}

/// The number that stands for a card kind in a hand of cards.
pub open spec fn card_code_spec(card: CardType) -> u8 {
    match card {
        CardType::Shield => 0,
        CardType::Banana => 1,
        CardType::GoldenDie => 2,
    }
}

/// The number that stands for `card` in a hand of cards.
#[verifier::when_used_as_spec(card_code_spec)]
pub fn card_code(card: CardType) -> (code: u8)
    ensures
        code == card_code_spec(card),
{
    match card {
        CardType::Shield => 0,
        CardType::Banana => 1,
        CardType::GoldenDie => 2,
    }
}

/// The card kind a code stands for; any code above 1 reads as a Golden Die.
pub open spec fn card_from_code_spec(code: u8) -> CardType {
    if code == 0 {
        CardType::Shield
    } else if code == 1 {
        CardType::Banana
    } else {
        CardType::GoldenDie
    }
}

/// The card kind that `code` stands for.
#[verifier::when_used_as_spec(card_from_code_spec)]
pub fn card_from_code(code: u8) -> (card: CardType)
    ensures
        card == card_from_code_spec(code),
{
    if code == 0 {
        CardType::Shield
    } else if code == 1 {
        CardType::Banana
    } else {
        CardType::GoldenDie
    }
}

/// A wager card placed on a tile of the track.
#[derive(Debug, Clone, Copy, PartialEq, Eq, Structural)]
pub struct WagerToken {
    pub card_type: CardType,
    pub owner_id: u64,
    pub cell_index: u32,
}

/// A player's score and cards as sent with every state update.
#[derive(Debug, Clone)]
pub struct Scorecard {
    pub running_strokes: u16,
    pub total_strokes: u16,
    pub earned_cards: Vec<u8>,
    pub cards_earned_this_hole: Vec<u8>,
    pub strokes_per_hole: Vec<u16>,
}

/// The contents of a [`Scorecard`].
pub struct ScorecardView {
    pub running_strokes: u16,
    pub total_strokes: u16,
    pub earned_cards: Seq<u8>,
    pub cards_earned_this_hole: Seq<u8>,
    pub strokes_per_hole: Seq<u16>,
}

impl DeepView for Scorecard {
    type V = ScorecardView;

    open spec fn deep_view(&self) -> ScorecardView {
        ScorecardView {
            running_strokes: self.running_strokes,
            total_strokes: self.total_strokes,
            earned_cards: self.earned_cards@,
            cards_earned_this_hole: self.cards_earned_this_hole@,
            strokes_per_hole: self.strokes_per_hole@,
        }
    }
}

/// What the server sends to the client.
#[derive(Debug, Clone)]
pub enum ServerUpdate {
    StateSync {
        sequence: u64,
        game_state: GameStateEnum,
        active_player_id: u64,
        current_hole: u8,
        player_positions: Vec<u32>,
        player_scores: Vec<Scorecard>,
        placed_wagers: Vec<WagerToken>,
    },
    AlertTriggered { alert_message: String },
    DiceRollOutcome { roll_values: Vec<u8> },
    SlideTransition { path: Vec<u32> },
}

/// The contents of a [`ServerUpdate`].
pub enum ServerUpdateView {
    StateSync {
        sequence: u64,
        game_state: GameStateEnum,
        active_player_id: u64,
        current_hole: u8,
        player_positions: Seq<u32>,
        player_scores: Seq<ScorecardView>,
        placed_wagers: Seq<WagerToken>,
    },
    AlertTriggered { alert_message: Seq<char> },
    DiceRollOutcome { roll_values: Seq<u8> },
    SlideTransition { path: Seq<u32> },
}

impl DeepView for ServerUpdate {
    type V = ServerUpdateView;

    open spec fn deep_view(&self) -> ServerUpdateView {
        match self {
            ServerUpdate::StateSync {
                sequence,
                game_state,
                active_player_id,
                current_hole,
                player_positions,
                player_scores,
                placed_wagers,
            } => ServerUpdateView::StateSync {
                sequence: *sequence,
                game_state: *game_state,
                active_player_id: *active_player_id,
                current_hole: *current_hole,
                player_positions: player_positions@,
                player_scores: player_scores.deep_view(),
                placed_wagers: placed_wagers@,
            },
            ServerUpdate::AlertTriggered { alert_message } => ServerUpdateView::AlertTriggered {
                alert_message: alert_message@,
            },
            ServerUpdate::DiceRollOutcome { roll_values } => ServerUpdateView::DiceRollOutcome {
                roll_values: roll_values@,
            },
            ServerUpdate::SlideTransition { path } => ServerUpdateView::SlideTransition {
                path: path@,
            },
        }
    }
}

/// An alert update carrying `message`.
pub open spec fn alert_view(message: Seq<char>) -> ServerUpdateView {
    ServerUpdateView::AlertTriggered { alert_message: message }
}

/// What the client asks the server to do.
#[derive(Debug, Clone)]
pub enum ClientAction {
    RollDice { dice_count: u8 },
    DraftCard { card_type: CardType, cell_index: u32 },
    SkipPlacement,
    ChooseBananaSlide { step_count: u8 },
    StartPractice { nickname: String, course: String, is_wager_mode: bool },
    LeaveRoom,
}

/// An alert update carrying a copy of `message`.
pub fn alert(message: &str) -> (update: ServerUpdate)
    ensures
        update.deep_view() == alert_view(message@),
{
    ServerUpdate::AlertTriggered { alert_message: String::from_str(message) }
}

} // verus!
