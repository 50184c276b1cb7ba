//! The board on screen: the labels of its cells, which cell shows the ball and
//! which shows a wager, and what a click on a cell asks the server to do.
use vstd::prelude::*;
use crate::messages::{CardType, ClientAction, WagerToken};
use crate::movement::{first_green, last_green, movement_outcome, resolve_movement_position};
use crate::replication::{Ball, ClientGameState, Player};
use crate::terrain::{ActiveCourseTrack, TerrainType};
use crate::text::{append_decimal, decimal};
use crate::wager::{find_wager_at, first_wager_at};

verus! {

/// The label of cell `idx`: "TEE" for the tee, the cell's number and the
/// terrain's short name elsewhere, and "G" with the putting tier on a green.
pub open spec fn cell_label_text(idx: u32, terrain: TerrainType) -> Seq<char> {
    match terrain {
        TerrainType::TeeBox => "TEE"@,
        TerrainType::Fairway => decimal(idx as nat) + " FW"@,
        TerrainType::Rough => decimal(idx as nat) + " RGH"@,
        TerrainType::Bunker => decimal(idx as nat) + " BNK"@,
        TerrainType::Water => decimal(idx as nat) + " WTR"@,
        TerrainType::OutOfBounds => decimal(idx as nat) + " OB"@,
        TerrainType::Green(tier) => "G"@ + decimal(tier as nat),
    }
}

/// Writes the label of cell `idx` of terrain `terrain`.
pub fn cell_label(idx: u32, terrain: TerrainType) -> (text: String)
    ensures
        text@ == cell_label_text(idx, terrain),
{
    match terrain {
        TerrainType::TeeBox => String::from_str("TEE"),
        TerrainType::Fairway => {
            let mut text = String::new();
            append_decimal(&mut text, idx as u64);
            text.append(" FW");
            text
        },
        TerrainType::Rough => {
            let mut text = String::new();
            append_decimal(&mut text, idx as u64);
            text.append(" RGH");
            text
        },
        TerrainType::Bunker => {
            let mut text = String::new();
            append_decimal(&mut text, idx as u64);
            text.append(" BNK");
            text
        },
        TerrainType::Water => {
            let mut text = String::new();
            append_decimal(&mut text, idx as u64);
            text.append(" WTR");
            text
        },
        TerrainType::OutOfBounds => {
            let mut text = String::new();
            append_decimal(&mut text, idx as u64);
            text.append(" OB");
            text
        },
        TerrainType::Green(tier) => {
            let mut text = String::from_str("G");
            append_decimal(&mut text, tier as u64);
            text
        },
    }
}

/// Whether cell `cell_index` shows the ball, which is on `ball_cell`.
pub fn shows_ball(cell_index: u32, ball_cell: u16) -> (shown: bool)
    ensures
        shown == (cell_index == ball_cell as u32),
{
    cell_index == ball_cell as u32
}

/// The kind of wager shown on cell `cell_index`: that of the first wager
/// placed there, if any.
pub fn wager_shown_at(wagers: &Vec<WagerToken>, cell_index: u32) -> (shown: Option<CardType>)
    ensures
        shown == match first_wager_at(wagers@, cell_index) {
            Some(w) => Some(w.card_type),
            None => None,
        },
{
    match find_wager_at(wagers, cell_index) {
        Some(w) => Some(w.card_type),
        None => None,
    }
}

/// The letter on a wager marker: "S" for a shield, "B" for a banana, "G"
/// for a golden die.
pub open spec fn wager_letter_text(card: CardType) -> Seq<char> {
    match card {
        CardType::Shield => "S"@,
        CardType::Banana => "B"@,
        CardType::GoldenDie => "G"@,
    }
}

/// Writes the letter on a wager marker.
pub fn wager_letter(card: CardType) -> (text: String)
    ensures
        text@ == wager_letter_text(card),
{
    match card {
        CardType::Shield => String::from_str("S"),
        CardType::Banana => String::from_str("B"),
        CardType::GoldenDie => String::from_str("G"),
    }
}

/// The cell a slide of `step` cells from `ball` reaches.
pub open spec fn slide_target(ball: Ball, step: u8, course: ActiveCourseTrack) -> u32 {
    movement_outcome(
        ball.cell_index as u32,
        step,
        ball.direction,
        course.total_cells,
        last_green(course),
        first_green(course),
    ).0
}

/// The smallest slide (0 to 4 cells) from `ball` that reaches `cell_index`.
pub open spec fn slide_step_for(ball: Ball, course: ActiveCourseTrack, cell_index: u32) -> Option<u8> {
    if slide_target(ball, 0, course) == cell_index {
        Some(0u8)
    } else if slide_target(ball, 1, course) == cell_index {
        Some(1u8)
    } else if slide_target(ball, 2, course) == cell_index {
        Some(2u8)
    } else if slide_target(ball, 3, course) == cell_index {
        Some(3u8)
    } else if slide_target(ball, 4, course) == cell_index {
        Some(4u8)
    } else {
        None
    }
}

/// Finds the smallest slide from `ball` that reaches the clicked cell.
pub fn banana_step_for_cell(ball: Ball, course: &ActiveCourseTrack, cell_index: u32) -> (step: Option<u8>)
    ensures
        step == slide_step_for(ball, *course, cell_index),
{
    let mut step: u8 = 0;
    while step <= 4
        invariant
            step <= 5,
            forall|k: u8| k < step ==> slide_target(ball, k, *course) != cell_index,
        decreases 5 - step,
    {
        let (target, _) = resolve_movement_position(ball.cell_index as u32, step, ball.direction, course);
        if target == cell_index {
            return Some(step);
        }
        step = step + 1;
    }
    None
}

/// The ball of the first player with id `player_id`.
pub open spec fn ball_of_player(players: Seq<(Player, Ball)>, player_id: u64) -> Option<Ball>
    decreases players.len(),
{
    if players.len() == 0 {
        None
    } else if players[0].0.player_id == player_id {
        Some(players[0].1)
    } else {
        ball_of_player(players.drop_first(), player_id)
    }
}

/// Finds the ball of the first player with id `player_id`.
pub fn find_player_ball(players: &Vec<(Player, Ball)>, player_id: u64) -> (ball: Option<Ball>)
    ensures
        ball == ball_of_player(players@, player_id),
{
    let n = players.len();
    let mut i: usize = 0;
    assert(players@.skip(0) =~= players@);
    while i < n
        invariant
            n == players@.len(),
            i <= n,
            ball_of_player(players@, player_id) == ball_of_player(players@.skip(i as int), player_id),
        decreases n - i,
    {
        assert(players@.skip(i as int)[0] == players@[i as int]);
        if players[i].0.player_id == player_id {
            return Some(players[i].1);
        }
        assert(players@.skip(i as int).drop_first() =~= players@.skip(i + 1));
        i = i + 1;
    }
    None
}

/// What a click on cell `cell_index` asks: during the banana choice, the
/// slide that takes the active player's ball there (if one does); otherwise
/// placing the selected wager card there (and clearing the selection).
pub open spec fn click_action(
    game_state: ClientGameState,
    players: Seq<(Player, Ball)>,
    active_player_id: u64,
    course: Option<ActiveCourseTrack>,
    selected: Option<CardType>,
    cell_index: u32,
) -> (Option<ClientAction>, Option<CardType>) {
    if game_state == ClientGameState::BananaChoice {
        match (ball_of_player(players, active_player_id), course) {
            (Some(ball), Some(c)) => match slide_step_for(ball, c, cell_index) {
                Some(step) => (Some(ClientAction::ChooseBananaSlide { step_count: step }), selected),
                None => (None, selected),
            },
            _ => (None, selected),
        }
    } else {
        match selected {
            Some(card) => (Some(ClientAction::DraftCard { card_type: card, cell_index }), None),
            None => (None, None),
        }
    }
}

/// Handles a click on cell `cell_index` of the board: returns the action to
/// send, and updates the selected wager card.
pub fn handle_board_click(
    game_state: ClientGameState,
    players: &Vec<(Player, Ball)>,
    active_player_id: u64,
    course: Option<&ActiveCourseTrack>,
    selected: &mut Option<CardType>,
    cell_index: u32,
) -> (action: Option<ClientAction>)
    ensures
        ({
            let expected = click_action(
                game_state,
                players@,
                active_player_id,
                match course {
                    Some(c) => Some(*c),
                    None => None,
                },
                *old(selected),
                cell_index,
            );
            &&& *final(selected) == expected.1
            &&& match (action, expected.0) {
                (Some(ClientAction::ChooseBananaSlide { step_count: a }), Some(
                    ClientAction::ChooseBananaSlide { step_count: b },
                )) => a == b,
                (Some(ClientAction::DraftCard { card_type: a, cell_index: i }), Some(
                    ClientAction::DraftCard { card_type: b, cell_index: j },
                )) => a == b && i == j,
                (None, None) => true,
                _ => false,
            }
        }),
{
    if game_state == ClientGameState::BananaChoice {
        let ball = find_player_ball(players, active_player_id);
        match (ball, course) {
            (Some(b), Some(c)) => match banana_step_for_cell(b, c, cell_index) {
                Some(step) => Some(ClientAction::ChooseBananaSlide { step_count: step }),
                None => None,
            },
            _ => None,
        }
    } else {
        match *selected {
            Some(card) => {
                *selected = None;
                Some(ClientAction::DraftCard { card_type: card, cell_index })
            },
            None => None,
        }
    }
}

/// The text that `char::to_uppercase` turns `c` into (one or more
/// characters, by the Unicode case tables of the standard library).
pub uninterp spec fn char_uppercase_text(c: char) -> Seq<char>;

/// `char::to_uppercase`, collected into a `String`.
#[verifier::external_body]
fn char_uppercase(c: char) -> (text: String)
    ensures
        text@ == char_uppercase_text(c),
{
    c.to_uppercase().to_string()
}

/// The initial shown on a player's token: the first character of the
/// nickname in upper case, or "?" for an empty nickname.
pub open spec fn initial_text(nickname: Seq<char>) -> Seq<char> {
    if nickname.len() == 0 {
        "?"@
    } else {
        char_uppercase_text(nickname[0])
    }
}

/// Writes the initial shown on a player's token.
pub fn player_initial(nickname: &str) -> (text: String)
    ensures
        text@ == initial_text(nickname@),
{
    if nickname.is_empty() {
        String::from_str("?")
    } else {
        char_uppercase(nickname.get_char(0))
    }
}

} // verus!
