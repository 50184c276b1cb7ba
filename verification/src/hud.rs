//! The texts and controls of the in-game display: hole title and stats, the
//! player's strokes, the wager cards in hand, which buttons show, and the
//! status line.
use vstd::prelude::*;
use crate::messages::{card_code, CardType, GameStateEnum};
use crate::text::{append_decimal, decimal};

verus! {

/// How many of the codes in `cards` equal `code`.
pub open spec fn count_code(cards: Seq<u8>, code: u8) -> nat
    decreases cards.len(),
{
    if cards.len() == 0 {
        0
    } else {
        count_code(cards.drop_last(), code) + if cards.last() == code { 1nat } else { 0nat }
    }
}

/// Counts the cards of code `code` in `cards`.
pub fn count_cards(cards: &Vec<u8>, code: u8) -> (count: usize)
    ensures
        count == count_code(cards@, code),
{
    let mut count: usize = 0;
    let n = cards.len();
    let mut i: usize = 0;
    while i < n
        invariant
            n == cards@.len(),
            i <= n,
            count == count_code(cards@.take(i as int), code),
            count <= i,
        decreases n - i,
    {
        assert(cards@.take(i + 1).drop_last() =~= cards@.take(i as int));
        if cards[i] == code {
            count = count + 1;
        }
        i = i + 1;
    }
    assert(cards@.take(n as int) =~= cards@);
    count
}

/// The hole title: "HOLE " and the hole's number.
pub open spec fn hole_title_text(current_hole: u8) -> Seq<char> {
    "HOLE "@ + decimal(current_hole as nat)
}

/// Writes the hole title.
pub fn hole_title(current_hole: u8) -> (text: String)
    ensures
        text@ == hole_title_text(current_hole),
{
    let mut text = String::from_str("HOLE ");
    append_decimal(&mut text, current_hole as u64);
    text
}

/// The hole's stats: its par and its number of cells.
pub open spec fn hole_stats_text(par: u8, total_cells: u32) -> Seq<char> {
    "PAR "@ + decimal(par as nat) + " \u{2022} "@ + decimal(total_cells as nat) + " SPACES"@
}

/// Writes the hole's stats.
pub fn hole_stats(par: u8, total_cells: u32) -> (text: String)
    ensures
        text@ == hole_stats_text(par, total_cells),
{
    let mut text = String::from_str("PAR ");
    append_decimal(&mut text, par as u64);
    text.append(" \u{2022} ");
    append_decimal(&mut text, total_cells as u64);
    text.append(" SPACES");
    text
}

/// The player's strokes on the current hole.
pub open spec fn strokes_line_text(running_strokes: u16) -> Seq<char> {
    "\u{1F3C6} "@ + decimal(running_strokes as nat) + " strokes"@
}

/// Writes the player's strokes on the current hole (none without a
/// scorecard).
pub fn strokes_line(running_strokes: Option<u16>) -> (text: String)
    ensures
        text@ == strokes_line_text(
            match running_strokes {
                Some(s) => s,
                None => 0,
            },
        ),
{
    let strokes: u16 = match running_strokes {
        Some(s) => s,
        None => 0,
    };
    let mut text = String::from_str("\u{1F3C6} ");
    append_decimal(&mut text, strokes as u64);
    text.append(" strokes");
    text
}

/// The label of a wager card button with its count in hand: code 0 is the
/// shield, 1 the banana, anything else the golden die (counted as code 2).
pub open spec fn card_quantity_text(card_type: u8, earned_cards: Seq<u8>) -> Seq<char> {
    if card_type == 0 {
        "SHIELD ("@ + decimal(count_code(earned_cards, 0)) + ")"@
    } else if card_type == 1 {
        "BANANA ("@ + decimal(count_code(earned_cards, 1)) + ")"@
    } else {
        "GOLDEN ("@ + decimal(count_code(earned_cards, 2)) + ")"@
    }
}

/// Writes the label of the wager card button for `card_type`.
pub fn card_quantity_label(card_type: u8, earned_cards: &Vec<u8>) -> (text: String)
    ensures
        text@ == card_quantity_text(card_type, earned_cards@),
{
    let (mut text, code) = if card_type == 0 {
        (String::from_str("SHIELD ("), 0u8)
    } else if card_type == 1 {
        (String::from_str("BANANA ("), 1u8)
    } else {
        (String::from_str("GOLDEN ("), 2u8)
    };
    let count = count_cards(earned_cards, code);
    append_decimal(&mut text, count as u64);
    text.append(")");
    text
}

/// Which controls show in a phase: the roll buttons while awaiting the
/// turn, the skip button during wager placement, neither otherwise.
pub open spec fn controls_for(game_state: GameStateEnum) -> (bool, bool) {
    match game_state {
        GameStateEnum::MarkerPlacement => (false, true),
        GameStateEnum::AwaitingTurn => (true, false),
        _ => (false, false),
    }
}

/// Whether the roll buttons and the skip button show in `game_state`.
pub fn controls_visibility(game_state: GameStateEnum) -> (visible: (bool, bool))
    ensures
        visible == controls_for(game_state),
{
    match game_state {
        GameStateEnum::MarkerPlacement => (false, true),
        GameStateEnum::AwaitingTurn => (true, false),
        _ => (false, false),
    }
}

/// The full name of the card a code stands for.
pub open spec fn card_full_name(code: u8) -> Seq<char> {
    if code == 0 {
        "Guardian Shield"@
    } else if code == 1 {
        "Trickster Banana"@
    } else {
        "Golden Die"@
    }
}

/// The names of the cards, joined by ", ".
pub open spec fn joined_card_names(cards: Seq<u8>) -> Seq<char>
    decreases cards.len(),
{
    if cards.len() == 0 {
        Seq::empty()
    } else if cards.len() == 1 {
        card_full_name(cards[0])
    } else {
        joined_card_names(cards.drop_last()) + ", "@ + card_full_name(cards.last())
    }
}

/// The status line at the end of a hole, with the cards in hand when a
/// scorecard came with the update.
pub open spec fn hole_completed_text(current_hole: u8, earned_cards: Option<Seq<u8>>) -> Seq<char> {
    "Completed Hole "@ + decimal(current_hole as nat) + "! Well played!"@ + match earned_cards {
        None => Seq::empty(),
        Some(cards) => if cards.len() == 0 {
            " No cards earned."@
        } else {
            " Earned: "@ + joined_card_names(cards)
        },
    }
}

fn card_full_name_str(code: u8) -> (name: &'static str)
    ensures
        name@ == card_full_name(code),
{
    if code == 0 {
        "Guardian Shield"
    } else if code == 1 {
        "Trickster Banana"
    } else {
        "Golden Die"
    }
}

/// Writes the status line at the end of a hole.
pub fn hole_completed_status(current_hole: u8, earned_cards: Option<&Vec<u8>>) -> (text: String)
    ensures
        text@ == hole_completed_text(
            current_hole,
            match earned_cards {
                None => None,
                Some(c) => Some(c@),
            },
        ),
{
    let mut text = String::from_str("Completed Hole ");
    append_decimal(&mut text, current_hole as u64);
    text.append("! Well played!");
    match earned_cards {
        None => {
            assert(text@ =~= hole_completed_text(current_hole, None));
        },
        Some(cards) => {
            if cards.len() == 0 {
                text.append(" No cards earned.");
            } else {
                let ghost head = text@ + " Earned: "@;
                text.append(" Earned: ");
                let n = cards.len();
                let mut i: usize = 0;
                while i < n
                    invariant
                        n == cards@.len(),
                        n > 0,
                        i <= n,
                        text@ == head + joined_card_names(cards@.take(i as int)),
                    decreases n - i,
                {
                    let ghost prefix = cards@.take(i as int);
                    assert(cards@.take(i + 1).drop_last() =~= prefix);
                    if i > 0 {
                        text.append(", ");
                    }
                    text.append(card_full_name_str(cards[i]));
                    proof {
                        if i == 0 {
                            assert(prefix.len() == 0);
                            assert(joined_card_names(prefix) =~= Seq::<char>::empty());
                        }
                    }
                    assert(text@ =~= head + joined_card_names(cards@.take(i + 1)));
                    i = i + 1;
                }
                assert(cards@.take(n as int) =~= cards@);
            }
        },
    }
    text
}

/// The decimal numerals of `values`, joined by ", ".
pub open spec fn joined_decimals(values: Seq<u8>) -> Seq<char>
    decreases values.len(),
{
    if values.len() == 0 {
        Seq::empty()
    } else if values.len() == 1 {
        decimal(values[0] as nat)
    } else {
        joined_decimals(values.drop_last()) + ", "@ + decimal(values.last() as nat)
    }
}

/// The sum of the dice values.
pub open spec fn dice_sum(values: Seq<u8>) -> int
    decreases values.len(),
{
    if values.len() == 0 {
        0
    } else {
        dice_sum(values.drop_last()) + values.last()
    }
}

/// The status line after a roll: the total, then the dice as a list.
pub open spec fn roll_status_text(values: Seq<u8>) -> Seq<char> {
    "Rolled: "@ + decimal(dice_sum(values) as nat) + " ["@ + joined_decimals(values) + "]"@
}

/// Writes the status line after a roll; the dice must add up to at most 255.
pub fn roll_status(values: &Vec<u8>) -> (text: String)
    requires
        forall|k: int| 0 <= k <= values@.len() ==> #[trigger] dice_sum(values@.take(k)) <= u8::MAX,
    ensures
        text@ == roll_status_text(values@),
{
    let n = values.len();
    let mut sum: u8 = 0;
    let mut i: usize = 0;
    while i < n
        invariant
            n == values@.len(),
            i <= n,
            sum == dice_sum(values@.take(i as int)),
            forall|k: int| 0 <= k <= values@.len() ==> #[trigger] dice_sum(values@.take(k)) <= u8::MAX,
        decreases n - i,
    {
        assert(values@.take(i + 1).drop_last() =~= values@.take(i as int));
        assert(dice_sum(values@.take(i + 1)) <= u8::MAX);
        sum = sum + values[i];
        i = i + 1;
    }
    assert(values@.take(n as int) =~= values@);
    let mut text = String::from_str("Rolled: ");
    append_decimal(&mut text, sum as u64);
    let ghost head = text@ + " ["@;
    text.append(" [");
    let mut j: usize = 0;
    while j < n
        invariant
            n == values@.len(),
            j <= n,
            text@ == head + joined_decimals(values@.take(j as int)),
        decreases n - j,
    {
        let ghost prefix = values@.take(j as int);
        assert(values@.take(j + 1).drop_last() =~= prefix);
        if j > 0 {
            text.append(", ");
        }
        append_decimal(&mut text, values[j] as u64);
        proof {
            if j == 0 {
                assert(joined_decimals(prefix) =~= Seq::<char>::empty());
            }
        }
        assert(text@ =~= head + joined_decimals(values@.take(j + 1)));
        j = j + 1;
    }
    assert(values@.take(n as int) =~= values@);
    text.append("]");
    text
}

/// How a wager card button looks: greyed out with no such card in hand,
/// gold-rimmed when selected, plain otherwise.
#[derive(Debug, Clone, Copy, PartialEq, Eq, Structural)]
pub enum CardButtonLook {
    Disabled,
    Selected,
    Normal,
}

/// The look of a wager card button.
pub open spec fn card_button_look_for(count: nat, selected: Option<CardType>, card: CardType) -> CardButtonLook {
    if count == 0 {
        CardButtonLook::Disabled
    } else if selected == Some(card) {
        CardButtonLook::Selected
    } else {
        CardButtonLook::Normal
    }
}

/// Decides the look of the button of `card`, with `earned_cards` in hand and
/// `selected` the card chosen for placement.
pub fn card_button_look(earned_cards: &Vec<u8>, selected: Option<CardType>, card: CardType) -> (look: CardButtonLook)
    ensures
        look == card_button_look_for(count_code(earned_cards@, card_code(card)), selected, card),
{
    let count = count_cards(earned_cards, card_code(card));
    if count == 0 {
        CardButtonLook::Disabled
    } else if selected == Some(card) {
        CardButtonLook::Selected
    } else {
        CardButtonLook::Normal
    }
}

/// The text that `str::to_uppercase` turns `s` into (by the Unicode case
/// tables of the standard library).
pub uninterp spec fn uppercase_text(s: Seq<char>) -> Seq<char>;

/// `str::to_uppercase`.
#[verifier::external_body]
fn to_uppercase(s: &str) -> (text: String)
    ensures
        text@ == uppercase_text(s@),
{
    s.to_uppercase()
}

/// The player's name as the display shows it: the nickname in upper case.
pub fn player_name_label(nickname: &str) -> (text: String)
    ensures
        text@ == uppercase_text(nickname@),
{
    to_uppercase(nickname)
}

} // verus!
