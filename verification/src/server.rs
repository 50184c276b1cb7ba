//! The offline server's decisions: which handler an action goes to, what
//! starting or leaving a match does, and how the pause after a completed
//! hole leads to the next hole or to the end of the match.
use vstd::prelude::*;
use crate::banana::{draws_in_range, handle_choose_banana_slide, slide_in_range, slide_in_range_check, slide_state, slide_updates, SlideDraws};
use crate::bounded::hole_cards_clear;
use crate::messages::{ClientAction, GameStateEnum, Scorecard, ScorecardView, ServerUpdate, ServerUpdateView, WagerToken, alert_view};
use crate::state::{
    default_state_view, state_sync_view, OfflineServerState, OfflineStateView, HAND_CAPACITY,
    HOLES_PER_ROUND,
};
use crate::terrain::{ActiveCourseTrack, MovementDirection, TerrainResolution};
use crate::wager::{
    draft_in_range, draft_in_range_check, draft_rejection, handle_draft_card, handle_skip_placement, missing_card_message,
    placed_message, rejection_message, state_after_draft,
};
use crate::messages::card_code;

verus! {

/// The most client actions the offline server serves in one frame.
pub const ACTIONS_PER_FRAME: usize = 10;

/// How long (in milliseconds) the completed hole is shown before play moves on.
pub const HOLE_COMPLETED_PAUSE_MS: u32 = 3000;

/// The updates a draft answers with, as [`handle_draft_card`] states them.
pub open spec fn draft_outcome(
    s: OfflineStateView,
    card: crate::messages::CardType,
    cell: u32,
    course: ActiveCourseTrack,
) -> (OfflineStateView, Seq<ServerUpdateView>) {
    match draft_rejection(s.placed_wagers, card, cell, course.cells@) {
        Some(r) => (s, seq![alert_view(rejection_message(r)), state_sync_view(s)]),
        None => if s.inventory.contains(card_code(card)) {
            let t = state_after_draft(s, card, cell);
            (t, seq![alert_view(placed_message(card)), state_sync_view(t)])
        } else {
            (s, seq![alert_view(missing_card_message()), state_sync_view(s)])
        },
    }
}

/// The state after the placement phase is skipped.
pub open spec fn skip_state(s: OfflineStateView) -> OfflineStateView {
    OfflineStateView {
        game_state: GameStateEnum::AwaitingTurn,
        sequence: (s.sequence + 1) as u64,
        ..s
    }
}

/// Whether the handler of `action` can run on `s` without an arithmetic
/// overflow.
pub open spec fn action_in_range(
    s: OfflineStateView,
    action: ClientAction,
    course: ActiveCourseTrack,
    landing: TerrainResolution,
) -> bool {
    match action {
        ClientAction::DraftCard { card_type, cell_index } => draft_in_range(s, card_type, cell_index, course.cells@),
        ClientAction::SkipPlacement => s.sequence < u64::MAX,
        ClientAction::ChooseBananaSlide { step_count } => slide_in_range(s, step_count, course, landing),
        _ => true,
    }
}

/// Tells whether the handler of `action` can run on the state without an
/// arithmetic overflow.
pub fn action_in_range_check(
    state: &OfflineServerState,
    action: &ClientAction,
    course: &ActiveCourseTrack,
    landing: TerrainResolution,
) -> (ok: bool)
    ensures
        ok == action_in_range(state@, *action, *course, landing),
{
    match action {
        ClientAction::DraftCard { card_type, cell_index } => draft_in_range_check(state, *card_type, *cell_index, course),
        ClientAction::SkipPlacement => state.sequence < u64::MAX,
        ClientAction::ChooseBananaSlide { step_count } => slide_in_range_check(state, *step_count, course, landing),
        _ => true,
    }
}

/// Hands a valid action to its handler: wager drafts, skipping the placement
/// phase and banana slides (with `landing`, the resolved landing of the
/// slide). Dice rolls are answered by the dice-roll handler, which this
/// library does not hold: for them the result is `None` and nothing changes.
/// Any other action changes nothing and sends nothing.
pub fn handle_action(
    state: &mut OfflineServerState,
    action: &ClientAction,
    course: &ActiveCourseTrack,
    landing: TerrainResolution,
) -> (updates: Option<Vec<ServerUpdate>>)
    requires
        action_in_range(old(state)@, *action, *course, landing),
    ensures
        ({
            let s = old(state)@;
            match *action {
                ClientAction::RollDice { .. } => updates is None && final(state)@ == s,
                ClientAction::DraftCard { card_type, cell_index } => updates matches Some(u) && (
                final(state)@, u.deep_view()) == draft_outcome(s, card_type, cell_index, *course),
                ClientAction::SkipPlacement => updates matches Some(u) && final(state)@ == skip_state(s)
                    && u.deep_view() == seq![state_sync_view(skip_state(s))],
                ClientAction::ChooseBananaSlide { step_count } => updates matches Some(u) && exists|
                    d: SlideDraws,
                |
                    draws_in_range(d) && final(state)@ == slide_state(s, step_count, *course, landing, d)
                        && u.deep_view() == slide_updates(s, step_count, *course, landing, d),
                _ => updates matches Some(u) && u@.len() == 0 && final(state)@ == s,
            }
        }),
{
    match action {
        ClientAction::RollDice { .. } => None,
        ClientAction::DraftCard { card_type, cell_index } => {
            Some(handle_draft_card(state, *card_type, *cell_index, course))
        },
        ClientAction::SkipPlacement => Some(handle_skip_placement(state)),
        ClientAction::ChooseBananaSlide { step_count } => {
            Some(handle_choose_banana_slide(state, *step_count, course, landing))
        },
        _ => Some(Vec::new()),
    }
}

/// The update sent when a match is (re)started or left: the state's sequence
/// number, phase, active player and hole, one ball, and a blank scorecard.
pub open spec fn fresh_sync_view(s: OfflineStateView) -> ServerUpdateView {
    ServerUpdateView::StateSync {
        sequence: s.sequence,
        game_state: s.game_state,
        active_player_id: s.active_player_id,
        current_hole: s.current_hole,
        player_positions: seq![s.player_position],
        player_scores: seq![
            ScorecardView {
                running_strokes: 0,
                total_strokes: 0,
                earned_cards: Seq::empty(),
                cards_earned_this_hole: Seq::empty(),
                strokes_per_hole: Seq::empty(),
            },
        ],
        placed_wagers: Seq::empty(),
    }
}

fn fresh_sync(state: &OfflineServerState) -> (update: ServerUpdate)
    ensures
        update.deep_view() == fresh_sync_view(state@),
{
    let mut player_positions: Vec<u32> = Vec::new();
    player_positions.push(state.player_position);
    let mut player_scores: Vec<Scorecard> = Vec::new();
    player_scores.push(
        Scorecard {
            running_strokes: 0,
            total_strokes: 0,
            earned_cards: Vec::new(),
            cards_earned_this_hole: Vec::new(),
            strokes_per_hole: Vec::new(),
        },
    );
    let update = ServerUpdate::StateSync {
        sequence: state.sequence,
        game_state: state.game_state,
        active_player_id: state.active_player_id,
        current_hole: state.current_hole,
        player_positions,
        player_scores,
        placed_wagers: Vec::new(),
    };
    assert(update.deep_view() =~= fresh_sync_view(state@)) by {
        assert(player_positions@ =~= seq![state.player_position]);
        assert(player_scores.deep_view() =~= seq![
            ScorecardView {
                running_strokes: 0,
                total_strokes: 0,
                earned_cards: Seq::empty(),
                cards_earned_this_hole: Seq::empty(),
                strokes_per_hole: Seq::empty(),
            },
        ]);
    }
    update
}

/// The state of a practice match started on `course` by `nickname`.
pub open spec fn started_state_view(nickname: Seq<char>, course: Seq<char>, is_wager_mode: bool) -> OfflineStateView {
    OfflineStateView {
        course: course,
        is_wager_mode: is_wager_mode,
        player_name: nickname,
        is_initialized: true,
        ..default_state_view()
    }
}

/// Starts a fresh practice match on `course` for `nickname` and returns the
/// update that reports it.
pub fn start_practice(state: &mut OfflineServerState, nickname: &str, course: &str, is_wager_mode: bool) -> (update: ServerUpdate)
    ensures
        final(state)@ == started_state_view(nickname@, course@, is_wager_mode),
        update.deep_view() == fresh_sync_view(final(state)@),
{
    *state = OfflineServerState::default();
    state.course = String::from_str(course);
    state.is_wager_mode = is_wager_mode;
    state.player_name = String::from_str(nickname);
    state.is_initialized = true;
    fresh_sync(state)
}

/// Leaves the match: the state goes back to that of a fresh practice match
/// and the update that reports it is returned.
pub fn leave_room(state: &mut OfflineServerState) -> (update: ServerUpdate)
    ensures
        final(state)@ == default_state_view(),
        update.deep_view() == fresh_sync_view(final(state)@),
{
    *state = OfflineServerState::default();
    fresh_sync(state)
}

/// Answers one client action: starting and leaving a match are always
/// served; any other action only when `action_is_valid` (whether the game's
/// rules allow it in the current phase), through [`handle_action`].
pub fn serve_client_action(
    state: &mut OfflineServerState,
    action: &ClientAction,
    course: &ActiveCourseTrack,
    action_is_valid: bool,
    landing: TerrainResolution,
) -> (updates: Option<Vec<ServerUpdate>>)
    requires
        action_is_valid ==> action_in_range(old(state)@, *action, *course, landing),
    ensures
        ({
            let s = old(state)@;
            match *action {
                ClientAction::StartPractice { nickname, course: course_name, is_wager_mode } => {
                    let t = started_state_view(nickname@, course_name@, is_wager_mode);
                    updates matches Some(u) && u.deep_view() == seq![fresh_sync_view(t)] && final(state)@ == t
                },
                ClientAction::LeaveRoom => updates matches Some(u) && u.deep_view() == seq![
                    fresh_sync_view(default_state_view()),
                ] && final(state)@ == default_state_view(),
                _ => if !action_is_valid {
                    updates matches Some(u) && u@.len() == 0 && final(state)@ == s
                } else {
                    true
                },
            }
        }),
        // A valid action other than starting or leaving goes to its handler.
        !((*action) is StartPractice) && !((*action) is LeaveRoom) && action_is_valid ==> {
            let s = old(state)@;
            match *action {
                ClientAction::RollDice { .. } => updates is None && final(state)@ == s,
                ClientAction::DraftCard { card_type, cell_index } => updates matches Some(u) && (
                final(state)@, u.deep_view()) == draft_outcome(s, card_type, cell_index, *course),
                ClientAction::SkipPlacement => updates matches Some(u) && final(state)@ == skip_state(s)
                    && u.deep_view() == seq![state_sync_view(skip_state(s))],
                ClientAction::ChooseBananaSlide { step_count } => updates matches Some(u) && exists|
                    d: SlideDraws,
                |
                    draws_in_range(d) && final(state)@ == slide_state(s, step_count, *course, landing, d)
                        && u.deep_view() == slide_updates(s, step_count, *course, landing, d),
                _ => true,
            }
        },
{
    match action {
        ClientAction::StartPractice { nickname, course: course_name, is_wager_mode } => {
            let update = start_practice(state, nickname.as_str(), course_name.as_str(), *is_wager_mode);
            let mut updates: Vec<ServerUpdate> = Vec::new();
            updates.push(update);
            assert(updates.deep_view() =~= seq![fresh_sync_view(state@)]);
            Some(updates)
        },
        ClientAction::LeaveRoom => {
            let update = leave_room(state);
            let mut updates: Vec<ServerUpdate> = Vec::new();
            updates.push(update);
            assert(updates.deep_view() =~= seq![fresh_sync_view(state@)]);
            Some(updates)
        },
        _ => {
            if !action_is_valid {
                Some(Vec::new())
            } else {
                handle_action(state, action, course, landing)
            }
        },
    }
}

/// The state after the hole is over: the ball back on the tee heading
/// forward, no strokes, no wagers and no earned cards, and (with cards in
/// hand in wager mode) the placement phase, otherwise the next turn.
pub open spec fn next_hole_view(s: OfflineStateView) -> OfflineStateView {
    OfflineStateView {
        player_position: 0,
        strokes: 0,
        direction: MovementDirection::Forward,
        placed_wagers: Seq::empty(),
        cards_earned_this_hole: Seq::empty(),
        game_state: if s.is_wager_mode && s.inventory.len() > 0 {
            GameStateEnum::MarkerPlacement
        } else {
            GameStateEnum::AwaitingTurn
        },
        ..s
    }
}

/// `a + b` held to the range of `u8`.
pub open spec fn saturating_add_u8(a: u8, b: int) -> u8 {
    if a + b > u8::MAX { u8::MAX } else { (a + b) as u8 }
}

/// `a + b` held to the range of `u64`.
pub open spec fn saturating_add_u64(a: u64, b: int) -> u64 {
    if a + b > u64::MAX { u64::MAX } else { (a + b) as u64 }
}

/// `a + b` held to the range of `u32`.
pub open spec fn saturating_add_u32(a: u32, b: int) -> u32 {
    if a + b > u32::MAX { u32::MAX } else { (a + b) as u32 }
}

/// The milliseconds the completed hole has been shown after `delta_ms` more.
pub open spec fn elapsed_after(s: OfflineStateView, delta_ms: u32) -> u32 {
    let before: u32 = match s.hole_completed_timer_ms {
        Some(t) => t,
        None => 0,
    };
    saturating_add_u32(before, delta_ms as int)
}

/// The state after `delta_ms` more milliseconds. Outside a completed hole the
/// pause timer is cleared. On a completed hole the pause is counted; once it
/// lasts 3000 ms the timer is cleared and the next hole begins, or, past hole
/// 18, the match is completed; either way the sequence number goes up.
pub open spec fn hole_timer_state(s: OfflineStateView, delta_ms: u32) -> OfflineStateView {
    if s.game_state != GameStateEnum::HoleCompleted {
        OfflineStateView { hole_completed_timer_ms: None, ..s }
    } else if elapsed_after(s, delta_ms) < HOLE_COMPLETED_PAUSE_MS {
        OfflineStateView { hole_completed_timer_ms: Some(elapsed_after(s, delta_ms)), ..s }
    } else {
        let hole = saturating_add_u8(s.current_hole, 1);
        let t = OfflineStateView { hole_completed_timer_ms: None, current_hole: hole, ..s };
        let u = if hole > HOLES_PER_ROUND {
            OfflineStateView { game_state: GameStateEnum::MatchCompleted, ..t }
        } else {
            next_hole_view(t)
        };
        OfflineStateView { sequence: saturating_add_u64(u.sequence, 1), ..u }
    }
}

/// The update sent when the pause of a completed hole ends: the new state,
/// its one ball, a scorecard with the current strokes (as `u16`, for both the
/// hole and the round) and the cards in hand, and the wagers on the board.
pub open spec fn hole_advance_sync_view(s: OfflineStateView) -> ServerUpdateView {
    ServerUpdateView::StateSync {
        sequence: s.sequence,
        game_state: s.game_state,
        active_player_id: s.active_player_id,
        current_hole: s.current_hole,
        player_positions: seq![s.player_position],
        player_scores: seq![
            ScorecardView {
                running_strokes: s.strokes as u16,
                total_strokes: s.strokes as u16,
                earned_cards: if s.inventory.len() <= HAND_CAPACITY {
                    s.inventory
                } else {
                    s.inventory.take(HAND_CAPACITY as int)
                },
                cards_earned_this_hole: Seq::empty(),
                strokes_per_hole: Seq::empty(),
            },
        ],
        placed_wagers: s.placed_wagers,
    }
}

/// Whether `delta_ms` more milliseconds end the pause of a completed hole.
pub open spec fn pause_ends(s: OfflineStateView, delta_ms: u32) -> bool {
    s.game_state == GameStateEnum::HoleCompleted && elapsed_after(s, delta_ms) >= HOLE_COMPLETED_PAUSE_MS
}

fn hole_advance_sync(state: &OfflineServerState) -> (update: ServerUpdate)
    ensures
        update.deep_view() == hole_advance_sync_view(state@),
{
    let mut player_positions: Vec<u32> = Vec::new();
    player_positions.push(state.player_position);
    let mut hand: Vec<u8> = Vec::new();
    let n = state.inventory.len();
    let mut i: usize = 0;
    while i < n
        invariant
            n == state.inventory@.len(),
            i <= n,
            hand@ == state.inventory@.take(if i <= HAND_CAPACITY { i as int } else { HAND_CAPACITY as int }),
        decreases n - i,
    {
        if hand.len() < HAND_CAPACITY {
            hand.push(state.inventory[i]);
        }
        i = i + 1;
    }
    proof {
        if n <= HAND_CAPACITY {
            assert(state.inventory@.take(n as int) =~= state.inventory@);
        }
    }
    let ghost hand_view = hand@;
    let mut player_scores: Vec<Scorecard> = Vec::new();
    player_scores.push(
        Scorecard {
            running_strokes: state.strokes as u16,
            total_strokes: state.strokes as u16,
            earned_cards: hand,
            cards_earned_this_hole: Vec::new(),
            strokes_per_hole: Vec::new(),
        },
    );
    let mut wagers: Vec<WagerToken> = Vec::new();
    let m = state.placed_wagers.len();
    let mut j: usize = 0;
    while j < m
        invariant
            m == state.placed_wagers@.len(),
            j <= m,
            wagers@ == state.placed_wagers@.take(j as int),
        decreases m - j,
    {
        wagers.push(state.placed_wagers[j]);
        j = j + 1;
    }
    assert(state.placed_wagers@.take(m as int) =~= state.placed_wagers@);
    let update = ServerUpdate::StateSync {
        sequence: state.sequence,
        game_state: state.game_state,
        active_player_id: state.active_player_id,
        current_hole: state.current_hole,
        player_positions,
        player_scores,
        placed_wagers: wagers,
    };
    assert(update.deep_view() =~= hole_advance_sync_view(state@)) by {
        assert(player_positions@ =~= seq![state.player_position]);
        assert(player_scores.deep_view() =~= seq![
            ScorecardView {
                running_strokes: state.strokes as u16,
                total_strokes: state.strokes as u16,
                earned_cards: hand_view,
                cards_earned_this_hole: Seq::empty(),
                strokes_per_hole: Seq::empty(),
            },
        ]);
    }
    update
}

/// Lets `delta_ms` milliseconds pass on the offline server. When the pause
/// of a completed hole ends, the update reporting the new state is returned.
pub fn advance_hole_timer(state: &mut OfflineServerState, delta_ms: u32) -> (update: Option<ServerUpdate>)
    ensures
        final(state)@ == hole_timer_state(old(state)@, delta_ms),
        pause_ends(old(state)@, delta_ms) ==> (update matches Some(u) && u.deep_view()
            == hole_advance_sync_view(final(state)@)),
        !pause_ends(old(state)@, delta_ms) ==> update is None,
{
    if state.game_state != GameStateEnum::HoleCompleted {
        state.hole_completed_timer_ms = None;
        return None;
    }
    let before: u32 = match state.hole_completed_timer_ms {
        Some(t) => t,
        None => 0,
    };
    let elapsed = before.saturating_add(delta_ms);
    if elapsed < HOLE_COMPLETED_PAUSE_MS {
        state.hole_completed_timer_ms = Some(elapsed);
        return None;
    }
    state.hole_completed_timer_ms = None;
    state.current_hole = state.current_hole.saturating_add(1);
    if state.current_hole > HOLES_PER_ROUND {
        state.game_state = GameStateEnum::MatchCompleted;
    } else {
        state.player_position = 0;
        state.strokes = 0;
        state.direction = MovementDirection::Forward;
        state.placed_wagers.clear();
        hole_cards_clear(&mut state.cards_earned_this_hole);
        if state.is_wager_mode && state.inventory.len() > 0 {
            state.game_state = GameStateEnum::MarkerPlacement;
        } else {
            state.game_state = GameStateEnum::AwaitingTurn;
        }
    }
    state.sequence = state.sequence.saturating_add(1);
    Some(hole_advance_sync(state))
}

} // verus!
