//! The state that the offline (single-player) server keeps for a practice
//! match, and the scorecard it reports from it.
use vstd::prelude::*;
use crate::bounded::{hole_cards_new, hole_cards_of, hole_cards_to_vec, hole_strokes_new, hole_strokes_of, hole_strokes_to_vec};
use crate::messages::{GameStateEnum, Scorecard, ScorecardView, ServerUpdate, ServerUpdateView, WagerToken};
use crate::terrain::MovementDirection;

verus! {

/// The most cards a player can hold in hand.
pub const MAX_INVENTORY: usize = 16;

/// The most cards a scorecard lists as held in hand.
pub const HAND_CAPACITY: usize = 16;

/// The number of holes of a round.
pub const HOLES_PER_ROUND: u8 = 18;

/// The offline server's state for a practice match.
#[derive(Debug)]
pub struct OfflineServerState {
    pub current_hole: u8,
    pub player_position: u32,
    pub strokes: u32,
    pub direction: MovementDirection,
    pub game_state: GameStateEnum,
    pub active_player_id: u64,
    pub sequence: u64,
    pub is_initialized: bool,
    pub hole_completed_timer_ms: Option<u32>,
    pub course: String,
    pub is_wager_mode: bool,
    pub player_name: String,
    pub inventory: Vec<u8>,
    pub placed_wagers: Vec<WagerToken>,
    pub cards_earned_this_hole: heapless::Vec<u8, 4>,
    pub strokes_per_hole: heapless::Vec<u16, 18>,
}

/// The contents of an [`OfflineServerState`].
pub struct OfflineStateView {
    pub current_hole: u8,
    pub player_position: u32,
    pub strokes: u32,
    pub direction: MovementDirection,
    pub game_state: GameStateEnum,
    pub active_player_id: u64,
    pub sequence: u64,
    pub is_initialized: bool,
    pub hole_completed_timer_ms: Option<u32>,
    pub course: Seq<char>,
    pub is_wager_mode: bool,
    pub player_name: Seq<char>,
    pub inventory: Seq<u8>,
    pub placed_wagers: Seq<WagerToken>,
    pub cards_earned_this_hole: Seq<u8>,
    pub strokes_per_hole: Seq<u16>,
}

impl View for OfflineServerState {
    type V = OfflineStateView;

    open spec fn view(&self) -> OfflineStateView {
        OfflineStateView {
            current_hole: self.current_hole,
            player_position: self.player_position,
            strokes: self.strokes,
            direction: self.direction,
            game_state: self.game_state,
            active_player_id: self.active_player_id,
            sequence: self.sequence,
            is_initialized: self.is_initialized,
            hole_completed_timer_ms: self.hole_completed_timer_ms,
            course: self.course@,
            is_wager_mode: self.is_wager_mode,
            player_name: self.player_name@,
            inventory: self.inventory@,
            placed_wagers: self.placed_wagers@,
            cards_earned_this_hole: hole_cards_of(self.cards_earned_this_hole),
            strokes_per_hole: hole_strokes_of(self.strokes_per_hole),
        }
    }
}

/// The state of a fresh practice match: hole 1, ball on the tee heading
/// forward, no strokes, awaiting the first turn of player 1234 on the green
/// course, standard mode, player "David", no cards and no wagers.
pub open spec fn default_state_view() -> OfflineStateView {
    OfflineStateView {
        current_hole: 1,
        player_position: 0,
        strokes: 0,
        direction: MovementDirection::Forward,
        game_state: GameStateEnum::AwaitingTurn,
        active_player_id: 1234,
        sequence: 0,
        is_initialized: false,
        hole_completed_timer_ms: None,
        course: "green"@,
        is_wager_mode: false,
        player_name: "David"@,
        inventory: Seq::empty(),
        placed_wagers: Seq::empty(),
        cards_earned_this_hole: Seq::empty(),
        strokes_per_hole: Seq::empty(),
    }
}

impl Default for OfflineServerState {
    fn default() -> (state: Self)
        ensures
            state@ == default_state_view(),
    {
        OfflineServerState {
            current_hole: 1,
            player_position: 0,
            strokes: 0,
            direction: MovementDirection::Forward,
            game_state: GameStateEnum::AwaitingTurn,
            active_player_id: 1234,
            sequence: 0,
            is_initialized: false,
            hole_completed_timer_ms: None,
            course: String::from_str("green"),
            is_wager_mode: false,
            player_name: String::from_str("David"),
            inventory: Vec::new(),
            placed_wagers: Vec::new(),
            cards_earned_this_hole: hole_cards_new(),
            strokes_per_hole: hole_strokes_new(),
        }
    }
}

/// The sum of a list of stroke counts.
pub open spec fn strokes_sum(s: Seq<u16>) -> int
    decreases s.len(),
{
    if s.len() == 0 {
        0
    } else {
        strokes_sum(s.drop_last()) + s.last()
    }
}

/// `x` held to the range of `u16`, for `x >= 0`.
pub open spec fn clamp_u16(x: int) -> u16 {
    if x > u16::MAX {
        u16::MAX
    } else {
        x as u16
    }
}

/// A list of stroke counts added up one by one with saturating addition.
pub open spec fn saturating_strokes_sum(s: Seq<u16>) -> u16
    decreases s.len(),
{
    if s.len() == 0 {
        0
    } else {
        clamp_u16(saturating_strokes_sum(s.drop_last()) + s.last())
    }
}

/// Adding up stroke counts with saturation gives the true sum held to `u16`.
pub proof fn lemma_saturating_sum_is_clamped_sum(s: Seq<u16>)
    ensures
        saturating_strokes_sum(s) == clamp_u16(strokes_sum(s)),
        strokes_sum(s) >= 0,
    decreases s.len(),
{
    if s.len() > 0 {
        lemma_saturating_sum_is_clamped_sum(s.drop_last());
    }
}

/// The scorecard of a state: the strokes of the current hole and of the
/// round (each held to `u16`), the first cards of the hand, the cards earned
/// on this hole and the strokes of each finished hole.
pub open spec fn scorecard_view(s: OfflineStateView) -> ScorecardView {
    let running = clamp_u16(s.strokes as int);
    ScorecardView {
        running_strokes: running,
        total_strokes: clamp_u16(strokes_sum(s.strokes_per_hole) + running),
        earned_cards: if s.inventory.len() <= HAND_CAPACITY {
            s.inventory
        } else {
            s.inventory.take(HAND_CAPACITY as int)
        },
        cards_earned_this_hole: s.cards_earned_this_hole,
        strokes_per_hole: s.strokes_per_hole,
    }
}

impl OfflineServerState {
    /// The scorecard that the server reports for this state.
    pub fn build_scorecard(&self) -> (card: Scorecard)
        ensures
            card.deep_view() == scorecard_view(self@),
    {
        let mut hand: Vec<u8> = Vec::new();
        let n = self.inventory.len();
        let mut i: usize = 0;
        while i < n
            invariant
                n == self.inventory@.len(),
                i <= n,
                hand@ == self.inventory@.take(
                    if i <= HAND_CAPACITY { i as int } else { HAND_CAPACITY as int },
                ),
            decreases n - i,
        {
            if hand.len() < HAND_CAPACITY {
                hand.push(self.inventory[i]);
            }
            i = i + 1;
        }
        proof {
            if n <= HAND_CAPACITY {
                assert(self.inventory@.take(n as int) =~= self.inventory@);
            }
        }
        let cards_earned = hole_cards_to_vec(&self.cards_earned_this_hole);
        let per_hole = hole_strokes_to_vec(&self.strokes_per_hole);

        let mut total_strokes: u16 = 0;
        let m = per_hole.len();
        let mut j: usize = 0;
        while j < m
            invariant
                m == per_hole@.len(),
                j <= m,
                total_strokes == saturating_strokes_sum(per_hole@.take(j as int)),
            decreases m - j,
        {
            assert(per_hole@.take(j + 1).drop_last() =~= per_hole@.take(j as int));
            total_strokes = total_strokes.saturating_add(per_hole[j]);
            j = j + 1;
        }
        assert(per_hole@.take(m as int) =~= per_hole@);
        proof {
            lemma_saturating_sum_is_clamped_sum(per_hole@);
        }

        let current_strokes: u16 = if self.strokes > 65535 {
            u16::MAX
        } else {
            self.strokes as u16
        };
        let total = total_strokes.saturating_add(current_strokes);

        Scorecard {
            running_strokes: current_strokes,
            total_strokes: total,
            earned_cards: hand,
            cards_earned_this_hole: cards_earned,
            strokes_per_hole: per_hole,
        }
    }
}

/// The state update that reports `s`: its sequence number, phase, active
/// player and hole, the one ball's cell, the one scorecard and the wagers on
/// the board.
pub open spec fn state_sync_view(s: OfflineStateView) -> ServerUpdateView {
    ServerUpdateView::StateSync {
        sequence: s.sequence,
        game_state: s.game_state,
        active_player_id: s.active_player_id,
        current_hole: s.current_hole,
        player_positions: seq![s.player_position],
        player_scores: seq![scorecard_view(s)],
        placed_wagers: s.placed_wagers,
    }
}

impl OfflineServerState {
    /// The state update that reports this state.
    pub fn state_sync(&self) -> (update: ServerUpdate)
        ensures
            update.deep_view() == state_sync_view(self@),
    {
        let mut player_positions: Vec<u32> = Vec::new();
        player_positions.push(self.player_position);
        let mut player_scores: Vec<Scorecard> = Vec::new();
        player_scores.push(self.build_scorecard());
        let mut wagers: Vec<WagerToken> = Vec::new();
        let n = self.placed_wagers.len();
        let mut i: usize = 0;
        while i < n
            invariant
                n == self.placed_wagers@.len(),
                i <= n,
                wagers@ == self.placed_wagers@.take(i as int),
            decreases n - i,
        {
            wagers.push(self.placed_wagers[i]);
            i = i + 1;
        }
        assert(self.placed_wagers@.take(n as int) =~= self.placed_wagers@);
        let update = ServerUpdate::StateSync {
            sequence: self.sequence,
            game_state: self.game_state,
            active_player_id: self.active_player_id,
            current_hole: self.current_hole,
            player_positions,
            player_scores,
            placed_wagers: wagers,
        };
        assert(update.deep_view() =~= state_sync_view(self@)) by {
            assert(player_positions@ =~= seq![self.player_position]);
            assert(player_scores.deep_view() =~= seq![scorecard_view(self@)]);
        }
        update
    }
}

/// Appends the update that reports `state` to `updates`.
pub fn send_state_sync(state: &OfflineServerState, updates: Vec<ServerUpdate>) -> (sent: Vec<ServerUpdate>)
    ensures
        sent.deep_view() == updates.deep_view().push(state_sync_view(state@)),
{
    let mut updates = updates;
    let ghost before = updates.deep_view();
    updates.push(state.state_sync());
    assert(updates.deep_view() =~= before.push(state_sync_view(state@)));
    updates
}

} // verus!
