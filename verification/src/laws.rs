//! What every move of the offline server keeps true: the hand limit, the
//! placement rules of the wagers on the board, the cards that change hands,
//! the order of updates, the length of a round, and the movement rules.
use vstd::prelude::*;
use crate::banana::{
    add_card, after_landing, after_outcome, after_wager, draws_in_range, par_cards, slide_plan, slide_start,
    slide_state, slide_updates, SlideDraws,
};
use crate::messages::{alert_view, card_code, CardType, GameStateEnum, WagerToken};
use crate::movement::{
    counted_index, first_green, first_green_below, last_green, last_green_below, movement_outcome,
};
use crate::scorecard_summary::totals_of;
use crate::server::{draft_outcome, hole_timer_state, pause_ends, skip_state};
use crate::state::{default_state_view, strokes_sum, OfflineStateView, HOLES_PER_ROUND, MAX_INVENTORY};
use crate::terrain::{cell_at, ActiveCourseTrack, MovementDirection, TerrainResolution, TerrainType};
use crate::wager::{draft_rejection, draft_succeeds, early_rejection, first_position, is_hazard, state_after_draft};

verus! {

/// The hand holds no more than the most cards allowed.
pub open spec fn hand_within_limit(s: OfflineStateView) -> bool {
    s.inventory.len() <= MAX_INVENTORY
}

/// A wager obeys the placement rules on the track `cells`: not on the tee,
/// not on a green, a shield on a hazard, a banana or a golden die on fairway.
pub open spec fn wager_fits_tile(w: WagerToken, cells: Seq<TerrainType>) -> bool {
    let terrain = cell_at(cells, w.cell_index as int);
    &&& w.cell_index != 0
    &&& !(terrain matches Some(TerrainType::Green(_)))
    &&& w.card_type == CardType::Shield ==> is_hazard(terrain)
    &&& w.card_type != CardType::Shield ==> terrain == Some(TerrainType::Fairway)
}

/// The wagers on the board obey the placement rules and no two share a tile.
pub open spec fn wagers_well_placed(wagers: Seq<WagerToken>, cells: Seq<TerrainType>) -> bool {
    &&& forall|i: int| 0 <= i < wagers.len() ==> wager_fits_tile(#[trigger] wagers[i], cells)
    &&& forall|i: int, j: int|
        0 <= i < j < wagers.len() ==> (#[trigger] wagers[i]).cell_index != (#[trigger] wagers[j]).cell_index
}

/// Placing a wager never makes the hand exceed its limit.
pub proof fn law_draft_keeps_hand_limit(s: OfflineStateView, card: CardType, cell: u32, course: ActiveCourseTrack)
    requires
        hand_within_limit(s),
    ensures
        hand_within_limit(draft_outcome(s, card, cell, course).0),
{
}

/// A banana slide never makes the hand exceed its limit, whatever it draws.
pub proof fn law_slide_keeps_hand_limit(
    s: OfflineStateView,
    step_count: u8,
    course: ActiveCourseTrack,
    landing: TerrainResolution,
    d: SlideDraws,
)
    requires
        hand_within_limit(s),
    ensures
        hand_within_limit(slide_state(s, step_count, course, landing, d)),
{
}

/// The pause after a completed hole leaves the hand as it is.
pub proof fn law_hole_timer_keeps_hand(s: OfflineStateView, delta_ms: u32)
    ensures
        hole_timer_state(s, delta_ms).inventory == s.inventory,
{
}

/// Placing a wager keeps every wager on the board within the placement rules
/// and alone on its tile.
pub proof fn law_draft_keeps_wagers_well_placed(
    s: OfflineStateView,
    card: CardType,
    cell: u32,
    course: ActiveCourseTrack,
)
    requires
        wagers_well_placed(s.placed_wagers, course.cells@),
    ensures
        wagers_well_placed(draft_outcome(s, card, cell, course).0.placed_wagers, course.cells@),
{
    if draft_succeeds(s, card, cell, course.cells@) {
        let t = state_after_draft(s, card, cell);
        let w = WagerToken { card_type: card, owner_id: s.active_player_id, cell_index: cell };
        assert(t.placed_wagers == s.placed_wagers.push(w));
        assert(early_rejection(s.placed_wagers, card, cell, course.cells@) is None);
        assert(wager_fits_tile(w, course.cells@));
        assert forall|i: int, j: int|
            0 <= i < j < t.placed_wagers.len() implies (#[trigger] t.placed_wagers[i]).cell_index
            != (#[trigger] t.placed_wagers[j]).cell_index by {
            if j == s.placed_wagers.len() {
                assert(t.placed_wagers[i] == s.placed_wagers[i]);
            }
        }
        assert forall|i: int| 0 <= i < t.placed_wagers.len() implies wager_fits_tile(
            #[trigger] t.placed_wagers[i],
            course.cells@,
        ) by {
            if i < s.placed_wagers.len() {
                assert(t.placed_wagers[i] == s.placed_wagers[i]);
            }
        }
    }
}

/// A successful placement moves exactly one card of the placed kind from the
/// hand onto the board, as a wager of the active player on the chosen tile.
pub proof fn law_draft_moves_one_card(s: OfflineStateView, card: CardType, cell: u32, course: ActiveCourseTrack)
    requires
        draft_succeeds(s, card, cell, course.cells@),
    ensures
        ({
            let t = draft_outcome(s, card, cell, course).0;
            &&& t.inventory.to_multiset().insert(card_code(card)) == s.inventory.to_multiset()
            &&& t.placed_wagers == s.placed_wagers.push(
                WagerToken { card_type: card, owner_id: s.active_player_id, cell_index: cell },
            )
        }),
{
    broadcast use vstd::seq_lib::to_multiset_remove, vstd::multiset::group_multiset_axioms;

    let code = card_code(card);
    let p = first_position(s.inventory, code);
    assert(exists|q: int| 0 <= q < s.inventory.len() && s.inventory[q] == code);
    let q = choose|q: int| 0 <= q < s.inventory.len() && s.inventory[q] == code;
    lemma_first_position_exists(s.inventory, code, q);
    let t = state_after_draft(s, card, cell);
    assert(t.inventory == s.inventory.remove(p));
    assert(s.inventory.remove(p).to_multiset() == s.inventory.to_multiset().remove(s.inventory[p]));
    assert(s.inventory.to_multiset().count(code) > 0) by {
        broadcast use vstd::seq_lib::to_multiset_contains;
    }
    assert(s.inventory.to_multiset().remove(code).insert(code) =~= s.inventory.to_multiset());
}

/// When `x` occurs in `s`, its first position is where it first occurs.
pub proof fn lemma_first_position_exists(s: Seq<u8>, x: u8, q: int)
    requires
        0 <= q < s.len(),
        s[q] == x,
    ensures
        0 <= first_position(s, x) < s.len(),
        s[first_position(s, x)] == x,
        forall|j: int| 0 <= j < first_position(s, x) ==> s[j] != x,
    decreases q,
{
    let earlier = exists|j: int| 0 <= j < q && s[j] == x;
    if earlier {
        let j = choose|j: int| 0 <= j < q && s[j] == x;
        lemma_first_position_exists(s, x, j);
    } else {
        assert(0 <= q < s.len() && s[q] == x && forall|j: int| 0 <= j < q ==> s[j] != x);
    }
}

/// No move of a match sends the sequence number backwards: placing a wager,
/// skipping the placement phase, a banana slide and the pause after a hole
/// each leave it as it was or raise it by one.
pub proof fn law_sequence_never_decreases(
    s: OfflineStateView,
    card: CardType,
    cell: u32,
    course: ActiveCourseTrack,
    step_count: u8,
    landing: TerrainResolution,
    d: SlideDraws,
    delta_ms: u32,
)
    requires
        s.sequence < u64::MAX,
    ensures
        draft_outcome(s, card, cell, course).0.sequence == s.sequence
            || draft_outcome(s, card, cell, course).0.sequence == s.sequence + 1,
        skip_state(s).sequence == s.sequence + 1,
        slide_state(s, step_count, course, landing, d).sequence == s.sequence
            || slide_state(s, step_count, course, landing, d).sequence == s.sequence + 1,
        hole_timer_state(s, delta_ms).sequence == s.sequence
            || hole_timer_state(s, delta_ms).sequence == s.sequence + 1,
{
}

/// A round is eighteen holes: when the pause after a hole ends, a match past
/// its eighteenth hole is completed, and any earlier hole is followed by the
/// next one, played from the tee with no strokes and no wagers.
pub proof fn law_round_is_eighteen_holes(s: OfflineStateView, delta_ms: u32)
    requires
        pause_ends(s, delta_ms),
    ensures
        s.current_hole >= HOLES_PER_ROUND ==> hole_timer_state(s, delta_ms).game_state
            == GameStateEnum::MatchCompleted,
        s.current_hole < HOLES_PER_ROUND ==> {
            let t = hole_timer_state(s, delta_ms);
            &&& t.current_hole == s.current_hole + 1
            &&& t.player_position == 0
            &&& t.strokes == 0
            &&& t.placed_wagers.len() == 0
            &&& (t.game_state == GameStateEnum::MarkerPlacement || t.game_state
                == GameStateEnum::AwaitingTurn)
        },
{
}

/// A fresh match starts on hole 1 from the tee, with no strokes, no cards
/// and no wagers, awaiting the first turn.
pub proof fn law_fresh_match()
    ensures
        default_state_view().current_hole == 1,
        default_state_view().player_position == 0,
        default_state_view().strokes == 0,
        default_state_view().inventory.len() == 0,
        default_state_view().placed_wagers.len() == 0,
        default_state_view().game_state == GameStateEnum::AwaitingTurn,
{
}

/// A slide of no cells leaves a ball that is past the tee and on the track
/// where it is.
pub proof fn law_zero_roll_stays(
    current: u32,
    direction: MovementDirection,
    total_cells: u32,
    last_green_idx: int,
    first_green_idx: int,
)
    requires
        1 <= current < total_cells,
    ensures
        movement_outcome(current, 0, direction, total_cells, last_green_idx, first_green_idx).0 == current,
{
}

/// Moving forward never takes the ball past the last counted cell, and moving
/// back never takes it behind cell 1.
pub proof fn law_ball_stays_on_track(
    current: u32,
    roll: u8,
    direction: MovementDirection,
    total_cells: u32,
    last_green_idx: int,
    first_green_idx: int,
)
    requires
        total_cells > 0,
    ensures
        direction == MovementDirection::Forward ==> movement_outcome(
            current,
            roll,
            direction,
            total_cells,
            last_green_idx,
            first_green_idx,
        ).0 < total_cells,
        direction == MovementDirection::Reverse ==> movement_outcome(
            current,
            roll,
            direction,
            total_cells,
            last_green_idx,
            first_green_idx,
        ).0 >= 1,
{
}


/// Every card in the hand is one of the three kinds (codes 0 to 2).
pub open spec fn cards_are_kinds(inventory: Seq<u8>) -> bool {
    forall|i: int| 0 <= i < inventory.len() ==> #[trigger] inventory[i] <= 2
}

/// `later` keeps every card of `earlier` in its place and only adds after them.
pub open spec fn hand_extends(earlier: Seq<u8>, later: Seq<u8>) -> bool {
    earlier.len() <= later.len() && later.subrange(0, earlier.len() as int) == earlier
}

/// Adding a card of a known kind keeps the hand within its limit, keeps its
/// cards of known kinds and only adds after the cards already held.
pub proof fn lemma_add_card_extends(inventory: Seq<u8>, card: u8)
    requires
        inventory.len() <= MAX_INVENTORY,
        cards_are_kinds(inventory),
        card <= 2,
    ensures
        add_card(inventory, card).len() <= MAX_INVENTORY,
        cards_are_kinds(add_card(inventory, card)),
        hand_extends(inventory, add_card(inventory, card)),
{
    assert(add_card(inventory, card).subrange(0, inventory.len() as int) =~= inventory);
}

/// Extending a hand twice extends it.
pub proof fn lemma_hand_extends_trans(a: Seq<u8>, b: Seq<u8>, c: Seq<u8>)
    requires
        hand_extends(a, b),
        hand_extends(b, c),
    ensures
        hand_extends(a, c),
{
    assert(c.subrange(0, a.len() as int) =~= b.subrange(0, a.len() as int));
}

/// A slide asked to go more than four cells goes exactly as a slide of four:
/// same state afterwards and same updates.
pub proof fn law_slide_caps_steps_at_four(
    s: OfflineStateView,
    step_count: u8,
    course: ActiveCourseTrack,
    landing: TerrainResolution,
    d: SlideDraws,
)
    requires
        step_count > 4,
    ensures
        slide_state(s, step_count, course, landing, d) == slide_state(s, 4, course, landing, d),
        slide_updates(s, step_count, course, landing, d) == slide_updates(s, 4, course, landing, d),
{
    assert(slide_plan(slide_start(s), step_count, course) == slide_plan(slide_start(s), 4, course));
}

/// A slide with draws in range only appends cards of known kinds to the hand,
/// never past its limit: the cards held before stay, in their places.
pub proof fn law_slide_only_appends_cards(
    s: OfflineStateView,
    step_count: u8,
    course: ActiveCourseTrack,
    landing: TerrainResolution,
    d: SlideDraws,
)
    requires
        hand_within_limit(s),
        cards_are_kinds(s.inventory),
        draws_in_range(d),
    ensures
        ({
            let t = slide_state(s, step_count, course, landing, d).inventory;
            &&& t.len() <= MAX_INVENTORY
            &&& cards_are_kinds(t)
            &&& hand_extends(s.inventory, t)
        }),
{
    let s0 = slide_start(s);
    assert(s0.inventory.subrange(0, s0.inventory.len() as int) =~= s0.inventory);
    if s.game_state == GameStateEnum::BananaChoice {
        let plan = slide_plan(s0, step_count, course);
        let s1 = after_landing(s0, plan, landing);
        let h0 = s1.inventory;
        let h1 = if plan.golden { add_card(h0, 2) } else { h0 };
        if plan.golden {
            lemma_add_card_extends(h0, 2);
        }
        let h2 = if plan.shield { add_card(h1, d.shield_draw) } else { h1 };
        if plan.shield {
            lemma_add_card_extends(h1, d.shield_draw);
            if plan.golden {
                lemma_hand_extends_trans(h0, h1, h2);
            }
        }
        let s3 = after_wager(s1, plan, d);
        assert(s3.inventory == h2);
        let s4 = after_outcome(s3, plan, landing, course.par, d);
        let earned = par_cards(s3.strokes, course.par, d);
        if landing.completed_hole {
            if earned.len() != 0 {
                assert(earned[0] <= 2);
                lemma_add_card_extends(h2, earned[0]);
                assert(h0.subrange(0, h0.len() as int) =~= h0);
                lemma_hand_extends_trans(h0, h2, s4.inventory);
            }
        } else if plan.banana {
            lemma_add_card_extends(h2, d.banana_draw);
            assert(h0.subrange(0, h0.len() as int) =~= h0);
            lemma_hand_extends_trans(h0, h2, s4.inventory);
        }
        assert(h0.subrange(0, h0.len() as int) =~= h0);
    }
}

/// Placing a wager neither creates nor loses a card: the cards in hand and
/// on the board add up to as many as before.
pub proof fn law_draft_conserves_cards(s: OfflineStateView, card: CardType, cell: u32, course: ActiveCourseTrack)
    ensures
        ({
            let t = draft_outcome(s, card, cell, course).0;
            t.inventory.len() + t.placed_wagers.len() == s.inventory.len() + s.placed_wagers.len()
        }),
{
    if draft_succeeds(s, card, cell, course.cells@) {
        law_draft_moves_one_card(s, card, cell, course);
        broadcast use vstd::seq_lib::to_multiset_len, vstd::multiset::group_multiset_axioms;

        let t = draft_outcome(s, card, cell, course).0;
        assert(t.inventory.to_multiset().insert(card_code(card)).len() == t.inventory.len() + 1);
    }
}


/// When the pause after a hole ends before the last hole, the next hole opens
/// with the placement phase exactly when the match is in wager mode and the
/// hand holds at least one card; otherwise the player goes straight to the
/// turn.
pub proof fn law_next_hole_places_only_with_cards(s: OfflineStateView, delta_ms: u32)
    requires
        pause_ends(s, delta_ms),
        s.current_hole < HOLES_PER_ROUND,
    ensures
        ({
            let t = hole_timer_state(s, delta_ms);
            &&& (t.game_state == GameStateEnum::MarkerPlacement) <==> (s.is_wager_mode && s.inventory.len()
                > 0)
            &&& (t.game_state == GameStateEnum::AwaitingTurn) <==> !(s.is_wager_mode && s.inventory.len()
                > 0)
            &&& s.inventory.len() == 0 ==> t.game_state == GameStateEnum::AwaitingTurn
        }),
{
}

/// A shield may go on a tile exactly when the tile is free, is not the tee,
/// and is rough, bunker, water or out of bounds.
pub proof fn law_shield_goes_on_any_free_hazard(wagers: Seq<WagerToken>, cell: u32, cells: Seq<TerrainType>)
    ensures
        draft_rejection(wagers, CardType::Shield, cell, cells) is None <==> {
            &&& forall|i: int| 0 <= i < wagers.len() ==> (#[trigger] wagers[i]).cell_index != cell
            &&& cell != 0
            &&& 0 <= cell < cells.len()
            &&& (cells[cell as int] == TerrainType::Rough || cells[cell as int] == TerrainType::Bunker
                || cells[cell as int] == TerrainType::Water || cells[cell as int]
                == TerrainType::OutOfBounds)
        },
{
}

/// With a shield in hand, a shield drafted onto a free hazard tile other than
/// the tee is placed there: the board gains that shield of the active player,
/// the hand gives up one card, and the first update confirms the placement.
pub proof fn law_shield_on_free_hazard_is_placed(
    s: OfflineStateView,
    cell: u32,
    course: ActiveCourseTrack,
)
    requires
        s.inventory.contains(0u8),
        forall|i: int| 0 <= i < s.placed_wagers.len() ==> (#[trigger] s.placed_wagers[i]).cell_index != cell,
        cell != 0,
        0 <= cell < course.cells@.len(),
        course.cells@[cell as int] == TerrainType::Rough || course.cells@[cell as int] == TerrainType::Bunker
            || course.cells@[cell as int] == TerrainType::Water || course.cells@[cell as int]
            == TerrainType::OutOfBounds,
    ensures
        ({
            let (t, updates) = draft_outcome(s, CardType::Shield, cell, course);
            &&& t.placed_wagers == s.placed_wagers.push(
                WagerToken { card_type: CardType::Shield, owner_id: s.active_player_id, cell_index: cell },
            )
            &&& t.inventory.len() + 1 == s.inventory.len()
            &&& updates[0] == alert_view("Placed Guardian Shield wager!"@)
        }),
{
    law_shield_goes_on_any_free_hazard(s.placed_wagers, cell, course.cells@);
    law_draft_conserves_cards(s, CardType::Shield, cell, course);
}

/// Finishing a hole two strokes under par (other than with a hole in one)
/// earns exactly one card, decided by the coin: a Trickster Banana on heads,
/// a Golden Die on tails; with room in the hand it is the last card held.
pub proof fn law_eagle_card_follows_coin(
    s: OfflineStateView,
    step_count: u8,
    course: ActiveCourseTrack,
    landing: TerrainResolution,
    d: SlideDraws,
)
    requires
        s.game_state == GameStateEnum::BananaChoice,
        landing.completed_hole,
        slide_state(s, step_count, course, landing, d).strokes + 2 == course.par,
        slide_state(s, step_count, course, landing, d).strokes != 1,
    ensures
        ({
            let t = slide_state(s, step_count, course, landing, d);
            &&& t.cards_earned_this_hole.len() == 1
            &&& (t.cards_earned_this_hole[0] == 1u8) <==> d.par_coin
            &&& (t.cards_earned_this_hole[0] == 2u8) <==> !d.par_coin
            &&& s.inventory.len() + 2 < MAX_INVENTORY ==> t.inventory.last() == t.cards_earned_this_hole[0]
        }),
{
    let s0 = slide_start(s);
    let plan = slide_plan(s0, step_count, course);
    let s3 = after_wager(after_landing(s0, plan, landing), plan, d);
    let t = slide_state(s, step_count, course, landing, d);
    assert(t.strokes == s3.strokes);
    assert(s3.cards_earned_this_hole.len() == 0);
    let earned = par_cards(s3.strokes, course.par, d);
    assert((s3.strokes as i32) - course.par == -2);
    assert(earned.len() == 1);
    assert(s3.inventory.len() <= s.inventory.len() + 2);
}

/// The sum of two lists of stroke counts joined is the sum of the two.
pub proof fn lemma_strokes_sum_concat(a: Seq<u16>, b: Seq<u16>)
    ensures
        strokes_sum(a + b) == strokes_sum(a) + strokes_sum(b),
        strokes_sum(a) >= 0,
        strokes_sum(b) >= 0,
    decreases b.len(),
{
    if b.len() == 0 {
        assert(a + b =~= a);
    } else {
        lemma_strokes_sum_concat(a, b.drop_last());
        assert((a + b).drop_last() =~= a + b.drop_last());
        assert((a + b).last() == b.last());
    }
    crate::state::lemma_saturating_sum_is_clamped_sum(a);
    crate::state::lemma_saturating_sum_is_clamped_sum(b);
}

/// The front nine's score and the back nine's score together are every
/// recorded stroke of a round of at most eighteen holes, when that total fits
/// in a `u16`; the back nine holds every stroke past the ninth hole.
pub proof fn law_nines_add_up_to_the_round(pars: Seq<Option<u8>>, strokes: Seq<u16>)
    requires
        strokes.len() <= 18,
        strokes_sum(strokes) <= u16::MAX,
    ensures
        totals_of(pars, strokes).out_score + totals_of(pars, strokes).in_score == strokes_sum(strokes),
        strokes.len() > 9 ==> totals_of(pars, strokes).in_score == strokes_sum(strokes.skip(9)),
{
    let k: int = if strokes.len() < 9 { strokes.len() as int } else { 9 };
    let front = strokes.subrange(0, k);
    let back = strokes.subrange(k, strokes.len() as int);
    assert(front + back =~= strokes);
    lemma_strokes_sum_concat(front, back);
    assert(crate::scorecard_summary::known_strokes(strokes, 1, 9) =~= front);
    assert(crate::scorecard_summary::known_strokes(strokes, 10, 18) =~= back);
    if strokes.len() > 9 {
        assert(back =~= strokes.skip(9));
    }
}

/// A green cell of the track lies at or before the turn-round index of the
/// movement rules.
pub proof fn lemma_green_at_or_before_last(cells: Seq<TerrainType>, n: nat, g: int)
    requires
        0 <= g < n <= cells.len(),
        cells[g] is Green,
        g <= u32::MAX,
    ensures
        g <= last_green_below(cells, n),
    decreases n,
{
    assert(counted_index(g) == g);
    if g < n - 1 {
        lemma_green_at_or_before_last(cells, (n - 1) as nat, g);
    }
}

/// A green cell of the track lies at or after the index before which a ball
/// going back turns forward.
pub proof fn lemma_green_at_or_after_first(cells: Seq<TerrainType>, n: nat, none: int, g: int)
    requires
        0 <= g < n <= cells.len(),
        cells[g] is Green,
        g <= u32::MAX,
    ensures
        first_green_below(cells, n, none) <= g,
    decreases n,
{
    assert(counted_index(g) == g);
    if g < n - 1 {
        lemma_green_at_or_after_first(cells, (n - 1) as nat, none, g);
    }
}

/// A forward move that ends on or before any green cell of the track, the
/// last cell included, keeps heading forward.
pub proof fn law_forward_keeps_going_until_past_a_green(
    current: u32,
    roll: u8,
    course: ActiveCourseTrack,
    g: int,
)
    requires
        0 <= g < course.cells@.len(),
        course.cells@[g] is Green,
        g <= u32::MAX,
        current + roll <= g,
    ensures
        movement_outcome(
            current,
            roll,
            MovementDirection::Forward,
            course.total_cells,
            last_green(course),
            first_green(course),
        ).1 == MovementDirection::Forward,
{
    lemma_green_at_or_before_last(course.cells@, course.cells@.len(), g);
}

/// A backward move that ends on cell 1 or later and on or after any green
/// cell of the track, the last cell included, keeps heading back.
pub proof fn law_reverse_keeps_going_while_past_a_green(
    current: u32,
    roll: u8,
    course: ActiveCourseTrack,
    g: int,
)
    requires
        0 <= g < course.cells@.len(),
        course.cells@[g] is Green,
        g <= u32::MAX,
        roll <= current,
        current - roll >= 1,
        current - roll >= g,
    ensures
        movement_outcome(
            current,
            roll,
            MovementDirection::Reverse,
            course.total_cells,
            last_green(course),
            first_green(course),
        ) == (((current - roll) as u32), MovementDirection::Reverse),
{
    lemma_green_at_or_after_first(course.cells@, course.cells@.len(), course.total_cells as int, g);
}


/// The known pars of a run of holes split in two are those of the first part
/// followed by those of the second.
pub proof fn lemma_known_pars_split(pars: Seq<Option<u8>>, from: int, mid: int, to: int)
    requires
        from <= mid + 1,
        mid <= to,
    ensures
        crate::scorecard_summary::known_pars(pars, from, to) == crate::scorecard_summary::known_pars(
            pars,
            from,
            mid,
        ) + crate::scorecard_summary::known_pars(pars, mid + 1, to),
    decreases to - mid,
{
    if to == mid {
        assert(crate::scorecard_summary::known_pars(pars, mid + 1, to) =~= Seq::<u16>::empty());
        assert(crate::scorecard_summary::known_pars(pars, from, mid) + Seq::<u16>::empty()
            =~= crate::scorecard_summary::known_pars(pars, from, mid));
    } else {
        lemma_known_pars_split(pars, from, mid, to - 1);
        let a = crate::scorecard_summary::known_pars(pars, from, mid);
        let b = crate::scorecard_summary::known_pars(pars, mid + 1, to - 1);
        if 0 <= to - 1 < pars.len() && pars[to - 1] is Some {
            assert((a + b).push(pars[to - 1]->0 as u16) =~= a + b.push(pars[to - 1]->0 as u16));
        }
    }
}

/// The front nine's par and the back nine's par together are the known pars
/// of all eighteen holes, when that total fits in a `u16`.
pub proof fn law_nine_pars_add_up_to_the_round(pars: Seq<Option<u8>>, strokes: Seq<u16>)
    requires
        strokes_sum(crate::scorecard_summary::known_pars(pars, 1, 18)) <= u16::MAX,
    ensures
        totals_of(pars, strokes).out_par + totals_of(pars, strokes).in_par == strokes_sum(
            crate::scorecard_summary::known_pars(pars, 1, 18),
        ),
{
    lemma_known_pars_split(pars, 1, 9, 18);
    lemma_strokes_sum_concat(
        crate::scorecard_summary::known_pars(pars, 1, 9),
        crate::scorecard_summary::known_pars(pars, 10, 18),
    );
}

/// What finishing a hole earns, by the strokes taken against par: a hole in
/// one or three or more under par earns a Golden Die; two under earns a
/// Trickster Banana on heads and a Golden Die on tails; one under earns the
/// card drawn; par or worse earns nothing.
pub proof fn law_finishing_card_by_score(
    s: OfflineStateView,
    step_count: u8,
    course: ActiveCourseTrack,
    landing: TerrainResolution,
    d: SlideDraws,
)
    requires
        s.game_state == GameStateEnum::BananaChoice,
        landing.completed_hole,
        slide_state(s, step_count, course, landing, d).strokes <= i32::MAX,
    ensures
        ({
            let t = slide_state(s, step_count, course, landing, d);
            let under: int = course.par - t.strokes;
            let earned = t.cards_earned_this_hole;
            &&& t.game_state == GameStateEnum::HoleCompleted
            &&& (t.strokes == 1 || under >= 3) ==> earned == seq![2u8]
            &&& (t.strokes != 1 && under == 2) ==> earned == seq![if d.par_coin { 1u8 } else { 2u8 }]
            &&& (t.strokes != 1 && under == 1) ==> earned == seq![d.par_draw]
            &&& (t.strokes != 1 && under <= 0) ==> earned.len() == 0
        }),
{
    let s0 = slide_start(s);
    let plan = slide_plan(s0, step_count, course);
    let s3 = after_wager(after_landing(s0, plan, landing), plan, d);
    assert(s3.cards_earned_this_hole.len() == 0);
    assert(((s3.strokes as i32) - course.par) as int == s3.strokes - course.par);
}

} // verus!
