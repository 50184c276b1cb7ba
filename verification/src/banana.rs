//! The banana slide: after a Trickster Banana the player picks how far (0 to
//! 4 cells) the ball slides, and the landing, the wager it meets and the end
//! of the hole are resolved.
use vstd::prelude::*;
use crate::bounded::{hole_cards_clear, hole_cards_push, hole_strokes_push};
use crate::chance::{random_coin, random_in_range};
use crate::messages::{alert, alert_view, CardType, GameStateEnum, ServerUpdate, ServerUpdateView};
use crate::movement::{first_green, last_green, movement_outcome, resolve_movement_position};
use crate::state::{
    clamp_u16, send_state_sync, state_sync_view, OfflineServerState, OfflineStateView, MAX_INVENTORY,
};
use crate::terrain::{
    cell_at, get_cell, landing_rule, landing_rule_spec, ActiveCourseTrack, LandingRule,
    MovementDirection, TerrainResolution, TerrainType,
};
use crate::wager::{find_wager_at, first_wager_at};

verus! {

/// What a slide does before its landing is resolved: the cell it reaches, the
/// direction it leaves with, the wager it meets there, and the terrain the
/// landing is resolved on (fairway under a shield).
#[derive(Debug, Clone, Copy, PartialEq, Eq, Structural)]
pub struct SlidePlan {
    pub target: u32,
    pub direction: MovementDirection,
    pub shield: bool,
    pub banana: bool,
    pub golden: bool,
    pub terrain: TerrainType,
}

/// The random draws a slide may use: the card a shield hands out (0 to 2),
/// the coin and the card (0 to 2) of a good score, and the card a banana
/// hands out (1 or 2).
#[derive(Debug, Clone, Copy, PartialEq, Eq, Structural)]
pub struct SlideDraws {
    pub shield_draw: u8,
    pub par_coin: bool,
    pub par_draw: u8,
    pub banana_draw: u8,
}

/// Whether every draw lies in its range.
pub open spec fn draws_in_range(d: SlideDraws) -> bool {
    &&& d.shield_draw <= 2
    &&& d.par_draw <= 2
    &&& 1 <= d.banana_draw <= 2
}

/// The plan of a slide of `step_count` cells (at most 4) from the state `s`.
pub open spec fn slide_plan(s: OfflineStateView, step_count: u8, course: ActiveCourseTrack) -> SlidePlan {
    let step: u8 = if step_count < 4 { step_count } else { 4 };
    let moved = movement_outcome(
        s.player_position,
        step,
        s.direction,
        course.total_cells,
        last_green(course),
        first_green(course),
    );
    let wager = first_wager_at(s.placed_wagers, moved.0);
    let shield = wager matches Some(w) && w.card_type == CardType::Shield;
    let actual = match cell_at(course.cells@, moved.0 as int) {
        Some(t) => t,
        None => TerrainType::Fairway,
    };
    SlidePlan {
        target: moved.0,
        direction: moved.1,
        shield: shield,
        banana: wager matches Some(w) && w.card_type == CardType::Banana,
        golden: wager matches Some(w) && w.card_type == CardType::GoldenDie,
        terrain: if shield { TerrainType::Fairway } else { actual },
    }
}

/// The landing rule a slide of `step_count` cells is resolved by, from the
/// ball's current cell; only a game waiting for the banana choice slides.
pub open spec fn slide_landing(s: OfflineStateView, step_count: u8, course: ActiveCourseTrack) -> Option<LandingRule> {
    if s.game_state == GameStateEnum::BananaChoice {
        let plan = slide_plan(s, step_count, course);
        Some(landing_rule_spec(plan.target as u16, s.player_position as u16, plan.terrain))
    } else {
        None
    }
}

/// Adds `card` to a hand that holds fewer than the most cards allowed.
pub open spec fn add_card(inventory: Seq<u8>, card: u8) -> Seq<u8> {
    if inventory.len() < MAX_INVENTORY {
        inventory.push(card)
    } else {
        inventory
    }
}

/// `a + b` held to the range of `u32`.
pub open spec fn saturating_add_u32(a: u32, b: int) -> u32 {
    if a + b > u32::MAX {
        u32::MAX
    } else {
        (a + b) as u32
    }
}

/// `a - b` held at 0.
pub open spec fn saturating_sub_u32(a: u32, b: int) -> u32 {
    if a - b < 0 {
        0
    } else {
        (a - b) as u32
    }
}

/// The cards earned for finishing a hole in `strokes` on a par of `par`:
/// a golden die for an ace or three under par (or better), a banana or a
/// golden die on the coin at two under, the drawn card at one under, and
/// nothing otherwise. The score is taken with the strokes read as an `i32`.
pub open spec fn par_cards(strokes: u32, par: u8, d: SlideDraws) -> Seq<u8> {
    let relative = (strokes as i32) - par;
    if relative <= -3 || strokes == 1 {
        seq![2u8]
    } else if relative == -2 {
        seq![if d.par_coin { 1u8 } else { 2u8 }]
    } else if relative == -1 {
        seq![d.par_draw]
    } else {
        Seq::empty()
    }
}

/// The alert of a golden die met by the ball.
pub open spec fn golden_message() -> Seq<char> {
    "Triggered Golden Die! -2 Strokes, earned Golden Die card."@
}

/// The alert of a shield met by the ball, naming the card drawn.
pub open spec fn shield_message(draw: u8) -> Seq<char> {
    if draw == 0 {
        "Shield triggered! Drew Shield."@
    } else if draw == 1 {
        "Shield triggered! Drew Banana."@
    } else {
        "Shield triggered! Drew Golden Die."@
    }
}

/// The alert of a banana met by the ball, naming the card drawn.
pub open spec fn banana_message(draw: u8) -> Seq<char> {
    if draw == 1 {
        "Banana triggered! Drew Banana, slide 0-4."@
    } else {
        "Banana triggered! Drew Golden Die, slide 0-4."@
    }
}

/// The state once the ball has landed: on the resolved cell, with its new
/// direction and the landing's penalty strokes.
pub open spec fn after_landing(s: OfflineStateView, plan: SlidePlan, landing: TerrainResolution) -> OfflineStateView {
    OfflineStateView {
        player_position: landing.final_cell as u32,
        direction: plan.direction,
        strokes: saturating_add_u32(s.strokes, landing.penalty_strokes as int),
        ..s
    }
}

/// The state once the wager met by the ball has acted: a golden die takes
/// two strokes off and adds a golden die to the hand; a shield adds the
/// drawn card.
pub open spec fn after_wager(s: OfflineStateView, plan: SlidePlan, d: SlideDraws) -> OfflineStateView {
    let g = if plan.golden {
        OfflineStateView {
            strokes: saturating_sub_u32(s.strokes, 2),
            inventory: add_card(s.inventory, 2),
            ..s
        }
    } else {
        s
    };
    if plan.shield {
        OfflineStateView { inventory: add_card(g.inventory, d.shield_draw), ..g }
    } else {
        g
    }
}

/// The state once the slide is decided: a holed ball completes the hole
/// (its strokes recorded, held to `u16`, while fewer than eighteen holes are
/// recorded) and earns its par cards; otherwise a banana adds the drawn card
/// and the choice goes on, and any other landing awaits the next turn.
pub open spec fn after_outcome(
    s: OfflineStateView,
    plan: SlidePlan,
    landing: TerrainResolution,
    par: u8,
    d: SlideDraws,
) -> OfflineStateView {
    if landing.completed_hole {
        let earned = par_cards(s.strokes, par, d);
        OfflineStateView {
            game_state: GameStateEnum::HoleCompleted,
            hole_completed_timer_ms: Some(0u32),
            strokes_per_hole: if s.strokes_per_hole.len() < 18 {
                s.strokes_per_hole.push(clamp_u16(s.strokes as int))
            } else {
                s.strokes_per_hole
            },
            inventory: if earned.len() == 0 {
                s.inventory
            } else {
                add_card(s.inventory, earned[0])
            },
            cards_earned_this_hole: if earned.len() == 0 {
                s.cards_earned_this_hole
            } else if s.cards_earned_this_hole.len() < 4 {
                s.cards_earned_this_hole.push(earned[0])
            } else {
                s.cards_earned_this_hole
            },
            ..s
        }
    } else if plan.banana {
        OfflineStateView { inventory: add_card(s.inventory, d.banana_draw), ..s }
    } else {
        OfflineStateView { game_state: GameStateEnum::AwaitingTurn, ..s }
    }
}

/// The state before the slide: last hole's earned cards are forgotten.
pub open spec fn slide_start(s: OfflineStateView) -> OfflineStateView {
    OfflineStateView { cards_earned_this_hole: Seq::empty(), ..s }
}

/// The state after a slide of `step_count` cells whose landing resolved to
/// `landing`, with the draws `d`.
pub open spec fn slide_state(
    s: OfflineStateView,
    step_count: u8,
    course: ActiveCourseTrack,
    landing: TerrainResolution,
    d: SlideDraws,
) -> OfflineStateView {
    let s0 = slide_start(s);
    if s.game_state != GameStateEnum::BananaChoice {
        s0
    } else {
        let plan = slide_plan(s0, step_count, course);
        let s3 = after_wager(after_landing(s0, plan, landing), plan, d);
        let s4 = after_outcome(s3, plan, landing, course.par, d);
        OfflineStateView { sequence: (s4.sequence + 1) as u64, ..s4 }
    }
}

/// The alerts a slide sends: the golden die's, the shield's, and (when the
/// hole goes on) the banana's, in that order.
pub open spec fn slide_alerts(plan: SlidePlan, landing: TerrainResolution, d: SlideDraws) -> Seq<ServerUpdateView> {
    let g = if plan.golden { seq![alert_view(golden_message())] } else { Seq::empty() };
    let sh = if plan.shield { seq![alert_view(shield_message(d.shield_draw))] } else { Seq::empty() };
    let b = if !landing.completed_hole && plan.banana {
        seq![alert_view(banana_message(d.banana_draw))]
    } else {
        Seq::empty()
    };
    g + sh + b
}

/// Everything a slide sends: its alerts, then the update that reports the
/// state after it.
pub open spec fn slide_updates(
    s: OfflineStateView,
    step_count: u8,
    course: ActiveCourseTrack,
    landing: TerrainResolution,
    d: SlideDraws,
) -> Seq<ServerUpdateView> {
    let alerts = if s.game_state != GameStateEnum::BananaChoice {
        Seq::empty()
    } else {
        slide_alerts(slide_plan(slide_start(s), step_count, course), landing, d)
    };
    alerts.push(state_sync_view(slide_state(s, step_count, course, landing, d)))
}

/// Whether a slide from `s` can run without an arithmetic overflow: the
/// sequence number has room to go up, and the score of a holed ball can be
/// taken relative to par.
pub open spec fn slide_in_range(
    s: OfflineStateView,
    step_count: u8,
    course: ActiveCourseTrack,
    landing: TerrainResolution,
) -> bool {
    s.game_state == GameStateEnum::BananaChoice ==> {
        let s0 = slide_start(s);
        let plan = slide_plan(s0, step_count, course);
        let s3 = after_wager(after_landing(s0, plan, landing), plan, SlideDraws {
            shield_draw: 0,
            par_coin: false,
            par_draw: 0,
            banana_draw: 1,
        });
        &&& s.sequence < u64::MAX
        &&& landing.completed_hole ==> (s3.strokes as i32) - course.par >= i32::MIN
    }
}

/// Computes the plan of a slide of `step_count` cells from the current state.
pub fn plan_slide(state: &OfflineServerState, step_count: u8, course: &ActiveCourseTrack) -> (plan: SlidePlan)
    ensures
        plan == slide_plan(state@, step_count, *course),
{
    let step = if step_count < 4 { step_count } else { 4 };
    let (target, direction) = resolve_movement_position(state.player_position, step, state.direction, course);
    let wager = find_wager_at(&state.placed_wagers, target);
    let mut shield = false;
    let mut banana = false;
    let mut golden = false;
    if let Some(w) = wager {
        match w.card_type {
            CardType::Shield => {
                shield = true;
            },
            CardType::Banana => {
                banana = true;
            },
            CardType::GoldenDie => {
                golden = true;
            },
        }
    }
    let actual = match get_cell(&course.cells, target as usize) {
        Some(t) => t,
        None => TerrainType::Fairway,
    };
    let terrain = if shield { TerrainType::Fairway } else { actual };
    SlidePlan { target, direction, shield, banana, golden, terrain }
}

/// The landing rule that a slide of `step_count` cells is resolved by, or
/// `None` when the game is not waiting for the banana choice.
pub fn banana_slide_landing(state: &OfflineServerState, step_count: u8, course: &ActiveCourseTrack) -> (rule: Option<LandingRule>)
    ensures
        rule == slide_landing(state@, step_count, *course),
{
    if state.game_state != GameStateEnum::BananaChoice {
        return None;
    }
    let plan = plan_slide(state, step_count, course);
    Some(landing_rule(plan.target as u16, state.player_position as u16, plan.terrain))
}

/// Tells whether a slide can run without an arithmetic overflow.
pub fn slide_in_range_check(
    state: &OfflineServerState,
    step_count: u8,
    course: &ActiveCourseTrack,
    landing: TerrainResolution,
) -> (ok: bool)
    ensures
        ok == slide_in_range(state@, step_count, *course, landing),
{
    if state.game_state != GameStateEnum::BananaChoice {
        return true;
    }
    if state.sequence == u64::MAX {
        return false;
    }
    if !landing.completed_hole {
        return true;
    }
    let ghost s0 = slide_start(state@);
    let plan = plan_slide(state, step_count, course);
    assert(plan == slide_plan(s0, step_count, *course));
    let mut strokes = state.strokes.saturating_add(landing.penalty_strokes as u32);
    if plan.golden {
        strokes = strokes.saturating_sub(2);
    }
    let relative: i64 = (strokes as i32) as i64 - course.par as i64;
    relative >= i32::MIN as i64
}

fn add_card_to_hand(inventory: &mut Vec<u8>, card: u8)
    ensures
        final(inventory)@ == add_card(old(inventory)@, card),
{
    if inventory.len() < MAX_INVENTORY {
        inventory.push(card);
    }
}

fn shield_text(draw: u8) -> (text: &'static str)
    ensures
        text@ == shield_message(draw),
{
    match draw {
        0 => "Shield triggered! Drew Shield.",
        1 => "Shield triggered! Drew Banana.",
        _ => "Shield triggered! Drew Golden Die.",
    }
}

fn banana_text(draw: u8) -> (text: &'static str)
    ensures
        text@ == banana_message(draw),
{
    if draw == 1 {
        "Banana triggered! Drew Banana, slide 0-4."
    } else {
        "Banana triggered! Drew Golden Die, slide 0-4."
    }
}

/// Lands the ball and lets the wager it meets act, collecting the alerts.
fn land_and_trigger(
    state: &mut OfflineServerState,
    plan: SlidePlan,
    landing: TerrainResolution,
    d: SlideDraws,
    updates: &mut Vec<ServerUpdate>,
)
    ensures
        final(state)@ == after_wager(after_landing(old(state)@, plan, landing), plan, d),
        final(updates).deep_view() == old(updates).deep_view() + (if plan.golden {
            seq![alert_view(golden_message())]
        } else {
            Seq::empty()
        }) + (if plan.shield {
            seq![alert_view(shield_message(d.shield_draw))]
        } else {
            Seq::empty()
        }),
{
    let ghost u0 = updates.deep_view();
    state.player_position = landing.final_cell as u32;
    state.direction = plan.direction;
    state.strokes = state.strokes.saturating_add(landing.penalty_strokes as u32);

    if plan.golden {
        state.strokes = state.strokes.saturating_sub(2);
        add_card_to_hand(&mut state.inventory, 2);
        updates.push(alert("Triggered Golden Die! -2 Strokes, earned Golden Die card."));
    }
    let ghost u1 = updates.deep_view();
    assert(u1 =~= u0 + (if plan.golden {
        seq![alert_view(golden_message())]
    } else {
        Seq::empty()
    }));
    if plan.shield {
        add_card_to_hand(&mut state.inventory, d.shield_draw);
        updates.push(alert(shield_text(d.shield_draw)));
    }
    assert(updates.deep_view() =~= u1 + (if plan.shield {
        seq![alert_view(shield_message(d.shield_draw))]
    } else {
        Seq::empty()
    }));
}

/// Decides the slide: the hole is completed, the banana choice goes on, or
/// the game awaits the next turn.
fn decide_outcome(
    state: &mut OfflineServerState,
    plan: SlidePlan,
    landing: TerrainResolution,
    par: u8,
    d: SlideDraws,
    updates: &mut Vec<ServerUpdate>,
)
    requires
        landing.completed_hole ==> (old(state).strokes as i32) - par >= i32::MIN,
    ensures
        final(state)@ == after_outcome(old(state)@, plan, landing, par, d),
        final(updates).deep_view() == old(updates).deep_view() + (if !landing.completed_hole
            && plan.banana {
            seq![alert_view(banana_message(d.banana_draw))]
        } else {
            Seq::empty()
        }),
{
    let ghost s = state@;
    let ghost u0 = updates.deep_view();
    if landing.completed_hole {
        state.game_state = GameStateEnum::HoleCompleted;
        state.hole_completed_timer_ms = Some(0);
        let strokes_u16: u16 = if state.strokes > 65535 { u16::MAX } else { state.strokes as u16 };
        let _ = hole_strokes_push(&mut state.strokes_per_hole, strokes_u16);

        let relative: i32 = (state.strokes as i32) - (par as i32);
        let ghost earned = par_cards(s.strokes, par, d);
        let card: Option<u8> = if relative <= -3 || state.strokes == 1 {
            Some(2)
        } else if relative == -2 {
            Some(if d.par_coin { 1 } else { 2 })
        } else if relative == -1 {
            Some(d.par_draw)
        } else {
            None
        };
        assert(card is None <==> earned.len() == 0);
        assert(card matches Some(c) ==> earned.len() == 1 && earned[0] == c);
        if let Some(c) = card {
            add_card_to_hand(&mut state.inventory, c);
            let _ = hole_cards_push(&mut state.cards_earned_this_hole, c);
        }
        assert(state@ == after_outcome(s, plan, landing, par, d));
    } else if plan.banana {
        add_card_to_hand(&mut state.inventory, d.banana_draw);
        updates.push(alert(banana_text(d.banana_draw)));
    } else {
        state.game_state = GameStateEnum::AwaitingTurn;
    }
    assert(updates.deep_view() =~= u0 + (if !landing.completed_hole && plan.banana {
        seq![alert_view(banana_message(d.banana_draw))]
    } else {
        Seq::empty()
    }));
}

/// Carries out a slide of `step_count` cells whose landing, resolved by the
/// rule [`banana_slide_landing`] gives, came out as `landing`, with the
/// random draws `d`. Outside the banana choice only last hole's earned cards
/// are forgotten and the state is reported.
pub fn apply_banana_slide(
    state: &mut OfflineServerState,
    step_count: u8,
    course: &ActiveCourseTrack,
    landing: TerrainResolution,
    d: SlideDraws,
) -> (updates: Vec<ServerUpdate>)
    requires
        slide_in_range(old(state)@, step_count, *course, landing),
    ensures
        final(state)@ == slide_state(old(state)@, step_count, *course, landing, d),
        updates.deep_view() == slide_updates(old(state)@, step_count, *course, landing, d),
{
    let ghost s = state@;
    let mut updates: Vec<ServerUpdate> = Vec::new();
    assert(updates.deep_view() =~= Seq::<ServerUpdateView>::empty());
    hole_cards_clear(&mut state.cards_earned_this_hole);
    assert(state@ == slide_start(s));

    if state.game_state != GameStateEnum::BananaChoice {
        let sent = send_state_sync(state, updates);
        assert(sent.deep_view() =~= slide_updates(s, step_count, *course, landing, d));
        return sent;
    }

    let plan = plan_slide(state, step_count, course);
    land_and_trigger(state, plan, landing, d, &mut updates);
    proof {
        let s3 = after_wager(after_landing(slide_start(s), plan, landing), plan, d);
        let s3z = after_wager(after_landing(slide_start(s), plan, landing), plan, SlideDraws {
            shield_draw: 0,
            par_coin: false,
            par_draw: 0,
            banana_draw: 1,
        });
        assert(s3.strokes == s3z.strokes);
    }
    decide_outcome(state, plan, landing, course.par, d, &mut updates);
    state.sequence = state.sequence + 1;
    assert(state@ == slide_state(s, step_count, *course, landing, d));
    let ghost alerts = updates.deep_view();
    assert(alerts =~= slide_alerts(plan, landing, d));
    let sent = send_state_sync(state, updates);
    sent
}

/// Carries out a slide of `step_count` cells whose landing, resolved by the
/// rule [`banana_slide_landing`] gives, came out as `landing`; the cards a
/// shield, a banana or a good score hand out are drawn at random.
pub fn handle_choose_banana_slide(
    state: &mut OfflineServerState,
    step_count: u8,
    course: &ActiveCourseTrack,
    landing: TerrainResolution,
) -> (updates: Vec<ServerUpdate>)
    requires
        slide_in_range(old(state)@, step_count, *course, landing),
    ensures
        exists|d: SlideDraws|
            draws_in_range(d) && final(state)@ == slide_state(
                old(state)@,
                step_count,
                *course,
                landing,
                d,
            ) && updates.deep_view() == slide_updates(old(state)@, step_count, *course, landing, d),
{
    let d = SlideDraws {
        shield_draw: random_in_range(0, 2),
        par_coin: random_coin(),
        par_draw: random_in_range(0, 2),
        banana_draw: random_in_range(1, 2),
    };
    let ghost s = state@;
    let updates = apply_banana_slide(state, step_count, course, landing, d);
    assert(draws_in_range(d) && state@ == slide_state(s, step_count, *course, landing, d)
        && updates.deep_view() == slide_updates(s, step_count, *course, landing, d));
    updates
}

} // verus!
