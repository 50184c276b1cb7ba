use client::dice::{get_putting_strokes, roll_single_die, roll_two_dice};
use client::movement::resolve_movement_position;
use client::presenter::{cell_spatial_position_bits, cell_spatial_vector_bits, CELL_SPACING_BITS};
use client::terrain::{landing_rule, ActiveCourseTrack, LandingRule, MovementDirection, TerrainType};

fn course() -> ActiveCourseTrack {
    // 0 tee, 1..=5 fairway, 6 rough, 7 bunker, 8 fairway, 9..=10 green, 11 water
    let mut cells = vec![TerrainType::TeeBox];
    for _ in 0..5 {
        cells.push(TerrainType::Fairway);
    }
    cells.push(TerrainType::Rough);
    cells.push(TerrainType::Bunker);
    cells.push(TerrainType::Fairway);
    cells.push(TerrainType::Green(1));
    cells.push(TerrainType::Green(2));
    cells.push(TerrainType::Water);
    ActiveCourseTrack { total_cells: cells.len() as u32, cells, par: 4 }
}

#[test]
fn get_putting_strokes_by_tier() {
    assert_eq!(get_putting_strokes(0), 0);
    assert_eq!(get_putting_strokes(1), 1);
    assert_eq!(get_putting_strokes(2), 2);
    assert_eq!(get_putting_strokes(3), 3);
    assert_eq!(get_putting_strokes(200), 3);
}

#[test]
fn dice_stay_on_their_faces() {
    for _ in 0..200 {
        let d = roll_single_die();
        assert!((1..=6).contains(&d));
        let (a, b) = roll_two_dice();
        assert!((1..=6).contains(&a));
        assert!((1..=6).contains(&b));
    }
}

#[test]
fn forward_move_within_fairway() {
    let c = course();
    assert_eq!(resolve_movement_position(2, 3, MovementDirection::Forward, &c), (5, MovementDirection::Forward));
}

#[test]
fn forward_past_last_green_turns_round() {
    let c = course();
    // last green is cell 10; cell 11 is past it.
    assert_eq!(resolve_movement_position(8, 3, MovementDirection::Forward, &c), (11, MovementDirection::Reverse));
}

#[test]
fn forward_stops_at_last_cell() {
    let c = course();
    assert_eq!(resolve_movement_position(9, 6, MovementDirection::Forward, &c), (11, MovementDirection::Reverse));
}

#[test]
fn forward_at_u32_limit_saturates() {
    let c = course();
    assert_eq!(resolve_movement_position(u32::MAX, 6, MovementDirection::Forward, &c), (11, MovementDirection::Reverse));
}

#[test]
fn reverse_before_first_green_turns_forward() {
    let c = course();
    // first green is cell 9
    assert_eq!(resolve_movement_position(11, 3, MovementDirection::Reverse, &c), (8, MovementDirection::Forward));
    assert_eq!(resolve_movement_position(11, 1, MovementDirection::Reverse, &c), (10, MovementDirection::Reverse));
}

#[test]
fn reverse_never_behind_cell_one() {
    let c = course();
    assert_eq!(resolve_movement_position(2, 5, MovementDirection::Reverse, &c), (1, MovementDirection::Forward));
    assert_eq!(resolve_movement_position(3, 3, MovementDirection::Reverse, &c), (1, MovementDirection::Forward));
}

#[test]
fn zero_roll_stays_put() {
    let c = course();
    assert_eq!(resolve_movement_position(4, 0, MovementDirection::Forward, &c).0, 4);
    assert_eq!(resolve_movement_position(10, 0, MovementDirection::Reverse, &c).0, 10);
}

#[test]
fn course_without_green() {
    let c = ActiveCourseTrack { cells: vec![TerrainType::TeeBox, TerrainType::Fairway, TerrainType::Fairway], total_cells: 3, par: 3 };
    // no green: last green counts as 0, first green as the cell count
    assert_eq!(resolve_movement_position(0, 1, MovementDirection::Forward, &c), (1, MovementDirection::Reverse));
    assert_eq!(resolve_movement_position(2, 1, MovementDirection::Reverse, &c), (1, MovementDirection::Forward));
}

#[test]
fn landing_rules_by_terrain() {
    assert_eq!(landing_rule(9, 5, TerrainType::Green(2)), LandingRule::GreenPutting { target_cell: 9, tier: 2 });
    assert_eq!(
        landing_rule(7, 5, TerrainType::Bunker),
        LandingRule::Standard { target_cell: 7, origin_cell: 5, terrain: TerrainType::Bunker }
    );
}

#[test]
fn cell_positions_are_two_and_a_half_apart() {
    assert_eq!(CELL_SPACING_BITS, 5i64 << 31);
    assert_eq!(cell_spatial_position_bits(0), Some(0));
    assert_eq!(cell_spatial_position_bits(3), Some(3 * CELL_SPACING_BITS));
    assert_eq!(cell_spatial_position_bits(u16::MAX), Some(65535 * CELL_SPACING_BITS));
    assert_eq!(cell_spatial_vector_bits(MovementDirection::Forward), Some(CELL_SPACING_BITS));
    assert_eq!(cell_spatial_vector_bits(MovementDirection::Reverse), Some(-CELL_SPACING_BITS));
}
