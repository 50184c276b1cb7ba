//! The course track: its terrain, and which landing rule a landing falls under.
use vstd::prelude::*;

verus! {

/// The terrain of one cell of the track; a green carries its putting tier.
#[derive(Debug, Clone, Copy, PartialEq, Eq, Structural)]
pub enum TerrainType {
    TeeBox,
    Fairway,
    Rough,
    Bunker,
    Water,
    OutOfBounds,
    Green(u8),
}

/// The way a ball travels along the track.
#[derive(Debug, Clone, Copy, PartialEq, Eq, Structural)]
pub enum MovementDirection {
    Forward,
    Reverse,
}

/// The track of the hole being played: its cells, the number of cells the
/// movement rules count with, and the par of the hole.
#[derive(Debug, Clone)]
pub struct ActiveCourseTrack {
    pub cells: Vec<TerrainType>,
    pub total_cells: u32,
    pub par: u8,
}

/// The outcome of a landing: where the ball ends, the strokes it costs, and
/// whether it holed out.
#[derive(Debug, Clone, Copy, PartialEq, Eq, Structural)]
pub struct TerrainResolution {
    pub final_cell: u16,
    pub penalty_strokes: u16,
    pub completed_hole: bool,
}

/// The two landing rules of the game: putting out on a green, and the rule
/// for every other terrain.
#[derive(Debug, Clone, Copy, PartialEq, Eq, Structural)]
pub enum LandingRule {
    GreenPutting { target_cell: u16, tier: u8 },
    Standard { target_cell: u16, origin_cell: u16, terrain: TerrainType },
}

/// The landing rule that a ball landing on `target_cell` from `origin_cell`
/// on terrain `terrain_type` is resolved by.
pub open spec fn landing_rule_spec(target_cell: u16, origin_cell: u16, terrain_type: TerrainType) -> LandingRule {
    match terrain_type {
        TerrainType::Green(tier) => LandingRule::GreenPutting { target_cell, tier },
        other => LandingRule::Standard { target_cell, origin_cell, terrain: other },
    }
}

/// Chooses the landing rule for a landing: greens are putted out, every
/// other terrain goes by the standard rule.
pub fn landing_rule(target_cell: u16, origin_cell: u16, terrain_type: TerrainType) -> (rule: LandingRule)
    ensures
        rule == landing_rule_spec(target_cell, origin_cell, terrain_type),
{
    match terrain_type {
        TerrainType::Green(tier) => LandingRule::GreenPutting { target_cell, tier },
        other => LandingRule::Standard { target_cell, origin_cell, terrain: other },
    }
}

/// The terrain of cell `index`, if the track has such a cell.
pub open spec fn cell_at(cells: Seq<TerrainType>, index: int) -> Option<TerrainType> {
    if 0 <= index < cells.len() {
        Some(cells[index])
    } else {
        None
    }
}

/// Reads the terrain of cell `index`, if the track has such a cell.
pub fn get_cell(cells: &Vec<TerrainType>, index: usize) -> (cell: Option<TerrainType>)
    ensures
        cell == cell_at(cells@, index as int),
{
    if index < cells.len() {
        Some(cells[index])
    } else {
        None
    }
}

} // verus!
