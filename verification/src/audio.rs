//! Which sound goes with what happens: button interactions, dice, landings,
//! wagers and the ends of holes and matches.
use vstd::prelude::*;
use crate::messages::{GameStateEnum, ServerUpdate};
use crate::terrain::{cell_at, get_cell, ActiveCourseTrack, TerrainType};

verus! {

/// The game's sound effects.
#[derive(Debug, Clone, Copy, PartialEq, Eq, Structural)]
pub enum SoundCue {
    ButtonHover,
    ButtonClick,
    DiceRoll,
    WagerDraft,
    WagerPlace,
    LandFairway,
    LandRough,
    LandBunker,
    LandWater,
    LandOutOfBounds,
    HoleComplete,
    MatchComplete,
}

/// How the pointer meets a button.
#[derive(Debug, Clone, Copy, PartialEq, Eq, Structural)]
pub enum ButtonInteraction {
    Pressed,
    Hovered,
    Idle,
}

/// The sound of a button interaction: a click when pressed, a hover sound
/// when hovered, none otherwise.
pub open spec fn interaction_sound_for(i: ButtonInteraction) -> Option<SoundCue> {
    match i {
        ButtonInteraction::Pressed => Some(SoundCue::ButtonClick),
        ButtonInteraction::Hovered => Some(SoundCue::ButtonHover),
        ButtonInteraction::Idle => None,
    }
}

/// Chooses the sound of a button interaction.
pub fn interaction_sound(i: ButtonInteraction) -> (cue: Option<SoundCue>)
    ensures
        cue == interaction_sound_for(i),
{
    match i {
        ButtonInteraction::Pressed => Some(SoundCue::ButtonClick),
        ButtonInteraction::Hovered => Some(SoundCue::ButtonHover),
        ButtonInteraction::Idle => None,
    }
}

/// The sound of a ball landing on a terrain: fairway, tee and green share
/// one.
pub open spec fn landing_sound_for(t: TerrainType) -> SoundCue {
    match t {
        TerrainType::Fairway | TerrainType::TeeBox | TerrainType::Green(_) => SoundCue::LandFairway,
        TerrainType::Rough => SoundCue::LandRough,
        TerrainType::Bunker => SoundCue::LandBunker,
        TerrainType::Water => SoundCue::LandWater,
        TerrainType::OutOfBounds => SoundCue::LandOutOfBounds,
    }
}

/// Chooses the sound of a ball landing on `t`.
pub fn landing_sound(t: TerrainType) -> (cue: SoundCue)
    ensures
        cue == landing_sound_for(t),
{
    match t {
        TerrainType::Fairway | TerrainType::TeeBox | TerrainType::Green(_) => SoundCue::LandFairway,
        TerrainType::Rough => SoundCue::LandRough,
        TerrainType::Bunker => SoundCue::LandBunker,
        TerrainType::Water => SoundCue::LandWater,
        TerrainType::OutOfBounds => SoundCue::LandOutOfBounds,
    }
}

/// The sounds of a state update's phase: the end of a hole or of the match.
pub open spec fn phase_sounds(state: GameStateEnum) -> Seq<SoundCue> {
    match state {
        GameStateEnum::HoleCompleted => seq![SoundCue::HoleComplete],
        GameStateEnum::MatchCompleted => seq![SoundCue::MatchComplete],
        _ => Seq::empty(),
    }
}

/// The sounds of an update from the server, with `course` the track the
/// landing sounds are looked up on: the dice for a roll; for a slide, the
/// landing sound of the cell it ends on (when the track has that cell); for
/// a state update, the wager sound when wagers are on the board, then the
/// sound of a completed hole or match.
pub open spec fn update_sounds(update: ServerUpdate, course: Option<ActiveCourseTrack>) -> Seq<SoundCue> {
    match update {
        ServerUpdate::DiceRollOutcome { .. } => seq![SoundCue::DiceRoll],
        ServerUpdate::SlideTransition { path } => if path@.len() > 0 && course is Some && cell_at(
            course->0.cells@,
            path@.last() as int,
        ) is Some {
            seq![landing_sound_for(cell_at(course->0.cells@, path@.last() as int)->0)]
        } else {
            Seq::empty()
        },
        ServerUpdate::StateSync { game_state, placed_wagers, .. } => (if placed_wagers@.len() > 0 {
            seq![SoundCue::WagerPlace]
        } else {
            Seq::empty()
        }) + phase_sounds(game_state),
        _ => Seq::empty(),
    }
}

/// Chooses the sounds of an update from the server.
pub fn gameplay_sounds(update: &ServerUpdate, course: Option<&ActiveCourseTrack>) -> (cues: Vec<SoundCue>)
    ensures
        cues@ == update_sounds(
            *update,
            match course {
                Some(c) => Some(*c),
                None => None,
            },
        ),
{
    let mut cues: Vec<SoundCue> = Vec::new();
    match update {
        ServerUpdate::DiceRollOutcome { .. } => {
            cues.push(SoundCue::DiceRoll);
        },
        ServerUpdate::SlideTransition { path } => {
            if path.len() > 0 {
                if let Some(c) = course {
                    let last = path[path.len() - 1];
                    if let Some(t) = get_cell(&c.cells, last as usize) {
                        cues.push(landing_sound(t));
                    }
                }
            }
        },
        ServerUpdate::StateSync { game_state, placed_wagers, .. } => {
            if placed_wagers.len() > 0 {
                cues.push(SoundCue::WagerPlace);
            }
            match game_state {
                GameStateEnum::HoleCompleted => {
                    cues.push(SoundCue::HoleComplete);
                },
                GameStateEnum::MatchCompleted => {
                    cues.push(SoundCue::MatchComplete);
                },
                _ => {},
            }
        },
        _ => {},
    }
    proof {
        let expected = update_sounds(*update, match course { Some(c) => Some(*c), None => None });
        assert(cues@ =~= expected);
    }
    cues
}

/// Whether every sound has finished loading.
pub fn all_sounds_loaded(loaded: &Vec<bool>) -> (all: bool)
    ensures
        all == forall|i: int| 0 <= i < loaded@.len() ==> #[trigger] loaded@[i],
{
    let n = loaded.len();
    let mut i: usize = 0;
    while i < n
        invariant
            n == loaded@.len(),
            i <= n,
            forall|k: int| 0 <= k < i ==> #[trigger] loaded@[k],
        decreases n - i,
    {
        if !loaded[i] {
            return false;
        }
        i = i + 1;
    }
    true
}

} // verus!
