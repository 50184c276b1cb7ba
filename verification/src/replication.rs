//! What the client copies from each state update of the server: the phase of
//! play, the active player, the hole, the wagers and one ball per player.
use vstd::prelude::*;
use crate::messages::{GameStateEnum, ServerUpdate, WagerToken};
use crate::terrain::MovementDirection;

verus! {

/// The client's phases of play, one for each phase the server reports.
#[derive(Debug, Clone, Copy, PartialEq, Eq, Structural)]
pub enum ClientGameState {
    Lobby,
    MarkerPlacement,
    AwaitingTurn,
    Rolling,
    Moving,
    BananaChoice,
    HazardAlert,
    HoleCompleted,
    MatchCompleted,
}

impl Default for ClientGameState {
    fn default() -> (state: Self)
        ensures
            state == ClientGameState::Lobby,
    {
        ClientGameState::Lobby
    }
}

/// A player of the match.
#[derive(Debug, Clone, Copy, PartialEq, Eq, Structural)]
pub struct Player {
    pub player_id: u64,
}

/// A player's ball on the track.
#[derive(Debug, Clone, Copy, PartialEq, Eq, Structural)]
pub struct Ball {
    pub cell_index: u16,
    pub direction: MovementDirection,
    pub origin_cell: u16,
}

/// The id of the player whose turn it is.
#[derive(Debug, Clone, Copy, PartialEq, Eq, Structural)]
pub struct ActivePlayerId(pub u64);

impl Default for ActivePlayerId {
    fn default() -> (id: Self)
        ensures
            id.0 == 0,
    {
        ActivePlayerId(0)
    }
}

/// The client phase for a server phase: the one of the same name.
pub open spec fn client_state_of(state: GameStateEnum) -> ClientGameState {
    match state {
        GameStateEnum::Lobby => ClientGameState::Lobby,
        GameStateEnum::MarkerPlacement => ClientGameState::MarkerPlacement,
        GameStateEnum::AwaitingTurn => ClientGameState::AwaitingTurn,
        GameStateEnum::Rolling => ClientGameState::Rolling,
        GameStateEnum::Moving => ClientGameState::Moving,
        GameStateEnum::BananaChoice => ClientGameState::BananaChoice,
        GameStateEnum::HazardAlert => ClientGameState::HazardAlert,
        GameStateEnum::HoleCompleted => ClientGameState::HoleCompleted,
        GameStateEnum::MatchCompleted => ClientGameState::MatchCompleted,
    }
}

/// The server phase a client phase stands for.
pub open spec fn server_state_of(state: ClientGameState) -> GameStateEnum {
    match state {
        ClientGameState::Lobby => GameStateEnum::Lobby,
        ClientGameState::MarkerPlacement => GameStateEnum::MarkerPlacement,
        ClientGameState::AwaitingTurn => GameStateEnum::AwaitingTurn,
        ClientGameState::Rolling => GameStateEnum::Rolling,
        ClientGameState::Moving => GameStateEnum::Moving,
        ClientGameState::BananaChoice => GameStateEnum::BananaChoice,
        ClientGameState::HazardAlert => GameStateEnum::HazardAlert,
        ClientGameState::HoleCompleted => GameStateEnum::HoleCompleted,
        ClientGameState::MatchCompleted => GameStateEnum::MatchCompleted,
    }
}

/// Maps a phase reported by the server to the client's phase of the same name.
pub fn map_enum_to_bevy_state(state: GameStateEnum) -> (client: ClientGameState)
    ensures
        client == client_state_of(state),
{
    match state {
        GameStateEnum::Lobby => ClientGameState::Lobby,
        GameStateEnum::MarkerPlacement => ClientGameState::MarkerPlacement,
        GameStateEnum::AwaitingTurn => ClientGameState::AwaitingTurn,
        GameStateEnum::Rolling => ClientGameState::Rolling,
        GameStateEnum::Moving => ClientGameState::Moving,
        GameStateEnum::BananaChoice => ClientGameState::BananaChoice,
        GameStateEnum::HazardAlert => ClientGameState::HazardAlert,
        GameStateEnum::HoleCompleted => ClientGameState::HoleCompleted,
        GameStateEnum::MatchCompleted => ClientGameState::MatchCompleted,
    }
}

/// The phase mapping loses nothing: each client phase stands for exactly one
/// server phase, and the two mappings undo each other.
pub proof fn law_phase_mapping_is_one_to_one(server: GameStateEnum, client: ClientGameState)
    ensures
        server_state_of(client_state_of(server)) == server,
        client_state_of(server_state_of(client)) == client,
{
}

/// What the client keeps of a state update.
#[derive(Debug, Clone)]
pub struct ReplicatedState {
    pub wagers: Vec<WagerToken>,
    pub current_hole: u8,
    pub active_player_id: u64,
    pub game_state: ClientGameState,
    pub players: Vec<(Player, Ball)>,
}

/// The id of player `i` of a state update: the active player first, then the
/// others numbered by their place.
pub open spec fn player_id_at(i: int, active_player_id: u64) -> u64 {
    if i == 0 {
        active_player_id
    } else {
        i as u64
    }
}

/// The ball of a player on `position`: on that cell (as `u16`), heading
/// forward, starting from it.
pub open spec fn ball_at(position: u32) -> Ball {
    Ball { cell_index: position as u16, direction: MovementDirection::Forward, origin_cell: position as u16 }
}

/// Copies what the client keeps from a state update; other updates give
/// `None`.
pub fn replicate_state_sync(update: &ServerUpdate) -> (replica: Option<ReplicatedState>)
    ensures
        match update {
            ServerUpdate::StateSync {
                game_state,
                active_player_id,
                player_positions,
                current_hole,
                placed_wagers,
                ..
            } => replica matches Some(r) && r.wagers@ == placed_wagers@ && r.current_hole == current_hole
                && r.active_player_id == active_player_id && r.game_state == client_state_of(
                *game_state,
            ) && r.players@.len() == player_positions@.len() && forall|i: int|
                0 <= i < player_positions@.len() ==> (#[trigger] r.players@[i]) == (
                Player { player_id: player_id_at(i, *active_player_id) },
                ball_at(player_positions@[i]),
            ),
            _ => replica is None,
        },
{
    match update {
        ServerUpdate::StateSync {
            game_state,
            active_player_id,
            player_positions,
            current_hole,
            placed_wagers,
            ..
        } => {
            let mut wagers: Vec<WagerToken> = Vec::new();
            let m = placed_wagers.len();
            let mut j: usize = 0;
            while j < m
                invariant
                    m == placed_wagers@.len(),
                    j <= m,
                    wagers@ == placed_wagers@.take(j as int),
                decreases m - j,
            {
                wagers.push(placed_wagers[j]);
                j = j + 1;
            }
            assert(placed_wagers@.take(m as int) =~= placed_wagers@);

            let mut players: Vec<(Player, Ball)> = Vec::new();
            let n = player_positions.len();
            let mut i: usize = 0;
            while i < n
                invariant
                    n == player_positions@.len(),
                    i <= n,
                    players@.len() == i,
                    forall|k: int|
                        0 <= k < i ==> (#[trigger] players@[k]) == (
                        Player { player_id: player_id_at(k, *active_player_id) },
                        ball_at(player_positions@[k]),
                    ),
                decreases n - i,
            {
                let player_id: u64 = if i == 0 { *active_player_id } else { i as u64 };
                let pos = player_positions[i];
                players.push(
                    (
                        Player { player_id },
                        Ball {
                            cell_index: pos as u16,
                            direction: MovementDirection::Forward,
                            origin_cell: pos as u16,
                        },
                    ),
                );
                i = i + 1;
            }
            Some(
                ReplicatedState {
                    wagers,
                    current_hole: *current_hole,
                    active_player_id: *active_player_id,
                    game_state: map_enum_to_bevy_state(*game_state),
                    players,
                },
            )
        },
        _ => None,
    }
}

} // verus!
