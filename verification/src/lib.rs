pub mod audio;
pub mod banana;
pub mod board;
pub mod bounded;
pub mod chance;
pub mod dice;
pub mod hud;
pub mod laws;
pub mod leaderboard;
pub mod messages;
pub mod movement;
pub mod network;
pub mod presenter;
pub mod replication;
pub mod scorecard_summary;
pub mod server;
pub mod settings;
pub mod state;
pub mod terrain;
pub mod text;
pub mod wager;
