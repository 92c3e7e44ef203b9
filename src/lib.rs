//! Move selection for a grid-based multiplayer snake game.
//!
//! Each turn the controlled snake is handed the board and returns one of
//! four moves. The decision keeps only the moves that stay on the board and
//! avoid every body segment that will still be occupied next tick, then picks
//! the one nearest to food, falling back to `left` when none is safe.

pub mod handlers;
pub mod laws;
pub mod logic;
pub mod types;

pub use handlers::{end, get_move, info, start};
pub use logic::{choose_nearest, distance_to_next_food, is_field_safe, safe_moves, select_move};
pub use types::{AppConfig, Battlesnake, Board, Coord, Game, Move};
