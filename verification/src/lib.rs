//! The state engine of a snake game on a fixed grid: the snake's body, its
//! movement and growth, collision and boundary detection, food placement, and
//! the controller that turns ticks and key presses into state changes.

pub mod direction;
pub mod food;
pub mod game;
pub mod grid;
mod random;
pub mod snake;

pub use direction::Direction;
pub use game::{Game, GameState, Key, LogicError};
pub use grid::{BodyPart, BODY_SIZE, GRID_COLUMNS, GRID_ROWS, UPDATE_SPEED};
pub use snake::Snake;
