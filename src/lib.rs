//! A two-paddle game board: two paddles and a ball, paddles moved vertically by
//! keyboard commands and held inside the window, and a fixed frame layout.
//!
//! Positions are kept in half pixels, so that every centring and clamping
//! rule of the board is exact in integer arithmetic.

pub mod geometry;
pub mod entity;
pub mod input;
pub mod game;

pub use geometry::{Extent, Point, PADDLE_MARGIN, PADDLE_SPEED, SUBPIXELS, WINDOW_HEIGHT, WINDOW_WIDTH};
pub use entity::{move_down, move_up, Entity};
pub use input::{command_for, Command, Direction, Key, Paddle};
pub use game::{Color, DrawCall, EntityId, Frame, GameState};
