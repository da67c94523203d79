//! A snake game without a screen.
//!
//! The core is the simulation: the grid, the snake, the food, the step that
//! moves the snake and the rules for walls, collisions and eating ([`board`],
//! [`snake`], [`food`]); the classified view of the snake that a renderer
//! draws from ([`full_state`]); and the controller that a game loop talks to
//! ([`ctrl`]). Around it stands the game as a player sees it: score, pace and
//! best score ([`game`], [`timer`], [`record`]).
//!
//! Every executable function carries a contract that Verus proves, and
//! [`laws`] holds what follows from the contracts. The library draws nothing,
//! reads no clock and touches no file. The one thing it takes on trust is the
//! random draw behind the placing of food.

pub mod board;
pub mod ctrl;
pub mod err;
pub mod food;
pub mod full_state;
pub mod game;
pub mod geometry;
pub mod laws;
pub mod matrix;
pub mod options;
pub mod record;
pub mod snake;
pub mod text;
pub mod timer;

pub use crate::ctrl::{SnakeCtrl, SnakeCtrlState};
pub use crate::err::{SnakeCtrlErr, SnakeCtrlResult};
pub use crate::full_state::{SnakeCornerVariant, SnakeCtrlFullState, SnakePart, SnakePartVariant};
pub use crate::geometry::{Direction, Point};
pub use crate::matrix::Matrix as SnakeCtrlMatrix;
pub use crate::options::Options as SnakeCtrlOptions;
