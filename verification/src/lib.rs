//! Rule engine for a Tower-of-Hanoi game with any number of stacks and pieces.
//!
//! [`GameState`] owns the position of every piece, validates and applies
//! moves, and reports completion. Every operation carries a contract over the
//! mathematical model [`GameModel`], and the rules of the game are stated and
//! proved in [`laws`].

pub mod piece;
pub mod model;
pub mod game;
pub mod laws;
pub mod interact;
pub mod scene;

pub use crate::game::{GameState, PiecesIter};
pub use crate::model::GameModel;
pub use crate::piece::{Colour, Error, Piece, PieceHeight, PieceState, Stack};
pub use crate::interact::{Event, InteractState};
pub use crate::scene::{Paint, Rect};
