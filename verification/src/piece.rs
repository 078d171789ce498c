//! Pieces, their positions and the errors of the game.

use vstd::prelude::*;

verus! {

/// Index of a stack, counted from 0.
pub type Stack = u32;

/// Rank of a piece within its stack; 0 rests on the base.
pub type PieceHeight = u32;

/// Cosmetic colour of a piece.
#[derive(Debug, Clone, Copy)]
pub enum Colour {
    Black,
    White,
}

/// Where one piece currently is.
#[derive(Debug, Clone, Copy)]
pub struct PieceState {
    pub stack: Stack,
    pub height: PieceHeight,
}

/// A piece together with its position. A lower `num` is a larger disk.
#[derive(Debug, Clone, Copy)]
pub struct Piece {
    pub state: PieceState,
    pub num: u32,
}

/// What can go wrong when a game is set up or a move is requested.
#[derive(Debug, Clone, Copy)]
pub enum Error {
    /// A stack index is out of range, or a move was asked from an empty stack.
    InvalidStack,
    /// A game was requested with no pieces.
    ZeroPieces,
}

/// The colour of the piece numbered `num`: even pieces are black, odd ones white.
pub open spec fn colour_of(num: u32) -> Colour {
    if num % 2 == 0 {
        Colour::Black
    } else {
        Colour::White
    }
}

impl Piece {
    /// The colour of this piece, derived from its number alone.
    pub fn colour(&self) -> (c: Colour)
        ensures
            c == colour_of(self.num),
    {
        match self.num % 2 {
            0 => Colour::Black,
            _ => Colour::White,
        }
    }
}

} // verus!
