//! The game state: construction, inspection, moves and completion.

use vstd::prelude::*;
use crate::model::{
    count_below, lemma_after_move_wf, lemma_count_full, lemma_landing, lemma_top_upto, top_upto,
    GameModel,
};
use crate::piece::{Error, Piece, PieceState, Stack};

verus! {

/// The position of every piece of one game.
#[derive(Debug)]
pub struct GameState {
    start_stack: Stack,
    num_stacks: u32,
    pieces: Vec<PieceState>,
}

/// A walk over the pieces of a game in ascending order of their numbers.
pub struct PiecesIter<'a> {
    pieces: &'a Vec<PieceState>,
    pos: usize,
}

impl<'a> PiecesIter<'a> {
    /// The pieces this walk goes over.
    pub closed spec fn pieces(&self) -> Seq<PieceState> {
        self.pieces@
    }

    /// How many pieces the walk has handed out.
    pub closed spec fn pos(&self) -> nat {
        self.pos as nat
    }

    /// The walk has not run past its end, and every number fits a `u32`.
    pub open spec fn wf(&self) -> bool {
        self.pos() <= self.pieces().len() <= u32::MAX
    }

    /// The next piece, or `None` once all have been handed out.
    pub fn next(&mut self) -> (r: Option<Piece>)
        requires
            old(self).wf(),
        ensures
            final(self).wf(),
            final(self).pieces() == old(self).pieces(),
            old(self).pos() < old(self).pieces().len() ==> final(self).pos() == old(self).pos() + 1
                && r == Some(
                Piece {
                    state: old(self).pieces()[old(self).pos() as int],
                    num: old(self).pos() as u32,
                },
            ),
            old(self).pos() >= old(self).pieces().len() ==> final(self).pos() == old(self).pos()
                && r.is_none(),
    {
        if self.pos < self.pieces.len() {
            let num: u32 = self.pos as u32;
            let state: PieceState = self.pieces[self.pos];
            self.pos = self.pos + 1;
            Some(Piece { state, num })
        } else {
            None
        }
    }
}

impl View for GameState {
    type V = GameModel;

    closed spec fn view(&self) -> GameModel {
        GameModel {
            start_stack: self.start_stack,
            num_stacks: self.num_stacks,
            pieces: self.pieces@,
        }
    }
}

impl GameState {
    /// The game is valid: see [`GameModel::wf`].
    pub open spec fn wf(&self) -> bool {
        self@.wf()
    }

    /// Puts piece `piece` at `state`, whatever the rules say.
    fn update_piece(&mut self, piece: u32, state: PieceState)
        requires
            piece < old(self)@.pieces.len(),
        ensures
            final(self)@ == (GameModel {
                pieces: old(self)@.pieces.update(piece as int, state),
                ..old(self)@
            }),
    {
        self.pieces[piece as usize] = state;
    }

    /// A new game of `num_pieces` pieces, all on stack `start` of
    /// `num_stacks`, the largest at the bottom.
    pub fn new(start: Stack, num_stacks: u32, num_pieces: u32) -> (r: Result<GameState, Error>)
        ensures
            match r {
                Ok(g) => {
                    &&& start < num_stacks
                    &&& num_pieces > 0
                    &&& g.wf()
                    &&& g@ == GameModel::initial(start, num_stacks, num_pieces)
                },
                Err(Error::InvalidStack) => start >= num_stacks,
                Err(Error::ZeroPieces) => start < num_stacks && num_pieces == 0,
            },
    {
        if start >= num_stacks {
            return Err(Error::InvalidStack);
        }
        if num_pieces == 0 {
            return Err(Error::ZeroPieces);
        }
        let mut pieces: Vec<PieceState> = Vec::new();
        for i in 0..num_pieces
            invariant
                pieces@.len() == i,
                forall|j: int|
                    0 <= j < i ==> (#[trigger] pieces@[j]) == (PieceState {
                        stack: start,
                        height: j as u32,
                    }),
        {
            pieces.push(PieceState { stack: start, height: i });
        }
        let g = GameState { start_stack: start, num_stacks, pieces };
        proof {
            assert(g@.pieces =~= GameModel::initial(start, num_stacks, num_pieces).pieces);
            assert forall|i: int| 0 <= i < g@.pieces.len() implies (#[trigger] g@.pieces[i]).height
                == count_below(g@.pieces, g@.pieces[i].stack, i) by {
                lemma_count_full(g@.pieces, start, i);
            }
        }
        Ok(g)
    }

    /// A walk over all pieces from piece 0 on. Each call starts a new walk.
    pub fn pieces_iter(&self) -> (it: PiecesIter<'_>)
        requires
            self.wf(),
        ensures
            it.wf(),
            it.pieces() == self@.pieces,
            it.pos() == 0,
    {
        PiecesIter { pieces: &self.pieces, pos: 0 }
    }

    /// The number of pieces in the game.
    pub fn num_pieces(&self) -> (n: u32)
        requires
            self.wf(),
        ensures
            n == self@.pieces.len(),
    {
        self.pieces.len() as u32
    }

    /// Piece `num` with its current position.
    pub fn get_piece(&self, num: u32) -> (p: Piece)
        requires
            num < self@.pieces.len(),
        ensures
            p == (Piece { state: self@.pieces[num as int], num }),
    {
        Piece { state: self.pieces[num as usize], num }
    }

    /// The number of stacks in the game.
    pub fn num_stacks(&self) -> (n: u32)
        ensures
            n == self@.num_stacks,
    {
        self.num_stacks
    }

    /// The highest piece on `stack`, or `None` where no piece stands on it.
    pub fn stack_top(&self, stack: Stack) -> (r: Option<Piece>)
        requires
            self.wf(),
        ensures
            r == self@.stack_top(stack),
            match r {
                None => self@.stack_empty(stack),
                Some(p) => self@.is_top(p, stack),
            },
    {
        let mut best: Option<Piece> = None;
        let n: usize = self.pieces.len();
        for i in 0..n
            invariant
                n == self.pieces@.len(),
                n <= u32::MAX,
                best == top_upto(self.pieces@, stack, i as int),
        {
            let state: PieceState = self.pieces[i];
            if state.stack == stack {
                let here = Piece { state, num: i as u32 };
                best =
                match best {
                    None => Some(here),
                    Some(h) => if state.height > h.state.height {
                        Some(here)
                    } else {
                        best
                    },
                };
            }
        }
        proof {
            lemma_top_upto(self.pieces@, stack, n as int);
        }
        best
    }

    /// Whether `s` is one of the game's stacks.
    pub fn valid_stack(&self, s: Stack) -> (b: bool)
        ensures
            b == self@.valid_stack(s),
    {
        s < self.num_stacks()
    }

    /// Moves the top piece of `from` onto `to` where the rules allow it.
    ///
    /// The answer and the game afterwards are those of
    /// [`GameModel::move_outcome`] and [`GameModel::after_move`]: an error for
    /// a stack index out of range or an empty `from`; `Ok(false)`, with
    /// nothing changed, where the moved piece is larger than the piece it
    /// would land on; `Ok(true)` otherwise.
    pub fn try_move(&mut self, from: Stack, to: Stack) -> (r: Result<bool, Error>)
        requires
            old(self).wf(),
        ensures
            final(self).wf(),
            r == old(self)@.move_outcome(from, to),
            final(self)@ == old(self)@.after_move(from, to),
    {
        if !self.valid_stack(from) || !self.valid_stack(to) {
            return Err(Error::InvalidStack);
        }
        let from_piece: Piece = match self.stack_top(from) {
            Some(p) => p,
            None => {
                return Err(Error::InvalidStack);
            },
        };
        if from == to {
            Ok(true)
        } else {
            match self.stack_top(to) {
                Some(highest) => {
                    if from_piece.num > highest.num {
                        proof {
                            lemma_landing(self@, from, to);
                        }
                        let state = PieceState { stack: to, height: highest.state.height + 1 };
                        self.update_piece(from_piece.num, state);
                        proof {
                            lemma_after_move_wf(old(self)@, from, to);
                        }
                        Ok(true)
                    } else {
                        Ok(false)
                    }
                },
                None => {
                    self.update_piece(from_piece.num, PieceState { stack: to, height: 0 });
                    proof {
                        lemma_after_move_wf(old(self)@, from, to);
                    }
                    Ok(true)
                },
            }
        }
    }

    /// Whether the game is won: all pieces stand on one stack other than the
    /// start stack.
    pub fn complete(&self) -> (b: bool)
        requires
            self.wf(),
        ensures
            b == self@.complete(),
    {
        let test_stack: Stack = self.pieces[0].stack;
        if test_stack == self.start_stack {
            return false;
        }
        let n: usize = self.pieces.len();
        for i in 0..n
            invariant
                n == self.pieces@.len(),
                n > 0,
                test_stack == self.pieces@[0].stack,
                forall|j: int| 0 <= j < i ==> (#[trigger] self.pieces@[j]).stack == test_stack,
        {
            if self.pieces[i].stack != test_stack {
                return false;
            }
        }
        true
    }
}

} // verus!
