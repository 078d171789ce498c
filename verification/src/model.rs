//! The mathematical model of a game and the rules of a move.

use vstd::prelude::*;
use crate::piece::{Error, Piece, PieceState, Stack};

verus! {

/// How many of the first `n` pieces stand on `stack`.
pub open spec fn count_below(pieces: Seq<PieceState>, stack: Stack, n: int) -> nat
    decreases n,
{
    if n <= 0 {
        0
    } else if pieces[n - 1].stack == stack {
        count_below(pieces, stack, n - 1) + 1
    } else {
        count_below(pieces, stack, n - 1)
    }
}

/// The highest of the first `n` pieces that stand on `stack`, if there is one.
/// Of two pieces at the same height the one with the lower number is kept.
pub open spec fn top_upto(pieces: Seq<PieceState>, stack: Stack, n: int) -> Option<Piece>
    decreases n,
{
    if n <= 0 {
        None
    } else {
        let rest = top_upto(pieces, stack, n - 1);
        let here = Piece { state: pieces[n - 1], num: (n - 1) as u32 };
        if pieces[n - 1].stack != stack {
            rest
        } else {
            match rest {
                None => Some(here),
                Some(h) => if pieces[n - 1].height > h.state.height {
                    Some(here)
                } else {
                    rest
                },
            }
        }
    }
}

/// A game as plain values: where it started, how many stacks it has, and the
/// position of each piece, indexed by the piece's number.
pub struct GameModel {
    pub start_stack: Stack,
    pub num_stacks: u32,
    pub pieces: Seq<PieceState>,
}

impl GameModel {
    /// `stack` is one of the game's stacks.
    pub open spec fn valid_stack(self, stack: Stack) -> bool {
        stack < self.num_stacks
    }

    /// Piece `i` exists and stands on `stack`.
    pub open spec fn on_stack(self, i: int, stack: Stack) -> bool {
        0 <= i < self.pieces.len() && self.pieces[i].stack == stack
    }

    /// No piece stands on `stack`.
    pub open spec fn stack_empty(self, stack: Stack) -> bool {
        forall|i: int| 0 <= i < self.pieces.len() ==> (#[trigger] self.pieces[i]).stack != stack
    }

    /// The number of pieces on `stack`.
    pub open spec fn occupancy(self, stack: Stack) -> nat {
        count_below(self.pieces, stack, self.pieces.len() as int)
    }

    /// `p` is a piece of the game that stands on `stack`, and no piece on
    /// `stack` is higher.
    pub open spec fn is_top(self, p: Piece, stack: Stack) -> bool {
        &&& self.on_stack(p.num as int, stack)
        &&& p.state == self.pieces[p.num as int]
        &&& forall|j: int| #[trigger]
            self.on_stack(j, stack) ==> self.pieces[j].height <= p.state.height
    }

    /// The piece with the greatest height on `stack`, or `None` where the
    /// stack is empty.
    pub open spec fn stack_top(self, stack: Stack) -> Option<Piece> {
        top_upto(self.pieces, stack, self.pieces.len() as int)
    }

    /// Validity of a game: there is at least one piece, every stack index is
    /// in range, and the height of each piece is the number of larger pieces
    /// (those with a lower number) on its stack. The last clause says at once
    /// that the heights on a stack have no gaps and no duplicates, and that a
    /// larger piece never rests on a smaller one.
    pub open spec fn wf(self) -> bool {
        &&& 0 < self.pieces.len() <= u32::MAX
        &&& self.start_stack < self.num_stacks
        &&& forall|i: int|
            0 <= i < self.pieces.len() ==> (#[trigger] self.pieces[i]).stack < self.num_stacks
        &&& forall|i: int|
            0 <= i < self.pieces.len() ==> (#[trigger] self.pieces[i]).height == count_below(
                self.pieces,
                self.pieces[i].stack,
                i,
            )
    }

    /// The game at its start: every piece on `start`, piece 0 at the bottom.
    pub open spec fn initial(start: Stack, num_stacks: u32, num_pieces: u32) -> GameModel {
        GameModel {
            start_stack: start,
            num_stacks,
            pieces: Seq::new(
                num_pieces as nat,
                |i: int| PieceState { stack: start, height: i as u32 },
            ),
        }
    }

    /// What a request to move the top piece of `from` onto `to` answers.
    ///
    /// A stack index out of range, or an empty `from`, is an error. A move
    /// onto the same stack, or onto an empty stack, is legal. A move onto an
    /// occupied stack is legal exactly when the moved piece has a greater
    /// number than the piece it lands on.
    pub open spec fn move_outcome(self, from: Stack, to: Stack) -> Result<bool, Error> {
        if !self.valid_stack(from) || !self.valid_stack(to) {
            Err(Error::InvalidStack)
        } else {
            match self.stack_top(from) {
                None => Err(Error::InvalidStack),
                Some(moved) => if from == to {
                    Ok(true)
                } else {
                    match self.stack_top(to) {
                        None => Ok(true),
                        Some(dest) => Ok(moved.num > dest.num),
                    }
                },
            }
        }
    }

    /// The height at which a piece that is put on `stack` comes to rest.
    pub open spec fn landing_height(self, stack: Stack) -> int {
        match self.stack_top(stack) {
            None => 0,
            Some(dest) => dest.state.height + 1,
        }
    }

    /// The game after a request to move the top piece of `from` onto `to`:
    /// a legal move between two different stacks puts the moved piece on top
    /// of `to`; every other request leaves the game as it was.
    pub open spec fn after_move(self, from: Stack, to: Stack) -> GameModel {
        if from != to && self.move_outcome(from, to) == Ok::<bool, Error>(true) {
            GameModel {
                pieces: self.pieces.update(
                    self.stack_top(from).unwrap().num as int,
                    PieceState { stack: to, height: self.landing_height(to) as u32 },
                ),
                ..self
            }
        } else {
            self
        }
    }

    /// Every piece stands on one common stack, and it is not the start stack.
    pub open spec fn complete(self) -> bool {
        &&& self.pieces[0].stack != self.start_stack
        &&& forall|i: int|
            0 <= i < self.pieces.len() ==> (#[trigger] self.pieces[i]).stack
                == self.pieces[0].stack
    }
}

/// Among the first `n` pieces, no more than `n` stand on `stack`.
pub proof fn lemma_count_bound(pieces: Seq<PieceState>, stack: Stack, n: int)
    requires
        0 <= n,
    ensures
        count_below(pieces, stack, n) <= n,
    decreases n,
{
    if n > 0 {
        lemma_count_bound(pieces, stack, n - 1);
    }
}

/// The count depends only on which of the first `n` pieces stand on `stack`.
pub proof fn lemma_count_agree(p: Seq<PieceState>, q: Seq<PieceState>, stack: Stack, n: int)
    requires
        forall|j: int| 0 <= j < n ==> ((#[trigger] p[j]).stack == stack <==> q[j].stack == stack),
    ensures
        count_below(p, stack, n) == count_below(q, stack, n),
    decreases n,
{
    if n > 0 {
        lemma_count_agree(p, q, stack, n - 1);
        assert(p[n - 1].stack == stack <==> q[n - 1].stack == stack);
    }
}

/// Where none of the pieces from `a` up to `b` stands on `stack`, the count
/// does not grow between them.
pub proof fn lemma_count_gap(pieces: Seq<PieceState>, stack: Stack, a: int, b: int)
    requires
        0 <= a <= b,
        forall|j: int| a <= j < b ==> (#[trigger] pieces[j]).stack != stack,
    ensures
        count_below(pieces, stack, b) == count_below(pieces, stack, a),
    decreases b - a,
{
    if a < b {
        lemma_count_gap(pieces, stack, a, b - 1);
        assert(pieces[b - 1].stack != stack);
    }
}

/// Where all of the first `n` pieces stand on `stack`, the count is `n`.
pub proof fn lemma_count_full(pieces: Seq<PieceState>, stack: Stack, n: int)
    requires
        0 <= n,
        forall|j: int| 0 <= j < n ==> (#[trigger] pieces[j]).stack == stack,
    ensures
        count_below(pieces, stack, n) == n,
    decreases n,
{
    if n > 0 {
        lemma_count_full(pieces, stack, n - 1);
        assert(pieces[n - 1].stack == stack);
    }
}

/// What `top_upto` finds: nothing exactly where none of the first `n` pieces
/// stands on `stack`; else the first of those at the greatest height.
pub proof fn lemma_top_upto(pieces: Seq<PieceState>, stack: Stack, n: int)
    requires
        0 <= n <= pieces.len() <= u32::MAX,
    ensures
        match top_upto(pieces, stack, n) {
            None => forall|j: int| 0 <= j < n ==> (#[trigger] pieces[j]).stack != stack,
            Some(t) => {
                &&& t.num < n
                &&& t.state == pieces[t.num as int]
                &&& t.state.stack == stack
                &&& forall|j: int|
                    0 <= j < n && (#[trigger] pieces[j]).stack == stack ==> pieces[j].height
                        <= t.state.height
                &&& forall|j: int|
                    0 <= j < t.num && (#[trigger] pieces[j]).stack == stack ==> pieces[j].height
                        < t.state.height
            },
        },
    decreases n,
{
    if n > 0 {
        lemma_top_upto(pieces, stack, n - 1);
    }
}

/// In a valid game every piece on a stack has a lower number than the
/// stack's top piece: the count of the stack's pieces below any later index
/// is the top's height plus one.
pub proof fn lemma_count_above_top(g: GameModel, top: Piece, stack: Stack, n: int)
    requires
        g.wf(),
        g.is_top(top, stack),
        top.num < n <= g.pieces.len(),
    ensures
        count_below(g.pieces, stack, n) == top.state.height + 1,
        forall|j: int| top.num < j < n ==> (#[trigger] g.pieces[j]).stack != stack,
    decreases n,
{
    if n == top.num + 1 {
        assert(g.pieces[top.num as int].height == count_below(g.pieces, stack, top.num as int));
    } else {
        lemma_count_above_top(g, top, stack, n - 1);
        if g.pieces[n - 1].stack == stack {
            assert(g.on_stack(n - 1, stack));
            assert(g.pieces[n - 1].height == count_below(g.pieces, stack, n - 1));
        }
    }
}

/// Where a move between two different stacks is legal, the moved piece has a
/// greater number than every piece on `to`, and the height at which it lands
/// is the number of pieces on `to`.
pub proof fn lemma_landing(g: GameModel, from: Stack, to: Stack)
    requires
        g.wf(),
        from != to,
        g.move_outcome(from, to) == Ok::<bool, Error>(true),
    ensures
        g.stack_top(from) is Some,
        g.is_top(g.stack_top(from).unwrap(), from),
        g.landing_height(to) == count_below(
            g.pieces,
            to,
            g.stack_top(from).unwrap().num as int,
        ),
        g.landing_height(to) < g.pieces.len(),
        forall|j: int|
            g.stack_top(from).unwrap().num < j < g.pieces.len() ==> (#[trigger] g.pieces[j]).stack
                != to,
{
    let n = g.pieces.len() as int;
    lemma_top_upto(g.pieces, from, n);
    lemma_top_upto(g.pieces, to, n);
    let moved = g.stack_top(from).unwrap();
    let k = moved.num as int;
    lemma_count_bound(g.pieces, to, k);
    match g.stack_top(to) {
        None => {
            lemma_count_gap(g.pieces, to, 0, k);
        },
        Some(dest) => {
            assert(g.is_top(dest, to));
            lemma_count_above_top(g, dest, to, k);
            lemma_count_above_top(g, dest, to, n);
        },
    }
}

/// Taking the top piece of a stack and putting it on another stack, above
/// every piece of that stack and at the number of pieces that stand there,
/// keeps the game valid.
pub proof fn lemma_move_keeps_wf(before: GameModel, after: GameModel, moved: Piece, to: Stack)
    requires
        before.wf(),
        before.is_top(moved, moved.state.stack),
        moved.state.stack != to,
        to < before.num_stacks,
        forall|j: int|
            moved.num < j < before.pieces.len() ==> (#[trigger] before.pieces[j]).stack != to,
        after.start_stack == before.start_stack,
        after.num_stacks == before.num_stacks,
        after.pieces.len() == before.pieces.len(),
        after.pieces[moved.num as int].stack == to,
        after.pieces[moved.num as int].height == count_below(before.pieces, to, moved.num as int),
        forall|j: int|
            0 <= j < before.pieces.len() && j != moved.num ==> (#[trigger] after.pieces[j])
                == before.pieces[j],
    ensures
        after.wf(),
{
    let k = moved.num as int;
    let from = moved.state.stack;
    lemma_count_above_top(before, moved, from, before.pieces.len() as int);
    assert forall|i: int| 0 <= i < after.pieces.len() implies (#[trigger] after.pieces[i]).height
        == count_below(after.pieces, after.pieces[i].stack, i) by {
        let s = after.pieces[i].stack;
        if i <= k {
            assert forall|j: int| 0 <= j < i implies ((#[trigger] before.pieces[j]).stack == s
                <==> after.pieces[j].stack == s) by {
                assert(after.pieces[j] == before.pieces[j]);
            }
            lemma_count_agree(before.pieces, after.pieces, s, i);
            if i < k {
                assert(after.pieces[i] == before.pieces[i]);
            }
        } else {
            assert(after.pieces[i] == before.pieces[i]);
            assert(before.pieces[i].stack != from);
            assert(before.pieces[i].stack != to);
            assert forall|j: int| 0 <= j < i implies ((#[trigger] before.pieces[j]).stack == s
                <==> after.pieces[j].stack == s) by {
                if j != k {
                    assert(after.pieces[j] == before.pieces[j]);
                }
            }
            lemma_count_agree(before.pieces, after.pieces, s, i);
        }
    }
    assert forall|i: int| 0 <= i < after.pieces.len() implies (#[trigger] after.pieces[i]).stack
        < after.num_stacks by {
        if i != k {
            assert(after.pieces[i] == before.pieces[i]);
        }
    }
}

/// A valid game stays valid under any request for a move.
pub proof fn lemma_after_move_wf(g: GameModel, from: Stack, to: Stack)
    requires
        g.wf(),
    ensures
        g.after_move(from, to).wf(),
{
    if from != to && g.move_outcome(from, to) == Ok::<bool, Error>(true) {
        lemma_landing(g, from, to);
        lemma_move_keeps_wf(g, g.after_move(from, to), g.stack_top(from).unwrap(), to);
    }
}

} // verus!
