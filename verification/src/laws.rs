//! The rules of the game, stated over the model and proved.

use vstd::prelude::*;
use vstd::multiset::Multiset;
use crate::model::{
    count_below, lemma_after_move_wf, lemma_count_bound, lemma_count_full, lemma_landing,
    lemma_top_upto, GameModel,
};
use crate::interact::{Event, InteractState};
use crate::piece::{Error, Piece, PieceState, Stack};

verus! {

/// The heights of those of the first `n` pieces that stand on `stack`.
pub open spec fn heights_upto(pieces: Seq<PieceState>, stack: Stack, n: int) -> Multiset<int>
    decreases n,
{
    if n <= 0 {
        Multiset::empty()
    } else if pieces[n - 1].stack == stack {
        heights_upto(pieces, stack, n - 1).insert(pieces[n - 1].height as int)
    } else {
        heights_upto(pieces, stack, n - 1)
    }
}

/// The heights `0`, `1`, ..., `k - 1`, each once.
pub open spec fn first_heights(k: nat) -> Multiset<int>
    decreases k,
{
    if k == 0 {
        Multiset::empty()
    } else {
        first_heights((k - 1) as nat).insert(k - 1)
    }
}

/// The heights of the pieces on `stack`.
pub open spec fn heights_on(g: GameModel, stack: Stack) -> Multiset<int> {
    heights_upto(g.pieces, stack, g.pieces.len() as int)
}

/// A game at its start is valid, and piece `i` stands on the start stack at
/// height `i`.
pub proof fn law_initial_game(start: Stack, num_stacks: u32, num_pieces: u32)
    requires
        start < num_stacks,
        num_pieces > 0,
    ensures
        GameModel::initial(start, num_stacks, num_pieces).wf(),
        GameModel::initial(start, num_stacks, num_pieces).pieces.len() == num_pieces,
        GameModel::initial(start, num_stacks, num_pieces).num_stacks == num_stacks,
        forall|i: int|
            0 <= i < num_pieces ==> (#[trigger] GameModel::initial(
                start,
                num_stacks,
                num_pieces,
            ).pieces[i]) == (PieceState { stack: start, height: i as u32 }),
        !GameModel::initial(start, num_stacks, num_pieces).complete(),
{
    let g = GameModel::initial(start, num_stacks, num_pieces);
    assert forall|i: int| 0 <= i < g.pieces.len() implies (#[trigger] g.pieces[i]).height
        == count_below(g.pieces, g.pieces[i].stack, i) by {
        lemma_count_full(g.pieces, start, i);
    }
}

/// A valid game stays valid under any request for a move, with the same
/// stacks and the same number of pieces; and a request that is not answered
/// `Ok(true)` changes nothing.
pub proof fn law_move_keeps_game_valid(g: GameModel, from: Stack, to: Stack)
    requires
        g.wf(),
    ensures
        g.after_move(from, to).wf(),
        g.after_move(from, to).start_stack == g.start_stack,
        g.after_move(from, to).num_stacks == g.num_stacks,
        g.after_move(from, to).pieces.len() == g.pieces.len(),
        g.move_outcome(from, to) != Ok::<bool, Error>(true) ==> g.after_move(from, to) == g,
{
    lemma_after_move_wf(g, from, to);
    if from != to && g.move_outcome(from, to) == Ok::<bool, Error>(true) {
        lemma_landing(g, from, to);
    }
}

/// Moving the top piece of a stack that is not empty onto the same stack is
/// answered `Ok(true)` and changes nothing.
pub proof fn law_same_stack_move(g: GameModel, k: Stack)
    requires
        g.wf(),
        g.valid_stack(k),
        !g.stack_empty(k),
    ensures
        g.move_outcome(k, k) == Ok::<bool, Error>(true),
        g.after_move(k, k) == g,
{
    lemma_top_upto(g.pieces, k, g.pieces.len() as int);
}

/// A piece is never put on a smaller one: where the top piece of `from` has a
/// lower number than the top piece of `to`, the request is answered
/// `Ok(false)` and changes nothing.
pub proof fn law_larger_never_lands_on_smaller(g: GameModel, from: Stack, to: Stack)
    requires
        g.wf(),
        g.valid_stack(from),
        g.valid_stack(to),
        g.stack_top(from) is Some,
        g.stack_top(to) is Some,
        g.stack_top(from).unwrap().num < g.stack_top(to).unwrap().num,
    ensures
        g.move_outcome(from, to) == Ok::<bool, Error>(false),
        g.after_move(from, to) == g,
{
}

/// A move that is made puts the moved piece on top of `to`: at height 0 on
/// an empty stack, else directly above the piece that was the top of `to`,
/// which has a lower number. No other piece changes.
pub proof fn law_move_lands_on_top(g: GameModel, from: Stack, to: Stack)
    requires
        g.wf(),
        from != to,
        g.move_outcome(from, to) == Ok::<bool, Error>(true),
    ensures
        g.stack_top(from) is Some,
        g.after_move(from, to).stack_top(to) == Some(
            (Piece {
                state: (PieceState { stack: to, height: g.landing_height(to) as u32 }),
                num: g.stack_top(from).unwrap().num,
            }),
        ),
        forall|j: int|
            0 <= j < g.pieces.len() && j != g.stack_top(from).unwrap().num ==> (
            #[trigger] g.after_move(from, to).pieces[j]) == g.pieces[j],
        match g.stack_top(to) {
            None => g.landing_height(to) == 0,
            Some(dest) => dest.num < g.stack_top(from).unwrap().num && g.landing_height(to)
                == dest.state.height + 1,
        },
{
    let n = g.pieces.len() as int;
    let after = g.after_move(from, to);
    let k = g.stack_top(from).unwrap().num as int;
    lemma_landing(g, from, to);
    lemma_after_move_wf(g, from, to);
    lemma_top_upto(after.pieces, to, n);
    lemma_count_bound(after.pieces, to, k);
    let top = after.stack_top(to).unwrap();
    assert(after.pieces[k].stack == to);
    if top.num != k {
        assert(after.is_top(top, to));
        assert(after.on_stack(k, to));
        if top.num < k {
            law_size_ordering(after, top.num as int, k);
        } else {
            assert(after.pieces[top.num as int] == g.pieces[top.num as int]);
        }
    }
}

/// A request that names a stack out of range is an error and changes
/// nothing, whatever the other stack is.
pub proof fn law_bad_index_is_error(g: GameModel, from: Stack, to: Stack)
    requires
        !g.valid_stack(from) || !g.valid_stack(to),
    ensures
        g.move_outcome(from, to) == Err::<bool, Error>(Error::InvalidStack),
        g.after_move(from, to) == g,
{
}

/// The number of stacks is itself no stack: a request to move from it is an
/// error in every game.
pub proof fn law_num_stacks_is_no_stack(g: GameModel, to: Stack)
    ensures
        g.move_outcome(g.num_stacks, to) == Err::<bool, Error>(Error::InvalidStack),
        g.after_move(g.num_stacks, to) == g,
{
}

/// On every stack of a valid game the pieces are ordered by size: of two
/// pieces on one stack, the one with the lower number is the lower one.
pub proof fn law_size_ordering(g: GameModel, i: int, j: int)
    requires
        g.wf(),
        0 <= i < j < g.pieces.len(),
        g.pieces[i].stack == g.pieces[j].stack,
    ensures
        g.pieces[i].height < g.pieces[j].height,
{
    let s = g.pieces[i].stack;
    lemma_count_step(g.pieces, s, i + 1, j);
}

/// The count does not fall as more pieces are looked at.
proof fn lemma_count_step(pieces: Seq<PieceState>, stack: Stack, a: int, b: int)
    requires
        0 <= a <= b,
    ensures
        count_below(pieces, stack, a) <= count_below(pieces, stack, b),
    decreases b - a,
{
    if a < b {
        lemma_count_step(pieces, stack, a, b - 1);
    }
}

/// What `stack_top` names: nothing, exactly where the stack is empty; else a
/// piece on the stack above which no piece of the stack stands.
pub proof fn law_stack_top_is_highest(g: GameModel, stack: Stack)
    requires
        g.pieces.len() <= u32::MAX,
    ensures
        g.stack_top(stack) is None <==> g.stack_empty(stack),
        g.stack_top(stack) is Some ==> g.is_top(g.stack_top(stack).unwrap(), stack),
{
    lemma_top_upto(g.pieces, stack, g.pieces.len() as int);
}

/// In a valid game a stack has no more than one highest piece, and it is the
/// piece with the greatest number on the stack.
pub proof fn law_stack_top_is_unique(g: GameModel, stack: Stack, p: Piece)
    requires
        g.wf(),
        g.is_top(p, stack),
    ensures
        g.stack_top(stack) == Some(p),
        forall|j: int| #[trigger] g.on_stack(j, stack) ==> j <= p.num,
{
    law_stack_top_is_highest(g, stack);
    let t = g.stack_top(stack).unwrap();
    assert(g.on_stack(t.num as int, stack));
    assert(g.on_stack(p.num as int, stack));
    if t.num < p.num {
        law_size_ordering(g, t.num as int, p.num as int);
    } else if p.num < t.num {
        law_size_ordering(g, p.num as int, t.num as int);
    }
    assert forall|j: int| #[trigger] g.on_stack(j, stack) implies j <= p.num by {
        if j > p.num {
            law_size_ordering(g, p.num as int, j);
        }
    }
}

/// On every stack of a valid game the heights of its pieces are exactly
/// `0`, `1`, ..., `k - 1`, each once, where `k` is the number of pieces on it.
pub proof fn law_height_contiguity(g: GameModel, stack: Stack)
    requires
        g.wf(),
    ensures
        heights_on(g, stack) == first_heights(g.occupancy(stack)),
{
    lemma_heights_prefix(g, stack, g.pieces.len() as int);
}

/// The statement of `law_height_contiguity` for the first `n` pieces.
proof fn lemma_heights_prefix(g: GameModel, stack: Stack, n: int)
    requires
        g.wf(),
        0 <= n <= g.pieces.len(),
    ensures
        heights_upto(g.pieces, stack, n) == first_heights(count_below(g.pieces, stack, n)),
    decreases n,
{
    if n > 0 {
        lemma_heights_prefix(g, stack, n - 1);
        if g.pieces[n - 1].stack == stack {
            assert(g.pieces[n - 1].height == count_below(g.pieces, stack, n - 1));
        }
    }
}

/// A hand that is valid for a game never asks for a move that is an error,
/// and stays valid for the game after any event.
pub proof fn law_hand_stays_valid(hand: InteractState, g: GameModel, event: Event)
    requires
        g.wf(),
        hand.valid_for(g),
    ensures
        hand.grabbed is Some ==> g.move_outcome(hand.grabbed.unwrap(), hand.hand_column) is Ok,
        hand.game_after(g, event).wf(),
        hand.after(g, event).valid_for(hand.game_after(g, event)),
{
    let n = g.pieces.len() as int;
    lemma_top_upto(g.pieces, hand.hand_column, n);
    if let Some(col) = hand.grabbed {
        lemma_top_upto(g.pieces, col, n);
        law_move_keeps_game_valid(g, col, hand.hand_column);
    }
}

} // verus!
