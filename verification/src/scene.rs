//! The picture of a game: the rectangles to paint, in the order to paint them.

use vstd::prelude::*;
use crate::game::GameState;
use crate::interact::InteractState;
use crate::model::{lemma_count_bound, GameModel};
use crate::piece::{colour_of, Colour, Piece};

verus! {

/// What a rectangle shows.
#[derive(Debug, Clone, Copy)]
pub enum Paint {
    /// The marker of the hand.
    Hand,
    /// An upright or a base of a stack.
    Frame,
    /// A piece of the given colour.
    Piece(Colour),
}

/// A rectangle in unscaled cells: `left` and `top` are inside, `right` and
/// `bottom` are not.
#[derive(Debug, Clone, Copy)]
pub struct Rect {
    pub left: i32,
    pub right: i32,
    pub top: i32,
    pub bottom: i32,
    pub paint: Paint,
}

/// The width that is set aside for one stack: the upright takes 2 cells,
/// each piece adds 2, and base and border add 2 each.
pub open spec fn reserve(g: GameModel) -> int {
    2 * (g.pieces.len() as int) + 8
}

/// The whole picture is no wider than an `i32` can say.
pub open spec fn scene_fits(g: GameModel) -> bool {
    reserve(g) * g.num_stacks <= i32::MAX
}

/// The marker above the stack under the hand.
pub open spec fn hand_rect(g: GameModel, hand: InteractState) -> Rect {
    Rect {
        left: (reserve(g) * hand.hand_column) as i32,
        right: (reserve(g) * hand.hand_column + reserve(g)) as i32,
        top: 0,
        bottom: 1,
        paint: Paint::Hand,
    }
}

/// The upright of stack `col`.
pub open spec fn upright_rect(g: GameModel, col: int) -> Rect {
    Rect {
        left: (reserve(g) * col + reserve(g) / 2 - 1) as i32,
        right: (reserve(g) * col + reserve(g) / 2 + 1) as i32,
        top: 3,
        bottom: (g.pieces.len() + 4) as i32,
        paint: Paint::Frame,
    }
}

/// The base of stack `col`.
pub open spec fn base_rect(g: GameModel, col: int) -> Rect {
    Rect {
        left: (reserve(g) * col + 1) as i32,
        right: (reserve(g) * col + reserve(g) - 1) as i32,
        top: (g.pieces.len() + 4) as i32,
        bottom: (g.pieces.len() + 5) as i32,
        paint: Paint::Frame,
    }
}

/// Whether the hand holds piece `num`: it is the top piece of the grabbed
/// stack.
pub open spec fn held(g: GameModel, hand: InteractState, num: int) -> bool {
    match hand.grabbed {
        Some(col) => g.stack_top(col) is Some && g.stack_top(col).unwrap().num == num,
        None => false,
    }
}

/// Piece `num`: in its place on its stack, or below the marker of the hand
/// where the hand holds it. A piece with a greater number is narrower.
pub open spec fn piece_rect(g: GameModel, hand: InteractState, num: int) -> Rect {
    let col: int = if held(g, hand, num) {
        hand.hand_column as int
    } else {
        g.pieces[num].stack as int
    };
    let top: int = if held(g, hand, num) {
        1
    } else {
        3 + g.pieces.len() - g.pieces[num].height
    };
    Rect {
        left: (reserve(g) * col + 2 + num) as i32,
        right: (reserve(g) * col + reserve(g) - 2 - num) as i32,
        top: top as i32,
        bottom: (top + 1) as i32,
        paint: Paint::Piece(colour_of(num as u32)),
    }
}

/// Rectangle `k` of the picture: the hand first, then upright and base of
/// each stack, then the pieces from piece 0 on.
pub open spec fn scene_rect(g: GameModel, hand: InteractState, k: int) -> Rect {
    if k == 0 {
        hand_rect(g, hand)
    } else if k <= 2 * g.num_stacks {
        if (k - 1) % 2 == 0 {
            upright_rect(g, (k - 1) / 2)
        } else {
            base_rect(g, (k - 1) / 2)
        }
    } else {
        piece_rect(g, hand, k - 1 - 2 * g.num_stacks)
    }
}

/// The picture of game `g` with the hand at `hand`.
pub open spec fn scene_of(g: GameModel, hand: InteractState) -> Seq<Rect> {
    Seq::new(
        (1 + 2 * g.num_stacks + g.pieces.len()) as nat,
        |k: int| scene_rect(g, hand, k),
    )
}

/// Column `col` of `ns` columns of width `w` lies within the `ns` columns.
proof fn lemma_column(w: int, col: int, ns: int)
    requires
        0 < w,
        0 <= col < ns,
    ensures
        0 <= w * col,
        w * col + w <= w * ns,
        ns <= w * ns,
{
    assert(0 <= w * col && w * col + w <= w * ns && ns <= w * ns) by (nonlinear_arith)
        requires
            0 < w,
            0 <= col < ns,
    ;
}

/// Whether the picture of `game` is no wider than an `i32` can say.
pub fn can_draw(game: &GameState) -> (ok: bool)
    requires
        game.wf(),
    ensures
        ok == scene_fits(game@),
{
    let width: u128 = 2 * (game.num_pieces() as u128) + 8;
    let stacks: u128 = game.num_stacks() as u128;
    proof {
        assert(width * stacks <= 0x2_0000_0008 * 0x1_0000_0000) by (nonlinear_arith)
            requires
                0 <= width <= 0x2_0000_0008,
                0 <= stacks <= 0x1_0000_0000,
        ;
    }
    width * stacks <= 0x7fff_ffff
}

/// Whether the picture of `game` at `scale` is no larger than a `u32` can
/// say.
pub fn can_size(game: &GameState, scale: u32) -> (ok: bool)
    requires
        game.wf(),
    ensures
        ok == (scene_width(game@) * scale <= u32::MAX && scene_height(game@) * scale
            <= u32::MAX),
{
    let per_stack: u128 = 2 * (game.num_pieces() as u128) + 9;
    let stacks: u128 = game.num_stacks() as u128;
    let height: u128 = (game.num_pieces() as u128) + 5;
    proof {
        assert(per_stack * stacks <= 0x2_0000_0009 * 0x1_0000_0000 && per_stack * stacks * scale
            <= 0x2_0000_0009 * 0x1_0000_0000 * 0x1_0000_0000 && height * scale <= 0x1_0000_0005
            * 0x1_0000_0000) by (nonlinear_arith)
            requires
                0 <= per_stack <= 0x2_0000_0009,
                0 <= stacks <= 0x1_0000_0000,
                0 <= height <= 0x1_0000_0005,
                0 <= scale <= 0x1_0000_0000,
        ;
    }
    per_stack * stacks * (scale as u128) <= 0xffff_ffff && height * (scale as u128) <= 0xffff_ffff
}

/// The rectangles to paint for `game` with the hand at `hand`, in order.
pub fn scene(game: &GameState, hand: &InteractState) -> (r: Vec<Rect>)
    requires
        game.wf(),
        hand.valid_for(game@),
        scene_fits(game@),
    ensures
        r@ == scene_of(game@, *hand),
{
    let num_pieces: u32 = game.num_pieces();
    let num_stacks: u32 = game.num_stacks();
    proof {
        lemma_column(reserve(game@), hand.hand_column as int, num_stacks as int);
    }
    let width: i32 = 2 * (num_pieces as i32) + 8;
    let base_y: i32 = (num_pieces as i32) + 4;
    let hand_start: i32 = width * (hand.hand_column as i32);
    let mut out: Vec<Rect> = Vec::new();
    out.push(
        Rect {
            left: hand_start,
            right: hand_start + width,
            top: 0,
            bottom: 1,
            paint: Paint::Hand,
        },
    );
    for col in 0..num_stacks
        invariant
            game.wf(),
            scene_fits(game@),
            num_stacks == game@.num_stacks,
            num_pieces == game@.pieces.len(),
            width == reserve(game@),
            base_y == num_pieces + 4,
            width * num_stacks <= i32::MAX,
            out@.len() == 1 + 2 * col,
            forall|k: int| 0 <= k < out@.len() ==> out@[k] == scene_rect(game@, *hand, k),
    {
        proof {
            lemma_column(width as int, col as int, num_stacks as int);
        }
        let col_base: i32 = width * (col as i32);
        let upright_x: i32 = col_base + width / 2 - 1;
        out.push(
            Rect { left: upright_x, right: upright_x + 2, top: 3, bottom: base_y, paint: Paint::Frame },
        );
        out.push(
            Rect {
                left: col_base + 1,
                right: col_base + width - 1,
                top: base_y,
                bottom: base_y + 1,
                paint: Paint::Frame,
            },
        );
    }
    let held_piece: Option<Piece> = match hand.grabbed {
        Some(col) => game.stack_top(col),
        None => None,
    };
    for num in 0..num_pieces
        invariant
            game.wf(),
            hand.valid_for(game@),
            scene_fits(game@),
            num_stacks == game@.num_stacks,
            num_pieces == game@.pieces.len(),
            width == reserve(game@),
            width * num_stacks <= i32::MAX,
            held_piece == match hand.grabbed {
                Some(col) => game@.stack_top(col),
                None => None,
            },
            out@.len() == 1 + 2 * num_stacks + num,
            forall|k: int| 0 <= k < out@.len() ==> out@[k] == scene_rect(game@, *hand, k),
    {
        let piece: Piece = game.get_piece(num);
        let is_held: bool = match held_piece {
            Some(top) => top.num == num,
            None => false,
        };
        let col: u32 = if is_held {
            hand.hand_column
        } else {
            piece.state.stack
        };
        proof {
            assert(game@.pieces[num as int].stack < num_stacks);
            lemma_count_bound(game@.pieces, piece.state.stack, num as int);
            lemma_column(width as int, col as int, num_stacks as int);
        }
        let col_base: i32 = width * (col as i32);
        let top: i32 = if is_held {
            1
        } else {
            3 + (num_pieces as i32) - (piece.state.height as i32)
        };
        out.push(
            Rect {
                left: col_base + 2 + (num as i32),
                right: col_base + width - 2 - (num as i32),
                top,
                bottom: top + 1,
                paint: Paint::Piece(piece.colour()),
            },
        );
    }
    proof {
        assert(out@ =~= scene_of(game@, *hand));
    }
    out
}

/// The width of the picture in unscaled cells.
pub open spec fn scene_width(g: GameModel) -> int {
    (2 * (g.pieces.len() as int) + 9) * g.num_stacks
}

/// The height of the picture in unscaled cells.
pub open spec fn scene_height(g: GameModel) -> int {
    (g.pieces.len() as int) + 5
}

/// Width and height of the picture of `game`, each cell drawn `scale` cells
/// wide and high.
pub fn scene_size(game: &GameState, scale: u32) -> (r: (u32, u32))
    requires
        game.wf(),
        scene_width(game@) * scale <= u32::MAX,
        scene_height(game@) * scale <= u32::MAX,
    ensures
        r.0 == scene_width(game@) * scale,
        r.1 == scene_height(game@) * scale,
{
    if scale == 0 {
        proof {
            assert(scene_width(game@) * 0 == 0 && scene_height(game@) * 0 == 0)
                by (nonlinear_arith);
        }
        return (0, 0);
    }
    let num_pieces: u32 = game.num_pieces();
    let num_stacks: u32 = game.num_stacks();
    proof {
        let per_stack = 2 * (num_pieces as int) + 9;
        assert(per_stack <= per_stack * num_stacks <= per_stack * num_stacks * scale
            && num_pieces + 5 <= (num_pieces + 5) * scale) by (nonlinear_arith)
            requires
                per_stack > 0,
                num_stacks >= 1,
                scale >= 1,
        ;
    }
    (((num_pieces + 1) * 2 + 7) * num_stacks * scale, (num_pieces + 5) * scale)
}

/// The greatest scale at which a picture of `scene_w` by `scene_h` cells
/// fits a terminal of `term_w` by `term_h` cells; 0 where it does not fit.
pub fn make_scale(term_w: u32, term_h: u32, scene_w: u32, scene_h: u32) -> (scale: u32)
    requires
        scene_w > 0,
        scene_h > 0,
    ensures
        scale == if term_w / scene_w <= term_h / scene_h {
            term_w / scene_w
        } else {
            term_h / scene_h
        },
        scale * scene_w <= term_w,
        scale * scene_h <= term_h,
{
    let scale_x: u32 = term_w / scene_w;
    let scale_y: u32 = term_h / scene_h;
    proof {
        assert(scale_x * scene_w <= term_w && scale_y * scene_h <= term_h) by (nonlinear_arith)
            requires
                scene_w > 0,
                scene_h > 0,
                scale_x == term_w / scene_w,
                scale_y == term_h / scene_h,
        ;
        assert(scale_x <= scale_y ==> scale_x * scene_h <= scale_y * scene_h)
            by (nonlinear_arith);
        assert(scale_y <= scale_x ==> scale_y * scene_w <= scale_x * scene_w)
            by (nonlinear_arith);
    }
    if scale_x <= scale_y {
        scale_x
    } else {
        scale_y
    }
}

} // verus!
