use hanoi::{Colour, Error, GameState, Piece, PieceState};

fn positions(g: &GameState) -> Vec<(u32, u32)> {
    let mut out = Vec::new();
    for n in 0..g.num_pieces() {
        let p = g.get_piece(n);
        out.push((p.state.stack, p.state.height));
    }
    out
}

fn sorted_heights(g: &GameState, stack: u32) -> Vec<u32> {
    let mut hs: Vec<u32> = positions(g)
        .into_iter()
        .filter(|&(s, _)| s == stack)
        .map(|(_, h)| h)
        .collect();
    hs.sort();
    hs
}

fn heights_are_contiguous(g: &GameState) -> bool {
    (0..g.num_stacks()).all(|s| {
        let hs = sorted_heights(g, s);
        hs.iter().enumerate().all(|(i, &h)| h as usize == i)
    })
}

#[test]
fn new_rejects_start_stack_out_of_range() {
    assert!(matches!(GameState::new(3, 3, 2), Err(Error::InvalidStack)));
    assert!(matches!(GameState::new(4, 3, 2), Err(Error::InvalidStack)));
    assert!(matches!(GameState::new(0, 0, 2), Err(Error::InvalidStack)));
    assert!(matches!(GameState::new(u32::MAX, u32::MAX, 1), Err(Error::InvalidStack)));
}

#[test]
fn new_rejects_zero_pieces() {
    assert!(matches!(GameState::new(0, 3, 0), Err(Error::ZeroPieces)));
    assert!(matches!(GameState::new(2, 3, 0), Err(Error::ZeroPieces)));
}

#[test]
fn new_checks_the_stack_before_the_pieces() {
    assert!(matches!(GameState::new(3, 3, 0), Err(Error::InvalidStack)));
}

#[test]
fn new_places_every_piece_on_the_start_stack() {
    let g = GameState::new(1, 4, 5).unwrap();
    assert_eq!(g.num_pieces(), 5);
    assert_eq!(g.num_stacks(), 4);
    assert_eq!(positions(&g), vec![(1, 0), (1, 1), (1, 2), (1, 3), (1, 4)]);
    assert!(!g.complete());
}

#[test]
fn new_with_one_piece_and_one_stack() {
    let mut g = GameState::new(0, 1, 1).unwrap();
    assert_eq!(positions(&g), vec![(0, 0)]);
    assert!(matches!(g.try_move(0, 0), Ok(true)));
    assert!(!g.complete());
}

#[test]
fn colour_alternates_with_the_number() {
    let state = PieceState { stack: 0, height: 0 };
    assert!(matches!(Piece { state, num: 0 }.colour(), Colour::Black));
    assert!(matches!(Piece { state, num: 1 }.colour(), Colour::White));
    assert!(matches!(Piece { state, num: 2 }.colour(), Colour::Black));
    assert!(matches!(Piece { state, num: u32::MAX }.colour(), Colour::White));
}

#[test]
fn get_piece_gives_number_and_position() {
    let mut g = GameState::new(0, 3, 3).unwrap();
    assert!(matches!(g.try_move(0, 2), Ok(true)));
    let p = g.get_piece(2);
    assert_eq!((p.num, p.state.stack, p.state.height), (2, 2, 0));
    let q = g.get_piece(1);
    assert_eq!((q.num, q.state.stack, q.state.height), (1, 0, 1));
}

#[test]
fn valid_stack_is_below_num_stacks() {
    let g = GameState::new(0, 3, 2).unwrap();
    assert!(g.valid_stack(0));
    assert!(g.valid_stack(2));
    assert!(!g.valid_stack(3));
    assert!(!g.valid_stack(u32::MAX));
}

#[test]
fn stack_top_is_the_highest_piece() {
    let g = GameState::new(0, 3, 4).unwrap();
    let top = g.stack_top(0).unwrap();
    assert_eq!((top.num, top.state.stack, top.state.height), (3, 0, 3));
}

#[test]
fn stack_top_of_an_empty_stack_is_none() {
    let g = GameState::new(0, 3, 4).unwrap();
    assert!(g.stack_top(1).is_none());
    assert!(g.stack_top(2).is_none());
    assert!(g.stack_top(7).is_none());
}

#[test]
fn pieces_iter_walks_in_ascending_order() {
    let mut g = GameState::new(0, 3, 3).unwrap();
    assert!(matches!(g.try_move(0, 1), Ok(true)));
    let mut it = g.pieces_iter();
    let mut seen = Vec::new();
    while let Some(p) = it.next() {
        seen.push((p.num, p.state.stack, p.state.height));
    }
    assert_eq!(seen, vec![(0, 0, 0), (1, 0, 1), (2, 1, 0)]);
    assert!(it.next().is_none());
    assert!(it.next().is_none());
}

#[test]
fn pieces_iter_starts_anew_on_each_call() {
    let g = GameState::new(2, 3, 2).unwrap();
    let mut first = g.pieces_iter();
    assert_eq!(first.next().unwrap().num, 0);
    assert_eq!(first.next().unwrap().num, 1);
    let mut second = g.pieces_iter();
    let p = second.next().unwrap();
    assert_eq!((p.num, p.state.stack, p.state.height), (0, 2, 0));
}

#[test]
fn same_stack_move_changes_nothing() {
    let mut g = GameState::new(0, 3, 3).unwrap();
    assert!(matches!(g.try_move(0, 1), Ok(true)));
    let before = positions(&g);
    assert!(matches!(g.try_move(0, 0), Ok(true)));
    assert_eq!(positions(&g), before);
    assert!(matches!(g.try_move(1, 1), Ok(true)));
    assert_eq!(positions(&g), before);
}

#[test]
fn same_stack_move_on_an_empty_stack_is_an_error() {
    let mut g = GameState::new(0, 3, 3).unwrap();
    let before = positions(&g);
    assert!(matches!(g.try_move(2, 2), Err(Error::InvalidStack)));
    assert_eq!(positions(&g), before);
}

#[test]
fn move_from_an_empty_stack_is_an_error() {
    let mut g = GameState::new(0, 3, 3).unwrap();
    let before = positions(&g);
    assert!(matches!(g.try_move(1, 0), Err(Error::InvalidStack)));
    assert!(matches!(g.try_move(1, 2), Err(Error::InvalidStack)));
    assert_eq!(positions(&g), before);
}

#[test]
fn move_with_a_bad_index_is_an_error() {
    let mut g = GameState::new(0, 3, 2).unwrap();
    let before = positions(&g);
    let n = g.num_stacks();
    assert!(matches!(g.try_move(n, 0), Err(Error::InvalidStack)));
    assert!(matches!(g.try_move(0, n), Err(Error::InvalidStack)));
    assert!(matches!(g.try_move(n, n), Err(Error::InvalidStack)));
    assert!(matches!(g.try_move(u32::MAX, 1), Err(Error::InvalidStack)));
    assert_eq!(positions(&g), before);
}

#[test]
fn larger_piece_never_lands_on_a_smaller_one() {
    let mut g = GameState::new(0, 3, 3).unwrap();
    assert!(matches!(g.try_move(0, 1), Ok(true)));
    let before = positions(&g);
    assert!(matches!(g.try_move(0, 1), Ok(false)));
    assert_eq!(positions(&g), before);
    assert!(matches!(g.try_move(0, 2), Ok(true)));
    let before = positions(&g);
    assert!(matches!(g.try_move(0, 1), Ok(false)));
    assert!(matches!(g.try_move(0, 2), Ok(false)));
    assert!(matches!(g.try_move(2, 1), Ok(false)));
    assert_eq!(positions(&g), before);
}

#[test]
fn move_onto_an_occupied_stack_lands_one_above_its_top() {
    let mut g = GameState::new(0, 3, 3).unwrap();
    assert!(matches!(g.try_move(0, 1), Ok(true)));
    assert!(matches!(g.try_move(0, 2), Ok(true)));
    assert!(matches!(g.try_move(1, 2), Ok(true)));
    assert_eq!(positions(&g), vec![(0, 0), (2, 0), (2, 1)]);
    assert!(matches!(g.try_move(2, 0), Ok(true)));
    assert_eq!(positions(&g), vec![(0, 0), (2, 0), (0, 1)]);
}

#[test]
fn heights_stay_contiguous_through_moves() {
    let mut g = GameState::new(1, 4, 4).unwrap();
    let requests = [
        (1, 0), (1, 2), (0, 2), (1, 3), (2, 3), (1, 0), (3, 1), (2, 0),
        (3, 3), (0, 3), (5, 1), (2, 1), (1, 3), (0, 1), (3, 0), (3, 2),
    ];
    assert!(heights_are_contiguous(&g));
    for &(from, to) in requests.iter() {
        let before = positions(&g);
        match g.try_move(from, to) {
            Ok(true) => {}
            Ok(false) | Err(_) => assert_eq!(positions(&g), before),
        }
        assert!(heights_are_contiguous(&g));
        assert_eq!(g.num_pieces(), 4);
        assert_eq!(g.num_stacks(), 4);
    }
}

#[test]
fn pieces_on_a_stack_stay_ordered_by_size() {
    let mut g = GameState::new(0, 3, 3).unwrap();
    let requests = [(0, 2), (0, 1), (2, 1), (0, 2), (1, 0), (1, 2), (0, 2)];
    for &(from, to) in requests.iter() {
        assert!(matches!(g.try_move(from, to), Ok(true)));
        let ps = positions(&g);
        for i in 0..ps.len() {
            for j in (i + 1)..ps.len() {
                if ps[i].0 == ps[j].0 {
                    assert!(ps[i].1 < ps[j].1);
                }
            }
        }
    }
}

#[test]
fn three_pieces_are_solved_in_seven_moves() {
    let mut g = GameState::new(0, 3, 3).unwrap();
    assert!(!g.complete());
    let solution = [(0, 2), (0, 1), (2, 1), (0, 2), (1, 0), (1, 2), (0, 2)];
    for (step, &(from, to)) in solution.iter().enumerate() {
        assert!(!g.complete());
        assert!(matches!(g.try_move(from, to), Ok(true)), "step {}", step);
    }
    assert!(g.complete());
    assert_eq!(positions(&g), vec![(2, 0), (2, 1), (2, 2)]);
}

#[test]
fn any_stack_but_the_start_completes_the_game() {
    let mut g = GameState::new(1, 3, 1).unwrap();
    assert!(!g.complete());
    assert!(matches!(g.try_move(1, 0), Ok(true)));
    assert!(g.complete());
    assert!(matches!(g.try_move(0, 2), Ok(true)));
    assert!(g.complete());
    assert!(matches!(g.try_move(2, 1), Ok(true)));
    assert!(!g.complete());
}

#[test]
fn two_piece_game_step_by_step() {
    let mut g = GameState::new(0, 3, 2).unwrap();
    assert_eq!(positions(&g), vec![(0, 0), (0, 1)]);
    assert!(matches!(g.try_move(0, 1), Ok(true)));
    assert_eq!(positions(&g), vec![(0, 0), (1, 0)]);
    assert!(matches!(g.try_move(0, 1), Ok(false)));
    assert_eq!(positions(&g), vec![(0, 0), (1, 0)]);
    assert!(!g.complete());
    assert!(matches!(g.try_move(0, 2), Ok(true)));
    assert_eq!(positions(&g), vec![(2, 0), (1, 0)]);
    assert!(!g.complete());
    assert!(matches!(g.try_move(1, 2), Ok(true)));
    assert_eq!(positions(&g), vec![(2, 0), (2, 1)]);
    assert!(g.complete());
}
