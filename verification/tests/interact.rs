use hanoi::scene::{can_draw, can_size, make_scale, scene, scene_size};
use hanoi::{Colour, Event, GameState, InteractState, Paint, Rect};

fn hand(hand_column: u32, grabbed: Option<u32>) -> InteractState {
    InteractState { hand_column, grabbed }
}

fn corners(r: &Rect) -> (i32, i32, i32, i32) {
    (r.left, r.right, r.top, r.bottom)
}

#[test]
fn hand_moves_left_and_right_and_stops_at_the_ends() {
    let mut g = GameState::new(0, 3, 2).unwrap();
    let mut h = hand(0, None);
    assert!(!h.handle_event(&mut g, Event::Left));
    assert_eq!(h.hand_column, 0);
    assert!(!h.handle_event(&mut g, Event::Right));
    assert_eq!(h.hand_column, 1);
    assert!(!h.handle_event(&mut g, Event::Right));
    assert_eq!(h.hand_column, 2);
    assert!(!h.handle_event(&mut g, Event::Right));
    assert_eq!(h.hand_column, 2);
    assert!(!h.handle_event(&mut g, Event::Left));
    assert_eq!(h.hand_column, 1);
    assert!(h.grabbed.is_none());
}

#[test]
fn action_grabs_only_where_a_piece_stands() {
    let mut g = GameState::new(0, 3, 2).unwrap();
    let mut h = hand(1, None);
    assert!(!h.handle_event(&mut g, Event::Action));
    assert!(h.grabbed.is_none());
    let mut h = hand(0, None);
    assert!(!h.handle_event(&mut g, Event::Action));
    assert_eq!(h.grabbed, Some(0));
    assert_eq!(h.hand_column, 0);
}

#[test]
fn action_puts_down_where_the_move_is_made() {
    let mut g = GameState::new(0, 3, 2).unwrap();
    let mut h = hand(1, Some(0));
    assert!(!h.handle_event(&mut g, Event::Action));
    assert!(h.grabbed.is_none());
    let p = g.get_piece(1);
    assert_eq!((p.state.stack, p.state.height), (1, 0));
}

#[test]
fn action_keeps_hold_where_the_move_is_refused() {
    let mut g = GameState::new(0, 3, 2).unwrap();
    assert!(matches!(g.try_move(0, 1), Ok(true)));
    let mut h = hand(1, Some(0));
    assert!(!h.handle_event(&mut g, Event::Action));
    assert_eq!(h.grabbed, Some(0));
    let p = g.get_piece(0);
    assert_eq!((p.state.stack, p.state.height), (0, 0));
}

#[test]
fn action_on_the_grabbed_stack_lets_go() {
    let mut g = GameState::new(0, 3, 2).unwrap();
    let mut h = hand(0, Some(0));
    assert!(!h.handle_event(&mut g, Event::Action));
    assert!(h.grabbed.is_none());
    let p = g.get_piece(1);
    assert_eq!((p.state.stack, p.state.height), (0, 1));
}

#[test]
fn session_ends_when_the_game_is_complete() {
    let mut g = GameState::new(0, 3, 1).unwrap();
    let mut h = hand(0, None);
    assert!(!h.handle_event(&mut g, Event::Action));
    assert!(!h.handle_event(&mut g, Event::Right));
    assert!(h.handle_event(&mut g, Event::Action));
    assert!(g.complete());
    assert!(h.grabbed.is_none());
}

#[test]
fn any_other_event_ends_the_session() {
    let mut g = GameState::new(0, 3, 2).unwrap();
    let mut h = hand(1, Some(0));
    assert!(h.handle_event(&mut g, Event::Other));
    assert_eq!((h.hand_column, h.grabbed), (1, Some(0)));
    assert!(!g.complete());
}

#[test]
fn hand_validity_is_checked() {
    let g = GameState::new(0, 3, 2).unwrap();
    assert!(hand(0, None).is_valid_for(&g));
    assert!(hand(2, Some(0)).is_valid_for(&g));
    assert!(!hand(3, None).is_valid_for(&g));
    assert!(!hand(0, Some(1)).is_valid_for(&g));
    assert!(!hand(0, Some(3)).is_valid_for(&g));
}

#[test]
fn scene_of_a_new_game() {
    let g = GameState::new(0, 3, 2).unwrap();
    assert!(can_draw(&g));
    let s = scene(&g, &hand(1, None));
    assert_eq!(s.len(), 1 + 2 * 3 + 2);
    // one stack takes 2 * 2 + 8 = 12 cells
    assert_eq!(corners(&s[0]), (12, 24, 0, 1));
    assert!(matches!(s[0].paint, Paint::Hand));
    assert_eq!(corners(&s[1]), (5, 7, 3, 6));
    assert_eq!(corners(&s[2]), (1, 11, 6, 7));
    assert_eq!(corners(&s[3]), (17, 19, 3, 6));
    assert_eq!(corners(&s[4]), (13, 23, 6, 7));
    assert_eq!(corners(&s[5]), (29, 31, 3, 6));
    assert_eq!(corners(&s[6]), (25, 35, 6, 7));
    assert!(matches!(s[6].paint, Paint::Frame));
    assert_eq!(corners(&s[7]), (2, 10, 5, 6));
    assert!(matches!(s[7].paint, Paint::Piece(Colour::Black)));
    assert_eq!(corners(&s[8]), (3, 9, 4, 5));
    assert!(matches!(s[8].paint, Paint::Piece(Colour::White)));
}

#[test]
fn scene_shows_the_held_piece_under_the_hand() {
    let g = GameState::new(0, 3, 2).unwrap();
    let s = scene(&g, &hand(2, Some(0)));
    assert_eq!(corners(&s[0]), (24, 36, 0, 1));
    assert_eq!(corners(&s[7]), (2, 10, 5, 6));
    assert_eq!(corners(&s[8]), (27, 33, 1, 2));
}

#[test]
fn scene_too_wide_is_refused() {
    let g = GameState::new(0, u32::MAX, 1).unwrap();
    assert!(!can_draw(&g));
    assert!(!can_size(&g, 1));
    let g = GameState::new(0, 214748364, 1).unwrap();
    assert!(can_draw(&g));
    let g = GameState::new(0, 214748365, 1).unwrap();
    assert!(!can_draw(&g));
}

#[test]
fn scene_size_grows_with_the_scale() {
    let g = GameState::new(0, 3, 2).unwrap();
    assert!(can_size(&g, 1));
    assert_eq!(scene_size(&g, 1), (39, 7));
    assert_eq!(scene_size(&g, 3), (117, 21));
    assert_eq!(scene_size(&g, 0), (0, 0));
    assert!(can_size(&g, 110127366));
    assert!(!can_size(&g, 110127367));
}

#[test]
fn make_scale_is_the_smaller_quotient() {
    assert_eq!(make_scale(80, 24, 39, 7), 2);
    assert_eq!(make_scale(200, 24, 39, 7), 3);
    assert_eq!(make_scale(30, 24, 39, 7), 0);
    assert_eq!(make_scale(39, 7, 39, 7), 1);
    assert_eq!(make_scale(400, 13, 39, 7), 1);
}
