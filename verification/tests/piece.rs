use blockfall::cell::Color;
use blockfall::intent::InputIntent;
use blockfall::piece::{Piece, Shape, GRAVITY_INTERVAL_MS};

fn piece_at(x: i64, y: i64) -> Piece {
    Piece { shape: Shape::I, color: Color::Red, rotation: 0, x, y }
}

#[test]
fn starting_piece_is_a_red_i_at_column_five() {
    assert_eq!(Piece::starting(), piece_at(5, 0));
}

#[test]
fn gravity_ticks_once_a_second() {
    assert_eq!(GRAVITY_INTERVAL_MS, 1000);
}

#[test]
fn left_moves_one_column_left() {
    let mut piece = piece_at(5, 2);
    piece.apply_intent(InputIntent::Left);
    assert_eq!(piece, piece_at(4, 2));
}

#[test]
fn right_moves_one_column_right() {
    let mut piece = piece_at(5, 2);
    piece.apply_intent(InputIntent::Right);
    assert_eq!(piece, piece_at(6, 2));
}

#[test]
fn down_moves_one_row_down() {
    let mut piece = piece_at(5, 2);
    piece.apply_intent(InputIntent::Down);
    assert_eq!(piece, piece_at(5, 3));
}

#[test]
fn up_and_neutral_leave_the_piece_alone() {
    let mut piece = piece_at(5, 2);
    piece.apply_intent(InputIntent::Up);
    assert_eq!(piece, piece_at(5, 2));
    piece.apply_intent(InputIntent::Neutral);
    assert_eq!(piece, piece_at(5, 2));
}

#[test]
fn intent_keeps_shape_color_and_rotation() {
    let mut piece = Piece { shape: Shape::T, color: Color::Green, rotation: 3, x: -2, y: 9 };
    piece.apply_intent(InputIntent::Right);
    assert_eq!(piece, Piece { shape: Shape::T, color: Color::Green, rotation: 3, x: -1, y: 9 });
}

#[test]
fn left_at_column_zero_goes_to_minus_one() {
    let mut piece = piece_at(0, 0);
    assert!(piece.can_apply(InputIntent::Left));
    piece.apply_intent(InputIntent::Left);
    assert_eq!(piece.x, -1);
    assert_eq!(piece.y, 0);
}

#[test]
fn can_apply_is_false_only_at_the_integer_limits() {
    assert!(!piece_at(i64::MIN, 0).can_apply(InputIntent::Left));
    assert!(piece_at(i64::MIN, 0).can_apply(InputIntent::Right));
    assert!(piece_at(i64::MIN + 1, 0).can_apply(InputIntent::Left));
    assert!(!piece_at(i64::MAX, 0).can_apply(InputIntent::Right));
    assert!(piece_at(i64::MAX, 0).can_apply(InputIntent::Left));
    assert!(!piece_at(0, i64::MAX).can_apply(InputIntent::Down));
    assert!(piece_at(0, i64::MAX - 1).can_apply(InputIntent::Down));
    assert!(piece_at(i64::MIN, i64::MAX).can_apply(InputIntent::Up));
    assert!(piece_at(i64::MAX, i64::MAX).can_apply(InputIntent::Neutral));
}

#[test]
fn gravity_adds_exactly_one_row() {
    let mut piece = piece_at(5, 0);
    piece.gravity_tick();
    assert_eq!(piece, piece_at(5, 1));
    piece.gravity_tick();
    assert_eq!(piece, piece_at(5, 2));
}

#[test]
fn gravity_does_not_stop_at_any_row() {
    let mut piece = piece_at(5, -3);
    for expected in -2..40 {
        piece.gravity_tick();
        assert_eq!(piece.y, expected);
    }
    assert_eq!(piece.x, 5);
}

#[test]
fn can_fall_is_false_only_at_the_last_row_number() {
    assert!(piece_at(0, 0).can_fall());
    assert!(piece_at(0, i64::MAX - 1).can_fall());
    assert!(!piece_at(0, i64::MAX).can_fall());
    let mut piece = piece_at(7, i64::MAX - 1);
    piece.gravity_tick();
    assert_eq!(piece.y, i64::MAX);
}

#[test]
fn gravity_and_intent_commute() {
    let intents = [
        InputIntent::Up,
        InputIntent::Down,
        InputIntent::Left,
        InputIntent::Right,
        InputIntent::Neutral,
    ];
    for intent in intents {
        let mut tick_first = piece_at(5, 0);
        tick_first.gravity_tick();
        tick_first.apply_intent(intent);
        let mut intent_first = piece_at(5, 0);
        intent_first.apply_intent(intent);
        let without_tick = intent_first;
        intent_first.gravity_tick();
        assert_eq!(tick_first, intent_first);
        assert_eq!(intent_first.y, without_tick.y + 1);
        assert_eq!(intent_first.x, without_tick.x);
    }
}
