use pong::paddle::PLAYER_COLUMN;
use pong::{Ball, Hitbox, Paddle};

#[test]
fn player_paddle_stands_four_columns_in() {
    let player = Paddle::new_player(7);
    assert_eq!(PLAYER_COLUMN, 4);
    assert_eq!(player, Paddle { x_coordinate: 4, y_coordinate: 7 });
}

#[test]
fn rival_paddle_stands_where_it_is_put() {
    let rival = Paddle::new_rival(80, 3);
    assert_eq!(rival, Paddle { x_coordinate: 80, y_coordinate: 3 });
}

#[test]
fn paddle_covers_three_rows() {
    let paddle = Paddle::new_player(7);
    assert_eq!(paddle.get_hitbox(), Hitbox { top: 7, bottom: 9 });
    let last = Paddle::new_rival(1, u16::MAX);
    assert_eq!(last.get_hitbox(), Hitbox { top: 65535, bottom: 65537 });
}

#[test]
fn catch_ball_sets_the_row_and_keeps_the_column() {
    let mut paddle = Paddle::new_rival(80, 3);
    paddle.catch_ball(12);
    assert_eq!(paddle, Paddle { x_coordinate: 80, y_coordinate: 12 });
    paddle.catch_ball(0);
    assert_eq!(paddle, Paddle { x_coordinate: 80, y_coordinate: 0 });
}

#[test]
fn paddle_touches_balls_from_its_top_row_to_one_below_its_bar() {
    let paddle = Paddle::new_player(7);
    let expected = [
        (5, false),
        (6, false),
        (7, true),
        (8, true),
        (9, true),
        (10, true),
        (11, false),
        (12, false),
    ];
    for (row, touching) in expected {
        assert_eq!(paddle.is_touching(&Ball::new(30, row)), touching, "ball on row {}", row);
    }
}

#[test]
fn touching_does_not_depend_on_columns() {
    let paddle = Paddle::new_rival(80, 7);
    assert!(paddle.is_touching(&Ball::new(1, 8)));
    assert!(paddle.is_touching(&Ball::new(80, 8)));
    assert!(!paddle.is_touching(&Ball::new(80, 12)));
}

#[test]
fn touching_at_the_ends_of_the_row_range() {
    let top = Paddle::new_player(0);
    assert!(top.is_touching(&Ball::new(4, 0)));
    assert!(top.is_touching(&Ball::new(4, 3)));
    assert!(!top.is_touching(&Ball::new(4, 4)));
    let bottom = Paddle::new_player(u16::MAX);
    assert!(bottom.is_touching(&Ball::new(4, u16::MAX)));
    assert!(!bottom.is_touching(&Ball::new(4, u16::MAX - 1)));
}
