use pong::game::{DIFFICULTY, MARGIN, MAX_HEIGHT, TICK_MILLIS};
use pong::{Ball, BallBounce, BallDirection, Game, Input, Paddle, Phase};

fn court() -> Game {
    Game::new(24, 80, DIFFICULTY).unwrap()
}

#[test]
fn constants_of_the_game() {
    assert_eq!(DIFFICULTY, 12);
    assert_eq!(TICK_MILLIS, 33);
    assert_eq!(MAX_HEIGHT, 79);
    assert_eq!(MARGIN, 3);
}

#[test]
fn new_game_starts_on_the_top_row() {
    let game = court();
    assert_eq!(
        game,
        Game {
            height: 24,
            width: 80,
            difficulty: 12,
            player: Paddle { x_coordinate: 4, y_coordinate: 1 },
            rival: Paddle { x_coordinate: 80, y_coordinate: 1 },
            ball: Ball {
                x_coordinate: 5,
                y_coordinate: 1,
                direction: BallDirection::FromPlayer,
                bounce: BallBounce::Forward,
            },
            phase: Phase::Running,
        }
    );
    assert!(game.is_valid());
}

#[test]
fn court_is_never_taller_than_the_limit() {
    assert_eq!(Game::new(79, 80, 12).unwrap().height, 79);
    assert_eq!(Game::new(80, 80, 12).unwrap().height, 79);
    assert_eq!(Game::new(u16::MAX, 80, 12).unwrap().height, 79);
    assert_eq!(Game::new(4, 80, 12).unwrap().height, 4);
}

#[test]
fn terminal_that_cannot_hold_a_game_is_turned_down() {
    assert_eq!(Game::new(3, 80, 12), None);
    assert_eq!(Game::new(0, 80, 12), None);
    assert_eq!(Game::new(24, 4, 12), None);
    assert_eq!(Game::new(24, u16::MAX, 12), None);
    assert_eq!(Game::new(24, 80, 0), None);
    assert!(Game::new(4, 5, 1).is_some());
    assert!(Game::new(24, u16::MAX - 1, 12).is_some());
}

#[test]
fn validity_is_told_from_the_fields() {
    let game = court();
    assert!(game.is_valid());
    assert!(!Game { height: 3, ..game }.is_valid());
    assert!(!Game { width: 0, ..game }.is_valid());
    assert!(!Game { width: u16::MAX, ..game }.is_valid());
    assert!(!Game { difficulty: 0, ..game }.is_valid());
    assert!(!Game { ball: Ball::new(81, 1), ..game }.is_valid());
    assert!(!Game { ball: Ball::new(0, 1), ..game }.is_valid());
    assert!(!Game { ball: Ball::new(5, 22), ..game }.is_valid());
    assert!(!Game { ball: Ball::new(5, 0), ..game }.is_valid());
    assert!(Game { ball: Ball::new(80, 21), ..game }.is_valid());
    assert!(!Game { player: Paddle::new_player(22), ..game }.is_valid());
    assert!(!Game { player: Paddle::new_player(0), ..game }.is_valid());
    assert!(!Game { rival: Paddle::new_rival(80, 22), ..game }.is_valid());
    assert!(Game { rival: Paddle::new_rival(80, 21), ..game }.is_valid());
}

#[test]
fn keys_are_read_as_requests() {
    assert_eq!(Input::from_char('q'), Input::Quit);
    assert_eq!(Input::from_char('z'), Input::Up);
    assert_eq!(Input::from_char('x'), Input::Down);
    assert_eq!(Input::from_char('Q'), Input::Other);
    assert_eq!(Input::from_char(' '), Input::Other);
    assert_eq!(Input::from_char('\0'), Input::Other);
}

#[test]
fn ball_moves_only_when_a_tick_is_due() {
    let mut game = court();
    assert!(!game.tick(0));
    assert!(!game.tick(32));
    assert_eq!(game, court());
    assert!(game.tick(33));
    assert_eq!(game.ball, Ball::new(6, 1));
    assert!(game.tick(u64::MAX));
    assert_eq!(game.ball, Ball::new(7, 1));
    assert_eq!(Game { ball: Ball::new(5, 1), ..game }, court());
}

#[test]
fn ball_is_kept_above_the_margin() {
    let mut game = court();
    game.ball = Ball {
        x_coordinate: 8,
        y_coordinate: 21,
        direction: BallDirection::FromPlayer,
        bounce: BallBounce::Down,
    };
    assert!(game.is_valid());
    assert!(game.tick(33));
    assert_eq!((game.ball.x_coordinate, game.ball.y_coordinate), (9, 21));
    game.ball.x_coordinate = 16;
    game.ball.y_coordinate = 20;
    assert!(game.tick(33));
    assert_eq!((game.ball.x_coordinate, game.ball.y_coordinate), (17, 21));
}

#[test]
fn player_moves_one_row_and_stops_at_the_ends() {
    let mut game = court();
    game.steer(Input::Up);
    assert_eq!(game.player.y_coordinate, 1);
    game.steer(Input::Down);
    assert_eq!(game.player.y_coordinate, 2);
    game.steer(Input::Other);
    assert_eq!(game.player.y_coordinate, 2);
    for _ in 0..30 {
        game.steer(Input::Down);
    }
    assert_eq!(game.player.y_coordinate, 21);
    game.steer(Input::Up);
    assert_eq!(game.player.y_coordinate, 20);
    assert_eq!(game.player.x_coordinate, 4);
    assert_eq!(game.phase, Phase::Running);
    game.steer(Input::Quit);
    assert_eq!(game.phase, Phase::Terminated);
    assert_eq!(game.player.y_coordinate, 20);
}

#[test]
fn two_steps_up_and_a_quit() {
    let mut game = court();
    game.player.y_coordinate = 5;
    assert!(game.is_valid());
    let mut phases = Vec::new();
    for key in ['z', 'z', 'q'] {
        phases.push(game.play(Some(Input::from_char(key))));
    }
    assert_eq!(phases, vec![Phase::Running, Phase::Running, Phase::Terminated]);
    assert_eq!(game.player.y_coordinate, 3);
    assert_eq!(game.phase, Phase::Terminated);
}

#[test]
fn nothing_happens_once_the_game_is_over() {
    let mut game = court();
    assert_eq!(game.play(Some(Input::Quit)), Phase::Terminated);
    let over = game;
    assert!(!game.tick(1000));
    assert_eq!(game.play(Some(Input::Down)), Phase::Terminated);
    assert_eq!(game.play(None), Phase::Terminated);
    assert_eq!(game, over);
}

#[test]
fn quitting_skips_the_catch_and_the_rival() {
    let mut game = court();
    game.player.y_coordinate = 7;
    game.rival.y_coordinate = 5;
    game.ball = Ball::new(4, 10);
    assert!(game.is_valid());
    game.play(Some(Input::Quit));
    assert_eq!(game.player.y_coordinate, 7);
    assert_eq!(game.rival.y_coordinate, 5);
}

#[test]
fn player_catches_a_ball_in_its_own_column() {
    let mut game = court();
    game.player = Paddle::new_player(7);
    game.ball = Ball::new(4, 10);
    assert_eq!(game.player.x_coordinate, 4);
    assert!(game.player.is_touching(&game.ball));
    game.auto_catch();
    assert_eq!(game.player.y_coordinate, 10);
    assert_eq!(game.player.x_coordinate, 4);
}

#[test]
fn player_catches_the_ball_in_a_round_of_play() {
    let mut game = court();
    game.player = Paddle::new_player(7);
    game.ball = Ball::new(4, 10);
    assert!(game.is_valid());
    game.play(None);
    assert_eq!(game.player.y_coordinate, 10);
}

#[test]
fn player_does_not_catch_a_ball_elsewhere() {
    let mut game = court();
    game.player = Paddle::new_player(7);
    game.ball = Ball::new(4, 11);
    game.auto_catch();
    assert_eq!(game.player.y_coordinate, 7);
    game.ball = Ball::new(3, 8);
    game.auto_catch();
    assert_eq!(game.player.y_coordinate, 7);
    game.ball = Ball::new(5, 8);
    game.auto_catch();
    assert_eq!(game.player.y_coordinate, 7);
}

#[test]
fn rival_follows_the_ball_off_its_missing_rows() {
    for row in 1..=21 {
        if row % 12 == 0 {
            continue;
        }
        let mut game = court();
        game.rival.y_coordinate = row;
        game.ball = Ball::new(40, 9);
        assert!(game.is_valid());
        game.track_ball();
        assert_eq!(game.rival, Paddle { x_coordinate: 80, y_coordinate: 9 }, "from row {}", row);
    }
}

#[test]
fn rival_stays_put_on_its_missing_rows() {
    let mut game = Game::new(79, 80, 12).unwrap();
    for row in [12, 24, 36, 48, 60, 72] {
        game.rival.y_coordinate = row;
        game.ball = Ball::new(40, 9);
        assert!(game.is_valid());
        game.track_ball();
        assert_eq!(game.rival, Paddle { x_coordinate: 80, y_coordinate: row });
        game.play(None);
        assert_eq!(game.rival, Paddle { x_coordinate: 80, y_coordinate: row });
    }
}

#[test]
fn rival_rule_goes_by_the_divisor_of_the_game() {
    let mut game = Game::new(24, 80, 5).unwrap();
    game.rival.y_coordinate = 10;
    game.ball = Ball::new(40, 9);
    game.track_ball();
    assert_eq!(game.rival.y_coordinate, 10);
    game.rival.y_coordinate = 12;
    game.track_ball();
    assert_eq!(game.rival.y_coordinate, 9);
    let mut always = Game::new(24, 80, 1).unwrap();
    always.ball = Ball::new(40, 9);
    always.track_ball();
    assert_eq!(always.rival.y_coordinate, 1);
}

#[test]
fn rival_follows_the_ball_in_a_round_of_play() {
    let mut game = court();
    game.ball = Ball::new(40, 9);
    game.play(Some(Input::Down));
    assert_eq!(game.rival.y_coordinate, 9);
    assert_eq!(game.player.y_coordinate, 2);
    assert_eq!(game.ball, Ball::new(40, 9));
}

#[test]
fn paddles_strike_the_ball_in_a_round_of_play() {
    let mut game = court();
    game.rival.y_coordinate = 9;
    game.ball = Ball::new(78, 10);
    game.play(None);
    assert_eq!(game.ball.direction, BallDirection::ToPlayer);
    assert_eq!((game.ball.x_coordinate, game.ball.y_coordinate), (78, 10));
    let mut back = court();
    back.player.y_coordinate = 9;
    back.ball = Ball {
        x_coordinate: 5,
        y_coordinate: 10,
        direction: BallDirection::ToPlayer,
        bounce: BallBounce::Down,
    };
    back.check_collisions();
    assert_eq!(back.ball.direction, BallDirection::FromPlayer);
    assert_eq!((back.ball.x_coordinate, back.ball.y_coordinate), (5, 10));
    assert_eq!(Game { ball: Ball::new(5, 1), ..back }, Game { player: Paddle::new_player(9), ..court() });
}

#[test]
fn untouched_ball_passes_the_paddles_unchanged() {
    let mut game = court();
    game.ball = Ball {
        x_coordinate: 40,
        y_coordinate: 2,
        direction: BallDirection::ToPlayer,
        bounce: BallBounce::Up,
    };
    let before = game;
    game.check_collisions();
    assert_eq!(game, before);
}

#[test]
fn everything_stays_on_the_court_through_a_long_game() {
    let mut game = Game::new(30, 60, 12).unwrap();
    let keys = ['x', 'x', 'z', 'a', 'x', 'x', 'x', 'z', 'x', ' '];
    for round in 0..20000 {
        if game.tick(if round % 2 == 0 { 33 } else { 10 }) {
            assert!(game.is_valid());
        }
        let input = if round % 3 == 0 {
            Some(Input::from_char(keys[(round / 3) % keys.len()]))
        } else {
            None
        };
        assert_eq!(game.play(input), Phase::Running);
        assert!(game.is_valid());
        assert!(1 <= game.ball.x_coordinate && game.ball.x_coordinate <= 60);
        assert!(1 <= game.ball.y_coordinate && game.ball.y_coordinate <= 27);
        assert!(1 <= game.player.y_coordinate && game.player.y_coordinate <= 27);
        assert!(1 <= game.rival.y_coordinate && game.rival.y_coordinate <= 27);
        assert_eq!(game.player.x_coordinate, 4);
        assert_eq!(game.rival.x_coordinate, 60);
    }
}

#[test]
fn paddles_pushed_against_the_ends_stay_on_the_court() {
    let mut game = Game::new(4, 80, 12).unwrap();
    for key in ['x', 'x', 'z', 'z', 'x'] {
        game.play(Some(Input::from_char(key)));
        assert_eq!(game.player.y_coordinate, 1);
        assert!(game.is_valid());
    }
    let mut tall = Game::new(200, 80, 12).unwrap();
    for _ in 0..100 {
        tall.play(Some(Input::Down));
    }
    assert_eq!(tall.player.y_coordinate, 76);
    for _ in 0..100 {
        tall.play(Some(Input::Up));
    }
    assert_eq!(tall.player.y_coordinate, 1);
}
