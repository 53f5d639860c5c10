//! The game loop, as steps from one state of the court to the next.
//!
//! The program that drives the game keeps the clock, reads the keys and
//! writes the frames. Once round its loop it calls `Game::tick` with the
//! time since the last frame, writes a frame if one is due, and then calls
//! `Game::play` with the key that was pressed, if any.

use crate::ball::{Ball, BallBounce, BallDirection};
use crate::paddle::{Paddle, PLAYER_COLUMN};
use vstd::prelude::*;

verus! {

/// The rival lets the ball go whenever its own row is a multiple of this
/// number. On a court of at most 76 paddle rows a larger divisor leaves fewer
/// such rows: 8 gives nine of them, 10 gives seven, 12 gives six.
pub const DIFFICULTY: u16 = 12;

/// Milliseconds between two moves of the ball.
pub const TICK_MILLIS: u64 = 33;

/// The court is never taller than this, however tall the terminal is.
pub const MAX_HEIGHT: u16 = 79;

/// Rows at the bottom of the court that no paddle top and no ball may enter.
pub const MARGIN: u16 = 3;

/// Where the ball is served from.
pub const SERVE_COLUMN: u16 = 5;

/// The row on which both paddles and the ball start.
pub const START_ROW: u16 = 1;

/// What a key press asks for.
#[derive(Clone, Copy, Debug, PartialEq, Eq, Structural)]
pub enum Input {
    Quit,
    Up,
    Down,
    Other,
}

impl Input {
    /// `q` quits, `z` moves the player up, `x` moves the player down, and
    /// every other character asks for nothing.
    pub open spec fn of_char(key: char) -> Input {
        if key == 'q' {
            Input::Quit
        } else if key == 'z' {
            Input::Up
        } else if key == 'x' {
            Input::Down
        } else {
            Input::Other
        }
    }

    /// Reads a character as a request.
    pub fn from_char(key: char) -> (input: Input)
        ensures
            input == Self::of_char(key),
    {
        if key == 'q' {
            Input::Quit
        } else if key == 'z' {
            Input::Up
        } else if key == 'x' {
            Input::Down
        } else {
            Input::Other
        }
    }
}

/// Whether the game is still on. A game starts `Running` and becomes
/// `Terminated` when the player quits; nothing leads back.
#[derive(Clone, Copy, Debug, PartialEq, Eq, Structural)]
pub enum Phase {
    Running,
    Terminated,
}

/// The court and everything on it.
#[derive(Clone, Copy, Debug, PartialEq, Eq, Structural)]
pub struct Game {
    /// Rows of the court.
    pub height: u16,
    /// Columns of the court.
    pub width: u16,
    /// The divisor of the rival's tracking rule.
    pub difficulty: u16,
    pub player: Paddle,
    pub rival: Paddle,
    pub ball: Ball,
    pub phase: Phase,
}

impl Game {
    /// The lowest row that the top of a paddle, or the ball, may take.
    pub open spec fn floor(self) -> int {
        self.height - MARGIN
    }

    /// The state is one that a game can be in. There is a row above the
    /// margin; the columns are few enough that the one right of the last can
    /// still be counted, which drawing the ball needs; the divisor is not
    /// zero; and the ball and both paddles are inside: the ball between
    /// column 1 and the last column, all three between row 1 and the floor.
    pub open spec fn wf(self) -> bool {
        &&& MARGIN < self.height
        &&& 1 <= self.width < u16::MAX
        &&& 1 <= self.difficulty
        &&& 1 <= self.ball.x_coordinate <= self.width
        &&& 1 <= self.ball.y_coordinate <= self.floor()
        &&& self.player.within(self.floor())
        &&& self.rival.within(self.floor())
    }

    /// A terminal of this size, with this divisor, can hold a game: there is
    /// a row above the margin, the serve column exists, the column right of
    /// the last can still be counted, and the divisor is not zero.
    pub open spec fn playable(term_height: u16, term_width: u16, difficulty: u16) -> bool {
        &&& MARGIN < term_height
        &&& SERVE_COLUMN <= term_width < u16::MAX
        &&& 1 <= difficulty
    }

    /// The state in which every game starts: the player in its column, the
    /// rival in the last column, both on the top row, and the ball served
    /// from the top row straight away from the player.
    pub open spec fn opening(term_height: u16, term_width: u16, difficulty: u16) -> Game {
        Game {
            height: if term_height <= MAX_HEIGHT {
                term_height
            } else {
                MAX_HEIGHT
            },
            width: term_width,
            difficulty,
            player: Paddle { x_coordinate: PLAYER_COLUMN, y_coordinate: START_ROW },
            rival: Paddle { x_coordinate: term_width, y_coordinate: START_ROW },
            ball: Ball {
                x_coordinate: SERVE_COLUMN,
                y_coordinate: START_ROW,
                direction: BallDirection::FromPlayer,
                bounce: BallBounce::Forward,
            },
            phase: Phase::Running,
        }
    }

    /// The state after the clock has been looked at: once `TICK_MILLIS` have
    /// passed in a running game the ball moves one tick, kept between row 1
    /// and the floor; before that, and in a game that is over, nothing moves.
    pub open spec fn ticked(self, elapsed_millis: u64) -> Game {
        if self.phase == Phase::Running && elapsed_millis >= TICK_MILLIS {
            Game { ball: self.ball.moved(self.width, self.floor() as u16), ..self }
        } else {
            self
        }
    }

    /// What the two paddles may make of the ball between them: it stays
    /// where it is; it travels where the player sends it, else where the
    /// rival sends it, else where it was going; and unless one of them sends
    /// it off it keeps its bounce.
    pub open spec fn volleyed(self, after: Ball) -> bool {
        &&& after.x_coordinate == self.ball.x_coordinate
        &&& after.y_coordinate == self.ball.y_coordinate
        &&& after.direction == match self.ball.rebound(self.player) {
            Some(direction) => direction,
            None => match self.ball.rebound(self.rival) {
                Some(direction) => direction,
                None => self.ball.direction,
            },
        }
        &&& (self.ball.rebound(self.player) is None && self.ball.rebound(self.rival) is None)
            ==> after.bounce == self.ball.bounce
    }

    /// The state after a request: quitting ends the game, up and down move
    /// the player one row, stopping at row 1 and at the floor.
    pub open spec fn steered(self, input: Input) -> Game {
        match input {
            Input::Quit => Game { phase: Phase::Terminated, ..self },
            Input::Up => Game {
                player: Paddle {
                    y_coordinate: vstd::math::max(self.player.y_coordinate - 1, 1) as u16,
                    ..self.player
                },
                ..self
            },
            Input::Down => Game {
                player: Paddle {
                    y_coordinate: vstd::math::min(
                        self.player.y_coordinate + 1,
                        self.floor(),
                    ) as u16,
                    ..self.player
                },
                ..self
            },
            Input::Other => self,
        }
    }

    /// The state after the player's paddle has caught up with a ball that
    /// stands in its own column and shares a row with it: the paddle's top
    /// moves to the ball's row.
    pub open spec fn caught(self) -> Game {
        if self.player.touches(self.ball) && self.ball.x_coordinate
            == self.player.x_coordinate {
            Game {
                player: Paddle { y_coordinate: self.ball.y_coordinate, ..self.player },
                ..self
            }
        } else {
            self
        }
    }

    /// The rival lets the ball go: its row is a multiple of the divisor.
    pub open spec fn rival_misses(self) -> bool {
        self.rival.y_coordinate % self.difficulty == 0
    }

    /// The state after the rival's move: it stays put when it misses and
    /// jumps to the ball's row when it does not.
    pub open spec fn followed(self) -> Game {
        if self.rival_misses() {
            self
        } else {
            Game {
                rival: Paddle { y_coordinate: self.ball.y_coordinate, ..self.rival },
                ..self
            }
        }
    }

    /// The state after the paddles have answered a key, or the lack of one.
    /// A request to quit ends the game on the spot. Otherwise the request is
    /// carried out, then the player catches up with the ball, then the rival
    /// moves.
    pub open spec fn answered(self, input: Option<Input>) -> Game {
        match input {
            Some(Input::Quit) => self.steered(Input::Quit),
            Some(request) => self.steered(request).caught().followed(),
            None => self.caught().followed(),
        }
    }

    /// Sets up a game for a terminal of the given size. The court is as wide
    /// as the terminal and as tall, but never taller than `MAX_HEIGHT`.
    /// A terminal that cannot hold a game gives `None`.
    pub fn new(term_height: u16, term_width: u16, difficulty: u16) -> (made: Option<Game>)
        ensures
            made is Some <==> Self::playable(term_height, term_width, difficulty),
            made matches Some(game) ==> game == Self::opening(
                term_height,
                term_width,
                difficulty,
            ) && game.wf(),
    {
        if term_height <= MARGIN || term_width < SERVE_COLUMN || term_width == u16::MAX
            || difficulty == 0 {
            return None;
        }
        let height: u16 = if term_height <= MAX_HEIGHT {
            term_height
        } else {
            MAX_HEIGHT
        };
        Some(
            Game {
                height,
                width: term_width,
                difficulty,
                player: Paddle::new_player(START_ROW),
                rival: Paddle::new_rival(term_width, START_ROW),
                ball: Ball::new(SERVE_COLUMN, START_ROW),
                phase: Phase::Running,
            },
        )
    }

    /// Whether the state is one that the steps of the game accept.
    pub fn is_valid(&self) -> (valid: bool)
        ensures
            valid == self.wf(),
    {
        if self.height <= MARGIN || self.width == 0 || self.width == u16::MAX || self.difficulty
            == 0 {
            return false;
        }
        let floor: u16 = self.height - MARGIN;
        1 <= self.ball.x_coordinate && self.ball.x_coordinate <= self.width && 1
            <= self.ball.y_coordinate && self.ball.y_coordinate <= floor && 1
            <= self.player.y_coordinate && self.player.y_coordinate <= floor && 1
            <= self.rival.y_coordinate && self.rival.y_coordinate <= floor
    }

    /// Looks at the clock. When `TICK_MILLIS` or more have passed since the
    /// last move and the game is running, the ball moves one tick and the
    /// result is `true`: a frame is due and the clock starts again.
    pub fn tick(&mut self, elapsed_millis: u64) -> (due: bool)
        requires
            old(self).wf(),
        ensures
            *final(self) == old(self).ticked(elapsed_millis),
            due == (old(self).phase == Phase::Running && elapsed_millis >= TICK_MILLIS),
            final(self).wf(),
    {
        match self.phase {
            Phase::Terminated => false,
            Phase::Running => {
                if elapsed_millis >= TICK_MILLIS {
                    self.ball.move_towards(self.width, self.height - MARGIN);
                    true
                } else {
                    false
                }
            },
        }
    }

    /// Lets the rival and then the player strike the ball. Nothing is asked
    /// of the state, and a valid state stays valid.
    pub fn check_collisions(&mut self)
        ensures
            old(self).volleyed(final(self).ball),
            *final(self) == (Game { ball: final(self).ball, ..*old(self) }),
            old(self).wf() ==> final(self).wf(),
    {
        self.ball.check_collision(&self.rival);
        self.ball.check_collision(&self.player);
    }

    /// Carries out a request of the player.
    pub fn steer(&mut self, input: Input)
        requires
            old(self).wf(),
        ensures
            *final(self) == old(self).steered(input),
            final(self).wf(),
    {
        match input {
            Input::Quit => {
                self.phase = Phase::Terminated;
            },
            Input::Up => {
                if self.player.y_coordinate > 1 {
                    self.player.y_coordinate = self.player.y_coordinate - 1;
                } else {
                    self.player.y_coordinate = 1;
                }
            },
            Input::Down => {
                let floor: u16 = self.height - MARGIN;
                if self.player.y_coordinate < floor {
                    self.player.y_coordinate = self.player.y_coordinate + 1;
                } else {
                    self.player.y_coordinate = floor;
                }
            },
            Input::Other => {},
        }
    }

    /// Brings the player's paddle level with a ball that stands in the
    /// paddle's own column and shares a row with it. Between two frames the
    /// ball can pass through the paddle's column unseen; this makes up for it.
    /// Nothing is asked of the state, and a valid state stays valid.
    pub fn auto_catch(&mut self)
        ensures
            *final(self) == old(self).caught(),
            old(self).wf() ==> final(self).wf(),
    {
        if self.player.is_touching(&self.ball) && self.ball.x_coordinate
            == self.player.x_coordinate {
            let row: u16 = self.ball.y_coordinate;
            self.player.catch_ball(row);
        }
    }

    /// Moves the rival. On a row that is a multiple of the divisor it misses
    /// and stays where it is; on every other row it jumps to the ball's row.
    pub fn track_ball(&mut self)
        requires
            old(self).wf(),
        ensures
            *final(self) == old(self).followed(),
            old(self).rival_misses() ==> final(self).rival == old(self).rival,
            !old(self).rival_misses() ==> final(self).rival.y_coordinate
                == old(self).ball.y_coordinate,
            final(self).wf(),
    {
        if self.rival.y_coordinate % self.difficulty != 0 {
            let row: u16 = self.ball.y_coordinate;
            self.rival.catch_ball(row);
        }
    }

    /// Plays the rest of one round of the loop: the paddles strike the ball,
    /// the key is answered, the player catches up with the ball, and the
    /// rival moves. A request to quit ends the game before the last two. In a
    /// game that is over nothing happens. The result is the phase afterwards.
    pub fn play(&mut self, input: Option<Input>) -> (phase: Phase)
        requires
            old(self).wf(),
        ensures
            phase == final(self).phase,
            old(self).phase == Phase::Terminated ==> *final(self) == *old(self),
            old(self).phase == Phase::Running ==> {
                &&& old(self).volleyed(final(self).ball)
                &&& *final(self) == (Game { ball: final(self).ball, ..*old(self) }).answered(
                    input,
                )
            },
            (old(self).phase == Phase::Running && input != Some(Input::Quit)) ==> {
                &&& old(self).rival_misses() ==> final(self).rival == old(self).rival
                &&& !old(self).rival_misses() ==> final(self).rival.y_coordinate
                    == old(self).ball.y_coordinate
            },
            final(self).wf(),
    {
        match self.phase {
            Phase::Terminated => {},
            Phase::Running => {
                self.check_collisions();
                match input {
                    Some(Input::Quit) => {
                        self.steer(Input::Quit);
                    },
                    Some(request) => {
                        self.steer(request);
                        self.auto_catch();
                        self.track_ball();
                    },
                    None => {
                        self.auto_catch();
                        self.track_ball();
                    },
                }
            },
        }
        self.phase
    }
}

/// Every step of the game keeps the ball and both paddles on the court: a
/// valid state is still valid after the clock has been looked at, and after
/// the paddles have struck the ball and answered a key.
pub proof fn lemma_steps_stay_on_court(
    game: Game,
    elapsed_millis: u64,
    input: Option<Input>,
    ball: Ball,
)
    requires
        game.wf(),
        game.volleyed(ball),
    ensures
        game.ticked(elapsed_millis).wf(),
        (Game { ball, ..game }).answered(input).wf(),
{
}

/// A rival that stands on a row where it misses never leaves it: whatever
/// the clock and the keys bring, and wherever the ball goes, it is on the
/// same row afterwards, and so it misses again.
pub proof fn lemma_rival_rests_where_it_misses(
    game: Game,
    elapsed_millis: u64,
    input: Option<Input>,
    ball: Ball,
)
    requires
        game.rival_misses(),
    ensures
        game.ticked(elapsed_millis).rival == game.rival,
        game.ticked(elapsed_millis).rival_misses(),
        (Game { ball, ..game }).answered(input).rival == game.rival,
        (Game { ball, ..game }).answered(input).rival_misses(),
{
}

} // verus!
