//! The ball: where it is, where it is heading, and how it moves.

use crate::geometry::Hitbox;
use crate::paddle::Paddle;
use vstd::prelude::*;

verus! {

/// The ball takes a vertical step only when it stands on a column that is a
/// multiple of this number, so a slanted ball climbs or falls one row for
/// every eight columns it crosses.
pub const STAGGER: u16 = 8;

/// The highest face of the die that picks a bounce. The die has the faces
/// 0 to 3, all equally likely: 0 sends the ball up, 1 sends it down, 2 and 3
/// send it straight on. Up and down each come a quarter of the time, straight
/// on half of the time.
pub const DIE_TOP: u8 = 3;

/// The horizontal sense of travel, named from the player's side of the court.
#[derive(Clone, Copy, Debug, PartialEq, Eq, Structural)]
pub enum BallDirection {
    ToPlayer,
    FromPlayer,
}

/// What the ball does vertically on its current leg.
#[derive(Clone, Copy, Debug, PartialEq, Eq, Structural)]
pub enum BallBounce {
    Up,
    Down,
    Forward,
}

impl BallBounce {
    /// The bounce that a face of the die stands for.
    pub open spec fn of_roll(roll: u8) -> BallBounce {
        if roll == 0 {
            BallBounce::Up
        } else if roll == 1 {
            BallBounce::Down
        } else {
            BallBounce::Forward
        }
    }

    /// Turns a face of the die into a bounce.
    pub fn from_roll(roll: u8) -> (bounce: BallBounce)
        ensures
            bounce == Self::of_roll(roll),
    {
        match roll {
            0 => BallBounce::Up,
            1 => BallBounce::Down,
            _ => BallBounce::Forward,
        }
    }
}

/// The ball. Both coordinates are counted from 1.
#[derive(Clone, Copy, Debug, PartialEq, Eq, Structural)]
pub struct Ball {
    pub x_coordinate: u16,
    pub y_coordinate: u16,
    pub direction: BallDirection,
    pub bounce: BallBounce,
}

/// Rolls a die with the faces `0..=top`.
///
/// Trusted. The body asks `rand`'s thread-local generator for a number with
/// `Rng::gen_range(0..=top)`. The contract claims only that the number lies
/// in that range, which is never empty; nothing is claimed about which face
/// comes up, and two rolls need not agree. The generator is seeded from the
/// operating system the first time a thread uses it, and `rand` gives up
/// with a panic if the system has no randomness to offer.
#[verifier::external_body]
fn roll_die(top: u8) -> (face: u8)
    ensures
        face <= top,
{
    rand::Rng::gen_range(&mut rand::thread_rng(), 0..=top)
}

impl Ball {
    /// The rows the ball covers: its own and the one above.
    pub open spec fn hitbox(self) -> Hitbox {
        Hitbox { top: (self.y_coordinate - 1) as i32, bottom: self.y_coordinate as i32 }
    }

    /// The ball lies on the grid of `max_x` columns and `max_y` rows.
    pub open spec fn within(self, max_x: u16, max_y: u16) -> bool {
        &&& 1 <= self.x_coordinate <= max_x
        &&& 1 <= self.y_coordinate <= max_y
    }

    /// The row to take when a vertical step to `y_coordinate` is due: the
    /// step is taken on a column that is a multiple of `STAGGER` and put off
    /// on every other column.
    pub open spec fn graduated(self, y_coordinate: u16) -> u16 {
        if self.x_coordinate % STAGGER == 0 {
            y_coordinate
        } else {
            self.y_coordinate
        }
    }

    /// The ball one tick later. The row is settled first, from the column the
    /// ball stands on before it moves: one up but never past row 1, one down
    /// but never past row `max_y`, or unchanged. Then the column moves one
    /// step in the direction of travel and stops at column 1 and at `max_x`.
    pub open spec fn moved(self, max_x: u16, max_y: u16) -> Ball {
        Ball {
            x_coordinate: match self.direction {
                BallDirection::FromPlayer => vstd::math::min(
                    self.x_coordinate + 1,
                    max_x as int,
                ) as u16,
                BallDirection::ToPlayer => vstd::math::max(self.x_coordinate - 1, 1) as u16,
            },
            y_coordinate: match self.bounce {
                BallBounce::Up => self.graduated(
                    vstd::math::max(self.y_coordinate - 1, 1) as u16,
                ),
                BallBounce::Down => self.graduated(
                    vstd::math::min(self.y_coordinate + 1, max_y as int) as u16,
                ),
                BallBounce::Forward => self.y_coordinate,
            },
            direction: self.direction,
            bounce: self.bounce,
        }
    }

    /// The direction a paddle sends the ball in, if it sends it anywhere.
    /// The ball must share a row with the paddle. Standing in the column just
    /// right of the paddle it is sent away from the player; standing two
    /// columns left of the paddle it is sent towards the player.
    pub open spec fn rebound(self, paddle: Paddle) -> Option<BallDirection> {
        if !paddle.touches(self) {
            None
        } else if self.x_coordinate == paddle.x_coordinate + 1 {
            Some(BallDirection::FromPlayer)
        } else if self.x_coordinate == paddle.x_coordinate - 2 {
            Some(BallDirection::ToPlayer)
        } else {
            None
        }
    }

    /// What a meeting with a paddle may turn `self` into. The ball stays
    /// where it is. If the paddle sends it off, it travels in that direction
    /// with any of the three bounces; if not, nothing about it changes.
    pub open spec fn collided(self, paddle: Paddle, after: Ball) -> bool {
        &&& after.x_coordinate == self.x_coordinate
        &&& after.y_coordinate == self.y_coordinate
        &&& match self.rebound(paddle) {
            Some(direction) => after.direction == direction,
            None => after == self,
        }
    }

    /// A ball at the given place, travelling straight away from the player.
    pub fn new(x_coordinate: u16, y_coordinate: u16) -> (ball: Ball)
        ensures
            ball == (Ball {
                x_coordinate,
                y_coordinate,
                direction: BallDirection::FromPlayer,
                bounce: BallBounce::Forward,
            }),
    {
        Ball {
            x_coordinate,
            y_coordinate,
            direction: BallDirection::FromPlayer,
            bounce: BallBounce::Forward,
        }
    }

    /// Picks a bounce by a roll of the die. Which bounce comes out is left to
    /// chance; `BallBounce::from_roll` says what each face gives.
    fn _bounce(&self) -> (bounce: BallBounce)
        ensures
            exists|face: u8| face <= DIE_TOP && bounce == #[trigger] BallBounce::of_roll(face),
    {
        BallBounce::from_roll(roll_die(DIE_TOP))
    }

    /// Lets a paddle strike the ball. Where the paddle sends the ball off,
    /// the direction is set and a fresh bounce is rolled; otherwise the ball
    /// is left alone.
    pub fn check_collision(&mut self, paddle: &Paddle)
        ensures
            old(self).collided(*paddle, *final(self)),
            paddle.touches(*old(self)) && old(self).x_coordinate == paddle.x_coordinate + 1
                ==> final(self).direction == BallDirection::FromPlayer,
            paddle.touches(*old(self)) && old(self).x_coordinate == paddle.x_coordinate - 2
                ==> final(self).direction == BallDirection::ToPlayer,
    {
        if paddle.is_touching(self) {
            let column: u32 = self.x_coordinate as u32;
            let bar: u32 = paddle.x_coordinate as u32;
            if column == bar + 1 {
                self.direction = BallDirection::FromPlayer;
                self.bounce = self._bounce();
            } else if column + 2 == bar {
                self.direction = BallDirection::ToPlayer;
                self.bounce = self._bounce();
            }
        }
    }

    /// Takes the vertical step to `y_coordinate` if the ball stands on a
    /// column that is a multiple of `STAGGER`, and keeps the present row if
    /// it does not.
    pub fn _graduate_bounce(&self, y_coordinate: u16) -> (row: u16)
        ensures
            row == self.graduated(y_coordinate),
    {
        if self.x_coordinate % STAGGER == 0 {
            y_coordinate
        } else {
            self.y_coordinate
        }
    }

    /// Moves the ball by one tick on a grid of `max_x` columns and `max_y`
    /// rows. A ball on the grid stays on it.
    pub fn move_towards(&mut self, max_x: u16, max_y: u16)
        ensures
            *final(self) == old(self).moved(max_x, max_y),
            old(self).within(max_x, max_y) ==> final(self).within(max_x, max_y),
    {
        self.y_coordinate = match self.bounce {
            BallBounce::Up => {
                let above: u16 = if self.y_coordinate > 1 {
                    self.y_coordinate - 1
                } else {
                    1
                };
                self._graduate_bounce(above)
            },
            BallBounce::Down => {
                let below: u16 = if self.y_coordinate < max_y {
                    self.y_coordinate + 1
                } else {
                    max_y
                };
                self._graduate_bounce(below)
            },
            BallBounce::Forward => self.y_coordinate,
        };
        self.x_coordinate = match self.direction {
            BallDirection::FromPlayer => if self.x_coordinate < max_x {
                self.x_coordinate + 1
            } else {
                max_x
            },
            BallDirection::ToPlayer => if self.x_coordinate > 1 {
                self.x_coordinate - 1
            } else {
                1
            },
        };
    }

    /// The rows the ball covers.
    pub fn get_hitbox(&self) -> (rows: Hitbox)
        ensures
            rows == self.hitbox(),
            rows@ == Set::new(
                |row: int| self.y_coordinate - 1 <= row <= self.y_coordinate,
            ),
    {
        let bottom: i32 = self.y_coordinate as i32;
        Hitbox { top: bottom - 1, bottom }
    }
}

} // verus!
