//! The paddles: a bar three cells tall that slides along one column.

use crate::ball::Ball;
use crate::geometry::Hitbox;
use vstd::prelude::*;

verus! {

/// The column of the player's paddle, counted from the left edge.
pub const PLAYER_COLUMN: u16 = 4;

/// A paddle. `y_coordinate` is the row of its topmost cell; the bar covers
/// that row and the two below it. `x_coordinate` is fixed when the paddle is
/// made and never changes afterwards.
#[derive(Clone, Copy, Debug, PartialEq, Eq, Structural)]
pub struct Paddle {
    pub x_coordinate: u16,
    pub y_coordinate: u16,
}

impl Paddle {
    /// The three rows of the bar.
    pub open spec fn hitbox(self) -> Hitbox {
        Hitbox { top: self.y_coordinate as i32, bottom: (self.y_coordinate + 2) as i32 }
    }

    /// The paddle and the ball have a row in common.
    pub open spec fn touches(self, ball: Ball) -> bool {
        self.hitbox().meets(ball.hitbox())
    }

    /// The paddle's topmost row lies between row 1 and `floor`.
    pub open spec fn within(self, floor: int) -> bool {
        1 <= self.y_coordinate <= floor
    }

    /// The player's paddle, in its fixed column near the left edge.
    pub fn new_player(y_coordinate: u16) -> (paddle: Paddle)
        ensures
            paddle == (Paddle { x_coordinate: PLAYER_COLUMN, y_coordinate }),
    {
        Paddle { x_coordinate: PLAYER_COLUMN, y_coordinate }
    }

    /// The rival's paddle, in the column the caller gives.
    pub fn new_rival(x_coordinate: u16, y_coordinate: u16) -> (paddle: Paddle)
        ensures
            paddle == (Paddle { x_coordinate, y_coordinate }),
    {
        Paddle { x_coordinate, y_coordinate }
    }

    /// The rows the bar covers.
    pub fn get_hitbox(&self) -> (rows: Hitbox)
        ensures
            rows == self.hitbox(),
            rows@ == Set::new(
                |row: int| self.y_coordinate <= row <= self.y_coordinate + 2,
            ),
    {
        let top: i32 = self.y_coordinate as i32;
        Hitbox { top, bottom: top + 2 }
    }

    /// Moves the paddle so that its topmost cell is on the given row.
    pub fn catch_ball(&mut self, y_coordinate: u16)
        ensures
            final(self).y_coordinate == y_coordinate,
            final(self).x_coordinate == old(self).x_coordinate,
    {
        self.y_coordinate = y_coordinate;
    }

    /// Whether the paddle and the ball share a row. The ball covers its own
    /// row and the one above, so this holds exactly when the ball's row is
    /// one of the paddle's three or the one just below them.
    pub fn is_touching(&self, ball: &Ball) -> (hit: bool)
        ensures
            hit == self.touches(*ball),
            hit == !self.hitbox()@.disjoint(ball.hitbox()@),
            hit == (self.y_coordinate <= ball.y_coordinate <= self.y_coordinate + 3),
    {
        self.get_hitbox().overlaps(&ball.get_hitbox())
    }
}

/// A paddle touches a ball exactly when the rows of the two are not
/// disjoint, and that is when the ball's row is at or below the paddle's top
/// and at most three rows lower.
pub proof fn lemma_touching_rows(paddle: Paddle, ball: Ball)
    ensures
        paddle.touches(ball) == !paddle.hitbox()@.disjoint(ball.hitbox()@),
        paddle.touches(ball) == (paddle.y_coordinate <= ball.y_coordinate
            <= paddle.y_coordinate + 3),
{
    crate::geometry::lemma_meets_is_shared_row(paddle.hitbox(), ball.hitbox());
}

} // verus!
