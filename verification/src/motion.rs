//! The ball's flight over many ticks: it never leaves the grid, and a
//! slanted ball changes row only once for every eight columns it crosses.

use crate::ball::{Ball, BallDirection, STAGGER};
use vstd::prelude::*;

verus! {

/// How many multiples of `STAGGER` lie among the columns `low..=high`.
pub open spec fn marks(low: int, high: int) -> int {
    high / (STAGGER as int) - (low - 1) / (STAGGER as int)
}

impl Ball {
    /// The ball after the given number of ticks with nothing in its way.
    pub open spec fn run(self, max_x: u16, max_y: u16, ticks: nat) -> Ball
        decreases ticks,
    {
        if ticks == 0 {
            self
        } else {
            self.moved(max_x, max_y).run(max_x, max_y, (ticks - 1) as nat)
        }
    }

    /// In how many of the next `ticks` ticks the ball changes row.
    pub open spec fn vertical_steps(self, max_x: u16, max_y: u16, ticks: nat) -> nat
        decreases ticks,
    {
        if ticks == 0 {
            0
        } else {
            let next = self.moved(max_x, max_y);
            let step: nat = if next.y_coordinate != self.y_coordinate {
                1
            } else {
                0
            };
            step + next.vertical_steps(max_x, max_y, (ticks - 1) as nat)
        }
    }

    /// Each of the next `ticks` ticks carries the ball one column further:
    /// neither edge of the grid holds it back.
    pub open spec fn open_road(self, max_x: u16, ticks: nat) -> bool {
        match self.direction {
            BallDirection::FromPlayer => self.x_coordinate + ticks <= max_x,
            BallDirection::ToPlayer => self.x_coordinate - ticks >= 1,
        }
    }

    /// The columns on which the ball stands at the start of each of the next
    /// `ticks` ticks of an open road hold this many multiples of `STAGGER`.
    pub open spec fn marks_ahead(self, ticks: nat) -> int {
        match self.direction {
            BallDirection::FromPlayer => marks(
                self.x_coordinate as int,
                self.x_coordinate + ticks - 1,
            ),
            BallDirection::ToPlayer => marks(
                self.x_coordinate - ticks + 1,
                self.x_coordinate as int,
            ),
        }
    }
}

/// A ball on the grid is still on it after any number of ticks, and it keeps
/// its direction and its bounce all the way.
pub proof fn lemma_run_stays_within(ball: Ball, max_x: u16, max_y: u16, ticks: nat)
    requires
        ball.within(max_x, max_y),
    ensures
        ball.run(max_x, max_y, ticks).within(max_x, max_y),
        ball.run(max_x, max_y, ticks).direction == ball.direction,
        ball.run(max_x, max_y, ticks).bounce == ball.bounce,
    decreases ticks,
{
    if ticks > 0 {
        lemma_run_stays_within(ball.moved(max_x, max_y), max_x, max_y, (ticks - 1) as nat);
    }
}

/// Any `8 * legs` columns in a row hold exactly `legs` multiples of eight.
pub proof fn lemma_marks_per_leg(low: int, legs: nat)
    ensures
        marks(low, low + (STAGGER as nat) * legs - 1) == legs,
    decreases legs,
{
    if legs > 0 {
        lemma_marks_per_leg(low, (legs - 1) as nat);
    }
}

/// On an open road the ball changes row at most once for every multiple of
/// eight among the columns it starts a tick on.
pub proof fn lemma_steps_within_marks(ball: Ball, max_x: u16, max_y: u16, ticks: nat)
    requires
        ball.open_road(max_x, ticks),
    ensures
        ball.vertical_steps(max_x, max_y, ticks) <= ball.marks_ahead(ticks),
    decreases ticks,
{
    if ticks > 0 {
        let next = ball.moved(max_x, max_y);
        lemma_steps_within_marks(next, max_x, max_y, (ticks - 1) as nat);
    }
}

/// A ball whose row is on the grid ends a flight at most as many rows from
/// where it began as it changed row on the way, and its row is still on the
/// grid.
pub proof fn lemma_rows_travelled(ball: Ball, max_x: u16, max_y: u16, ticks: nat)
    requires
        1 <= ball.y_coordinate <= max_y,
    ensures
        1 <= ball.run(max_x, max_y, ticks).y_coordinate <= max_y,
        ball.y_coordinate - ball.run(max_x, max_y, ticks).y_coordinate
            <= ball.vertical_steps(max_x, max_y, ticks),
        ball.run(max_x, max_y, ticks).y_coordinate - ball.y_coordinate
            <= ball.vertical_steps(max_x, max_y, ticks),
    decreases ticks,
{
    if ticks > 0 {
        lemma_rows_travelled(ball.moved(max_x, max_y), max_x, max_y, (ticks - 1) as nat);
    }
}

/// The cadence of a slanted ball: over `8 * legs` ticks that each carry the
/// ball one column further, its row changes at most `legs` times. In
/// particular a rising ball climbs at most once in eight such ticks.
pub proof fn lemma_cadence(ball: Ball, max_x: u16, max_y: u16, legs: nat)
    requires
        ball.open_road(max_x, (STAGGER as nat) * legs),
    ensures
        ball.vertical_steps(max_x, max_y, (STAGGER as nat) * legs) <= legs,
{
    lemma_steps_within_marks(ball, max_x, max_y, (STAGGER as nat) * legs);
    match ball.direction {
        BallDirection::FromPlayer => lemma_marks_per_leg(ball.x_coordinate as int, legs),
        BallDirection::ToPlayer => lemma_marks_per_leg(
            ball.x_coordinate - (STAGGER as nat) * legs + 1,
            legs,
        ),
    }
}

/// A ball whose row is on the grid ends `8 * legs` ticks that each carry it
/// one column further at most `legs` rows above or below where it began.
pub proof fn lemma_cadence_in_rows(ball: Ball, max_x: u16, max_y: u16, legs: nat)
    requires
        1 <= ball.y_coordinate <= max_y,
        ball.open_road(max_x, (STAGGER as nat) * legs),
    ensures
        ball.y_coordinate - ball.run(max_x, max_y, (STAGGER as nat) * legs).y_coordinate <= legs,
        ball.run(max_x, max_y, (STAGGER as nat) * legs).y_coordinate - ball.y_coordinate <= legs,
{
    lemma_cadence(ball, max_x, max_y, legs);
    lemma_rows_travelled(ball, max_x, max_y, (STAGGER as nat) * legs);
}

} // verus!
