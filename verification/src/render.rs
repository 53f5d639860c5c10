//! The text that puts the court on a terminal.
//!
//! A frame is a run of terminal control sequences: one that clears the
//! screen, then for every cell of a paddle or of the ball one that moves the
//! cursor there, followed by a block glyph. The control sequences come from
//! `termion`; this module puts them in order.

use crate::ball::Ball;
use crate::game::Game;
use crate::paddle::Paddle;
use vstd::prelude::*;
use vstd::string::*;

verus! {

/// The glyph that fills one cell of a paddle or of the ball.
pub const BLOCK: char = '\u{2588}';

/// The decimal digit for a number below ten.
pub open spec fn digit(value: nat) -> char {
    seq!['0', '1', '2', '3', '4', '5', '6', '7', '8', '9'][value as int]
}

/// A number written in decimal, without leading zeros.
pub open spec fn decimal(value: nat) -> Seq<char>
    decreases value,
{
    if value < 10 {
        seq![digit(value)]
    } else {
        decimal(value / 10).push(digit(value % 10))
    }
}

/// The control sequence that moves the cursor to column `x` of row `y`:
/// escape, `[`, the row, `;`, the column, `H`.
pub open spec fn goto_text(x: u16, y: u16) -> Seq<char> {
    seq!['\x1b', '['] + decimal(y as nat) + seq![';'] + decimal(x as nat) + seq!['H']
}

/// The control sequence that clears the whole screen.
pub open spec fn clear_text() -> Seq<char> {
    seq!['\x1b', '[', '2', 'J']
}

/// One filled cell: the cursor is moved there and a block is written.
pub open spec fn cell_text(x: u16, y: u16) -> Seq<char> {
    goto_text(x, y).push(BLOCK)
}

/// A paddle: the cell at its top and the two cells below, from the top down.
pub open spec fn paddle_text(paddle: Paddle) -> Seq<char> {
    cell_text(paddle.x_coordinate, paddle.y_coordinate) + cell_text(
        paddle.x_coordinate,
        (paddle.y_coordinate + 1) as u16,
    ) + cell_text(paddle.x_coordinate, (paddle.y_coordinate + 2) as u16)
}

/// The ball: two cells side by side on the row below its own, the left one
/// in the ball's column.
pub open spec fn ball_text(ball: Ball) -> Seq<char> {
    cell_text(ball.x_coordinate, (ball.y_coordinate + 1) as u16) + cell_text(
        (ball.x_coordinate + 1) as u16,
        (ball.y_coordinate + 1) as u16,
    )
}

/// A whole frame: the screen is cleared, then the player, the rival and the
/// ball are drawn, in that order.
pub open spec fn frame_text(game: Game) -> Seq<char> {
    clear_text() + paddle_text(game.player) + paddle_text(game.rival) + ball_text(game.ball)
}

/// The control sequence for moving the cursor.
///
/// Trusted. The body formats `termion::cursor::Goto(x, y)`, whose `Display`
/// writes escape, `[`, the second field, `;`, the first field and `H`, both
/// fields as decimal numbers. `termion` checks in debug builds that the two
/// fields are not both zero, so that pair is left out.
#[verifier::external_body]
fn cursor_to(x: u16, y: u16) -> (text: String)
    requires
        x != 0 || y != 0,
    ensures
        text@ == goto_text(x, y),
{
    format!("{}", termion::cursor::Goto(x, y))
}

/// The control sequence for clearing the screen.
///
/// Trusted. The body formats `termion::clear::All`, whose `Display` writes
/// escape, `[`, `2`, `J`.
#[verifier::external_body]
fn clear_screen() -> (text: String)
    ensures
        text@ == clear_text(),
{
    format!("{}", termion::clear::All)
}

/// Adds one filled cell to the text.
fn draw_cell(screen: &mut String, x: u16, y: u16)
    requires
        x != 0 || y != 0,
    ensures
        final(screen)@ == old(screen)@ + cell_text(x, y),
{
    let place = cursor_to(x, y);
    screen.append(place.as_str());
    proof {
        reveal_strlit("\u{2588}");
    }
    screen.append("\u{2588}");
    assert(screen@ =~= old(screen)@ + cell_text(x, y));
}

/// Adds a paddle to the text. The paddle must not sit at column 0 of row 0,
/// which no terminal has, and its three rows must be rows that a terminal
/// can count.
pub fn draw_paddle(screen: &mut String, paddle: &Paddle)
    requires
        paddle.x_coordinate != 0 || paddle.y_coordinate != 0,
        paddle.y_coordinate + 2 <= u16::MAX,
    ensures
        final(screen)@ == old(screen)@ + paddle_text(*paddle),
{
    draw_cell(screen, paddle.x_coordinate, paddle.y_coordinate);
    draw_cell(screen, paddle.x_coordinate, paddle.y_coordinate + 1);
    draw_cell(screen, paddle.x_coordinate, paddle.y_coordinate + 2);
    assert(screen@ =~= old(screen)@ + paddle_text(*paddle));
}

/// Adds the ball to the text. The column right of the ball and the row below
/// it must be ones that a terminal can count.
pub fn draw_ball(screen: &mut String, ball: &Ball)
    requires
        ball.x_coordinate + 1 <= u16::MAX,
        ball.y_coordinate + 1 <= u16::MAX,
    ensures
        final(screen)@ == old(screen)@ + ball_text(*ball),
{
    draw_cell(screen, ball.x_coordinate, ball.y_coordinate + 1);
    draw_cell(screen, ball.x_coordinate + 1, ball.y_coordinate + 1);
    assert(screen@ =~= old(screen)@ + ball_text(*ball));
}

/// The text of one frame of the game.
pub fn frame(game: &Game) -> (text: String)
    requires
        game.wf(),
    ensures
        text@ == frame_text(*game),
{
    let mut text = clear_screen();
    draw_paddle(&mut text, &game.player);
    draw_paddle(&mut text, &game.rival);
    draw_ball(&mut text, &game.ball);
    assert(text@ =~= frame_text(*game));
    text
}

} // verus!
