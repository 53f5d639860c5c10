//! A terminal table-tennis game, stated and proved.
//!
//! Two paddles, three cells tall, face each other across a character grid
//! while a ball travels between them. The crate holds the rules of the game:
//! the geometry of a hit, the motion of the ball, the rival's tracking rule,
//! the steps of the game loop and the text of a frame. Reading keys, keeping
//! time and writing to the terminal are left to the program that drives it.

pub mod ball;
pub mod game;
pub mod geometry;
pub mod motion;
pub mod paddle;
pub mod render;

pub use ball::{Ball, BallBounce, BallDirection};
pub use game::{Game, Input, Phase};
pub use geometry::Hitbox;
pub use paddle::Paddle;
