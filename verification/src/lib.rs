//! The rules of a two-paddle ball game.
//!
//! The host owns everything that moves: positions, sizes and velocities
//! of both paddles and of the ball. Once per frame it measures how the
//! pieces stand to the field and to each other, asks the rules here what
//! happens, and carries that out on its own numbers. The rules own what
//! can be counted: the score and the flag that arms the ball for its
//! next bounce off a paddle.
//!
//! A frame runs in this order: the near paddle's control, the far
//! paddle's control, the ball against walls and goals, the ball against
//! the paddles, and last the move of all three by their velocities.

pub mod relation;
pub mod field;
pub mod rect;
pub mod paddle;
pub mod opponent;
pub mod ball;
pub mod rally;
