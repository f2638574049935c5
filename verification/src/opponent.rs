//! The scripted opponent that steers the far paddle.

use crate::field::EdgeSense;
use crate::paddle::{control_rule, handle_rackets, PaddleAction, Signals};
use crate::relation::Relation;
use vstd::prelude::*;

verus! {

/// How the ball stands to the far paddle.
#[derive(Clone, Copy, Debug, PartialEq, Eq, Structural)]
pub struct OpponentSense {
    /// The ball's vertical position against the far paddle's.
    pub ball_height: Relation,
    /// The distance from the ball to the far paddle against half the
    /// field's width, which is as far as the opponent reacts.
    pub distance: Relation,
}

/// The commands of the scripted opponent. It follows the ball only while
/// the ball is strictly nearer than half the field's width: down when the
/// ball is strictly lower than the paddle, up when it is strictly higher.
pub open spec fn opponent_rule(sense: OpponentSense) -> Signals {
    Signals {
        down: sense.ball_height.gt() && sense.distance.lt(),
        up: sense.ball_height.lt() && sense.distance.lt(),
    }
}

/// Derives the far paddle's commands from where the ball is.
pub fn opponent_signals(sense: OpponentSense) -> (signals: Signals)
    ensures
        signals == opponent_rule(sense),
        !(signals.down && signals.up),
{
    let reacts = sense.distance.is_lt();
    Signals { down: sense.ball_height.is_gt() && reacts, up: sense.ball_height.is_lt() && reacts }
}

/// Picks the far paddle's action for this frame: paddle control under the
/// scripted opponent's commands.
pub fn handle_enemy(edges: EdgeSense, ball: OpponentSense) -> (action: PaddleAction)
    ensures
        action == control_rule(edges, opponent_rule(ball)),
        !ball.distance.lt() ==> action !is PushDown && action !is PushUp,
{
    handle_rackets(edges, opponent_signals(ball))
}

} // verus!
