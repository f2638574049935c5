//! Paddle control: what a paddle does in one frame.

use crate::field::{hit_wall, wall_rule, EdgeSense, Wall};
use vstd::prelude::*;

verus! {

/// The pair of directional commands that steers a paddle.
#[derive(Clone, Copy, Debug, PartialEq, Eq, Structural)]
pub struct Signals {
    pub down: bool,
    pub up: bool,
}

/// What a paddle does in one frame.
#[derive(Clone, Copy, Debug, PartialEq, Eq, Structural)]
pub enum PaddleAction {
    /// Turned back at the top wall: the velocity is inverted and halved,
    /// and the paddle is set two units below the top of the field.
    ReboundTop,
    /// Turned back at the bottom wall: the velocity is inverted and halved,
    /// and the paddle is set so that its lower edge is one unit inside the
    /// field.
    ReboundBottom,
    /// Two units are added to the vertical velocity and the smoothing
    /// accumulator starts again from zero. The velocity is then drawn
    /// toward rest by the accumulator, which at zero leaves it as it is.
    PushDown,
    /// Two units are taken from the vertical velocity and the smoothing
    /// accumulator starts again from zero. The velocity is then drawn
    /// toward rest by the accumulator, which at zero leaves it as it is.
    PushUp,
    /// No command: the smoothing accumulator grows by a twentieth of the
    /// frame's duration, and the velocity is drawn toward rest by the
    /// accumulator as the interpolation factor.
    Coast,
}

/// The action that paddle control picks. A wall comes before any command:
/// a paddle that is turned back neither speeds up nor coasts in that
/// frame. Of two commands given at once, "down" counts.
pub open spec fn control_rule(sense: EdgeSense, signals: Signals) -> PaddleAction {
    match wall_rule(sense) {
        Some(Wall::Top) => PaddleAction::ReboundTop,
        Some(Wall::Bottom) => PaddleAction::ReboundBottom,
        None => if signals.down {
            PaddleAction::PushDown
        } else if signals.up {
            PaddleAction::PushUp
        } else {
            PaddleAction::Coast
        },
    }
}

/// Picks a paddle's action for this frame from where it stands and from
/// the commands it is given.
pub fn handle_rackets(sense: EdgeSense, signals: Signals) -> (action: PaddleAction)
    ensures
        action == control_rule(sense, signals),
{
    match hit_wall(sense) {
        Some(Wall::Top) => PaddleAction::ReboundTop,
        Some(Wall::Bottom) => PaddleAction::ReboundBottom,
        None => {
            if signals.down {
                PaddleAction::PushDown
            } else if signals.up {
                PaddleAction::PushUp
            } else {
                PaddleAction::Coast
            }
        },
    }
}

/// A paddle at a wall is turned back whatever it is told to do.
pub proof fn lemma_wall_comes_first(sense: EdgeSense, told: Signals, other: Signals)
    requires
        wall_rule(sense) is Some,
    ensures
        control_rule(sense, told) == control_rule(sense, other),
        control_rule(sense, told) is ReboundTop || control_rule(sense, told) is ReboundBottom,
{
}

/// A paddle inside the field coasts exactly when it is given no command,
/// and is pushed exactly when it is given one.
pub proof fn lemma_commands_inside(sense: EdgeSense, signals: Signals)
    requires
        wall_rule(sense) is None,
    ensures
        control_rule(sense, signals) is Coast <==> !signals.down && !signals.up,
        control_rule(sense, signals) is PushDown <==> signals.down,
        control_rule(sense, signals) is PushUp <==> signals.up && !signals.down,
{
}

} // verus!
