//! The arming flag over a run of frames.

use crate::ball::{arming_rule, bounce_rule, ContactSense};
use vstd::prelude::*;

verus! {

/// The arming flag after a run of frames, given the flag before the run
/// and what was sensed of the ball in each frame.
pub open spec fn armed_after(armed: bool, frames: Seq<ContactSense>) -> bool
    decreases frames.len(),
{
    if frames.len() == 0 {
        armed
    } else {
        arming_rule(armed_after(armed, frames.drop_last()), frames.last())
    }
}

/// Whether the ball bounces off a paddle in frame `at` of the run.
pub open spec fn bounces_at(armed: bool, frames: Seq<ContactSense>, at: int) -> bool
    recommends
        0 <= at < frames.len(),
{
    bounce_rule(armed_after(armed, frames.take(at)), frames[at])
}

/// Whether the ball comes strictly nearer than one unit to the line in
/// some frame of the run from `from` up to, but without, `to`.
pub open spec fn reaches_line(frames: Seq<ContactSense>, from: int, to: int) -> bool {
    exists|k: int| from <= k < to && (#[trigger] frames[k]).line.lt()
}

/// Running two stretches of frames one after the other is running their
/// concatenation.
pub proof fn lemma_armed_after_concat(
    armed: bool,
    head: Seq<ContactSense>,
    tail: Seq<ContactSense>,
)
    ensures
        armed_after(armed, head + tail) == armed_after(armed_after(armed, head), tail),
    decreases tail.len(),
{
    if tail.len() == 0 {
        assert(head + tail =~= head);
    } else {
        lemma_armed_after_concat(armed, head, tail.drop_last());
        assert((head + tail).drop_last() =~= head + tail.drop_last());
    }
}

/// A disarmed ball stays disarmed, and bounces off no paddle, for as long
/// as it does not come within one unit of the line.
pub proof fn lemma_disarmed_until_line(frames: Seq<ContactSense>)
    requires
        !reaches_line(frames, 0, frames.len() as int),
    ensures
        !armed_after(false, frames),
        forall|at: int| 0 <= at < frames.len() ==> !bounces_at(false, frames, at),
    decreases frames.len(),
{
    if frames.len() > 0 {
        let earlier = frames.drop_last();
        assert forall|k: int| 0 <= k < earlier.len() implies !(#[trigger] earlier[k]).line.lt() by {
            assert(earlier[k] == frames[k]);
        }
        lemma_disarmed_until_line(earlier);
        assert(!frames.last().line.lt()) by {
            assert(frames.last() == frames[frames.len() - 1]);
        }
        assert forall|at: int| 0 <= at < frames.len() implies !bounces_at(false, frames, at) by {
            if at < earlier.len() {
                assert(frames.take(at) =~= earlier.take(at));
                assert(!bounces_at(false, earlier, at));
            } else {
                assert(frames.take(at) =~= earlier);
            }
        }
    }
}

/// Between two bounces off a paddle the ball comes within one unit of the
/// line: in the frame of the first bounce or in a later one before the
/// second. So each time the ball is armed it is turned back at most once.
pub proof fn lemma_line_between_bounces(
    armed: bool,
    frames: Seq<ContactSense>,
    first: int,
    second: int,
)
    requires
        0 <= first < second < frames.len(),
        bounces_at(armed, frames, first),
        bounces_at(armed, frames, second),
    ensures
        reaches_line(frames, first, second),
{
    if !reaches_line(frames, first, second) {
        let head = frames.take(first + 1);
        let between = frames.subrange(first + 1, second);
        assert(head.drop_last() =~= frames.take(first));
        assert(!armed_after(armed, head)) by {
            assert(head.last() == frames[first]);
        }
        assert forall|k: int| 0 <= k < between.len() implies !(#[trigger] between[k]).line.lt() by {
            assert(between[k] == frames[first + 1 + k]);
        }
        lemma_disarmed_until_line(between);
        lemma_armed_after_concat(armed, head, between);
        assert(head + between =~= frames.take(second));
    }
}

} // verus!
