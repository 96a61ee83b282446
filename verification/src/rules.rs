//! What an agent makes of one neighbour, and the bounds on its speed.
use crate::scalar::{encoded, lemma_is_whole, lemma_is_within_half_ulp, lemma_rank_orders_values, Scalar};
use crate::tally::Tally;
use vstd::arithmetic::power2::{lemma2_to64, lemma_pow2_pos, pow2};
use vstd::prelude::*;

verus! {

/// The encoding of 200: the squared distance beyond which a neighbour is
/// not perceived.
pub const PERCEPTION_RANGE: u32 = 0x4348_0000;

/// The encoding of 0.3: the least heading dot product of a neighbour that
/// is in view.
pub const FIELD_OF_VIEW: u32 = 0x3e99_999a;

/// The encoding of 40: the squared distance below which a neighbour may
/// crowd the agent.
pub const CLOSE_RANGE: u32 = 0x4220_0000;

/// The encoding of 0.7: the heading dot product above which a close
/// neighbour crowds the agent.
pub const TIGHT_CONE: u32 = 0x3f33_3333;

/// The encoding of 1: the least speed of an agent.
pub const MIN_SPEED: u32 = 0x3f80_0000;

/// The encoding of 3: the greatest speed of an agent.
pub const MAX_SPEED: u32 = 0x4040_0000;

/// The two properties of an agent that its neighbours vote on.
#[derive(Clone, Copy, Debug, PartialEq, Eq, Structural)]
pub struct Pose {
    /// Forward speed.
    pub speed: Scalar,
    /// Heading, in radians; it is not kept within a turn.
    pub rotation: Scalar,
}

/// Where a neighbour stands as seen from the agent.
#[derive(Clone, Copy, Debug, PartialEq, Eq, Structural)]
pub struct Sighting {
    /// The square of the distance between the two.
    pub dist: Scalar,
    /// The dot product of the agent's unit heading vector with the vector
    /// from the agent to the neighbour. It is not divided by the distance.
    pub dot: Scalar,
}

/// What a neighbour that crowds the agent does to the agent's heading, at
/// once and before the scan goes on.
#[derive(Clone, Copy, Debug, PartialEq, Eq, Structural)]
pub enum Nudge {
    /// The heading stays as it is.
    Hold,
    /// The heading grows by the push of the neighbour.
    Raise,
    /// The heading shrinks by the push of the neighbour.
    Lower,
}

/// Whether the agent perceives a neighbour: it is no further than the
/// perception range and not behind the field of view. Neither test turns a
/// NaN away.
pub open spec fn perceives_spec(sighting: Sighting) -> bool {
    &&& !sighting.dist.gt_spec(encoded(PERCEPTION_RANGE))
    &&& !sighting.dot.lt_spec(encoded(FIELD_OF_VIEW))
}

/// Whether a perceived neighbour is so near and so straight ahead that it
/// pushes the agent's heading away.
pub open spec fn crowds_spec(sighting: Sighting) -> bool {
    &&& sighting.dist.lt_spec(encoded(CLOSE_RANGE))
    &&& sighting.dot.gt_spec(encoded(TIGHT_CONE))
}

/// The vote of a neighbour on one property: 1 where the neighbour's is the
/// greater, -1 where it is the smaller, 0 where the two are equal or one
/// of them is a NaN.
pub open spec fn vote_spec(own: Scalar, other: Scalar) -> int {
    if own.gt_spec(other) {
        -1
    } else if own.lt_spec(other) {
        1
    } else {
        0
    }
}

/// The push of a neighbour on the agent's heading: none unless the
/// neighbour is perceived and crowds; then upwards where the agent's
/// heading is the greater of the two, downwards in every other case.
pub open spec fn nudge_spec(own: Pose, other: Pose, sighting: Sighting) -> Nudge {
    if perceives_spec(sighting) && crowds_spec(sighting) {
        if own.rotation.gt_spec(other.rotation) {
            Nudge::Raise
        } else {
            Nudge::Lower
        }
    } else {
        Nudge::Hold
    }
}

/// The two votes of a neighbour, on the agent's speed and on its heading:
/// both 0 unless the neighbour is perceived.
pub open spec fn votes_spec(own: Pose, other: Pose, sighting: Sighting) -> (int, int) {
    if perceives_spec(sighting) {
        (vote_spec(own.speed, other.speed), vote_spec(own.rotation, other.rotation))
    } else {
        (0, 0)
    }
}

/// The two balances of a tally after a neighbour's votes.
pub open spec fn tally_spec(tally: Tally, own: Pose, other: Pose, sighting: Sighting) -> (int, int) {
    (
        tally.speed + votes_spec(own, other, sighting).0,
        tally.turn + votes_spec(own, other, sighting).1,
    )
}

/// The speed that an agent may keep: the speed itself where it lies
/// between the least and the greatest, else the nearer of the two; the
/// least for a NaN.
pub open spec fn clamp_speed_spec(speed: Scalar) -> Scalar {
    if speed.is_nan_spec() || speed.lt_spec(encoded(MIN_SPEED)) {
        encoded(MIN_SPEED)
    } else if speed.gt_spec(encoded(MAX_SPEED)) {
        encoded(MAX_SPEED)
    } else {
        speed
    }
}

/// Whether a speed is a number from 1 to 3.
pub open spec fn is_kept_speed(speed: Scalar) -> bool {
    !speed.is_nan_spec() && pow2(149) <= speed.value() <= 3 * pow2(149)
}

/// Whether the agent perceives the neighbour.
pub fn perceives(sighting: Sighting) -> (r: bool)
    ensures
        r == perceives_spec(sighting),
{
    !sighting.dist.gt(Scalar::from_bits(PERCEPTION_RANGE))
        && !sighting.dot.lt(Scalar::from_bits(FIELD_OF_VIEW))
}

/// Whether a perceived neighbour crowds the agent.
pub fn crowds(sighting: Sighting) -> (r: bool)
    ensures
        r == crowds_spec(sighting),
{
    sighting.dist.lt(Scalar::from_bits(CLOSE_RANGE))
        && sighting.dot.gt(Scalar::from_bits(TIGHT_CONE))
}

/// The vote of a neighbour on one property of the agent.
pub fn vote(own: Scalar, other: Scalar) -> (v: i32)
    ensures
        v == vote_spec(own, other),
{
    if own.gt(other) {
        -1
    } else if own.lt(other) {
        1
    } else {
        0
    }
}

/// One step of an agent's scan: takes the tally so far, the agent as it is
/// now, a neighbour as it was when the tick began, and where that
/// neighbour stands; gives the tally with the neighbour's votes, and the
/// push on the agent's heading that the caller has to apply before the
/// next step.
pub fn observe(tally: Tally, own: Pose, other: Pose, sighting: Sighting) -> (r: (Tally, Nudge))
    requires
        tally.has_room(),
    ensures
        (r.0.speed as int, r.0.turn as int) == tally_spec(tally, own, other, sighting),
        r.1 == nudge_spec(own, other, sighting),
{
    if !perceives(sighting) {
        return (tally, Nudge::Hold);
    }
    let counted = tally.record(vote(own.speed, other.speed), vote(own.rotation, other.rotation));
    let nudge = if crowds(sighting) {
        if own.rotation.gt(other.rotation) {
            Nudge::Raise
        } else {
            Nudge::Lower
        }
    } else {
        Nudge::Hold
    };
    (counted, nudge)
}

/// The speed of an agent, brought back between the least and the greatest.
pub fn clamp_speed(speed: Scalar) -> (r: Scalar)
    ensures
        r == clamp_speed_spec(speed),
        is_kept_speed(r),
{
    proof {
        lemma_speed_is_bounded(speed);
    }
    let least = Scalar::from_bits(MIN_SPEED);
    let greatest = Scalar::from_bits(MAX_SPEED);
    if speed.is_nan() || speed.lt(least) {
        least
    } else if speed.gt(greatest) {
        greatest
    } else {
        speed
    }
}

/// The thresholds are the numbers that their names promise: 200, 40, 1
/// and 3 exactly, and the single-precision numbers next to 0.3 and 0.7.
pub proof fn lemma_threshold_values()
    ensures
        encoded(PERCEPTION_RANGE).is_whole(200),
        encoded(CLOSE_RANGE).is_whole(40),
        encoded(MIN_SPEED).is_whole(1),
        encoded(MAX_SPEED).is_whole(3),
        encoded(FIELD_OF_VIEW).is_within_half_ulp_of(3, 10),
        encoded(TIGHT_CONE).is_within_half_ulp_of(7, 10),
{
    lemma2_to64();
    lemma_is_whole(encoded(PERCEPTION_RANGE), 200, 16);
    lemma_is_whole(encoded(CLOSE_RANGE), 40, 18);
    lemma_is_whole(encoded(MIN_SPEED), 1, 23);
    lemma_is_whole(encoded(MAX_SPEED), 3, 22);
    lemma_is_within_half_ulp(encoded(FIELD_OF_VIEW), 3, 10, 25);
    lemma_is_within_half_ulp(encoded(TIGHT_CONE), 7, 10, 24);
}

/// Whatever the speed before, the speed that an agent may keep is a number
/// from 1 to 3.
pub proof fn lemma_speed_is_bounded(speed: Scalar)
    ensures
        is_kept_speed(clamp_speed_spec(speed)),
{
    lemma_threshold_values();
    lemma_rank_orders_values(encoded(MIN_SPEED), encoded(MAX_SPEED));
}

/// A neighbour whose dot product is a zero is not perceived, whatever its
/// distance: so it is with a neighbour at the very place of the agent.
pub proof fn lemma_zero_dot_is_unperceived(sighting: Sighting)
    requires
        !sighting.dot.is_nan_spec(),
        sighting.dot.value() == 0,
    ensures
        !perceives_spec(sighting),
{
    let view = encoded(FIELD_OF_VIEW);
    lemma_pow2_pos(view.binade());
    assert(0 < view.value()) by (nonlinear_arith)
        requires
            view.value() == view.significand() * pow2(view.binade()),
            0 < view.significand(),
            0 < pow2(view.binade()),
    ;
}

/// An agent makes nothing of itself. Where the neighbour is the agent
/// itself, the dot product is a zero, or a NaN where the heading has no
/// cosine; either way the agent casts no vote on itself and does not push
/// its own heading, whatever the distance is taken to be.
pub proof fn lemma_self_is_ignored(own: Pose, sighting: Sighting)
    requires
        sighting.dot.is_nan_spec() || sighting.dot.value() == 0,
    ensures
        votes_spec(own, own, sighting) == (0int, 0int),
        nudge_spec(own, own, sighting) == Nudge::Hold,
{
    if !sighting.dot.is_nan_spec() {
        lemma_zero_dot_is_unperceived(sighting);
    }
}

/// Two agents that crowd each other turn apart: the one whose heading is
/// the greater raises it, the other lowers its own.
pub proof fn lemma_crowding_agents_turn_apart(a: Pose, b: Pose, a_sees: Sighting, b_sees: Sighting)
    requires
        perceives_spec(a_sees) && crowds_spec(a_sees),
        perceives_spec(b_sees) && crowds_spec(b_sees),
        a.rotation.gt_spec(b.rotation),
    ensures
        nudge_spec(a, b, a_sees) == Nudge::Raise,
        nudge_spec(b, a, b_sees) == Nudge::Lower,
{
}

} // verus!
