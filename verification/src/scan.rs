//! What the votes of a whole scan add up to.
//!
//! A scan meets the neighbours one after the other. As long as none of
//! them pushes the agent's heading, the agent is the same for each of
//! them, and the tally at the end is the sum of their votes: it does not
//! depend on the order in which the flock keeps its agents.
use crate::flock::Boid;
use crate::rules::{nudge_spec, votes_spec, Nudge, Pose, Sighting};
use crate::tick::{Reply, Stage, TickState};
use vstd::prelude::*;
use vstd::seq_lib::{to_multiset_contains, to_multiset_len, to_multiset_remove};

verus! {

/// The two balances at the end of a scan that began with an empty tally,
/// by an agent that stayed as it was, of the neighbours given with where
/// each of them stood.
pub open spec fn scan_spec(own: Pose, met: Seq<(Pose, Sighting)>) -> (int, int)
    decreases met.len(),
{
    if met.len() == 0 {
        (0, 0)
    } else {
        let before = scan_spec(own, met.drop_last());
        let votes = votes_spec(own, met.last().0, met.last().1);
        (before.0 + votes.0, before.1 + votes.1)
    }
}

/// Neither balance of a scan is further from 0 than the scan has met
/// neighbours: a tally that began empty has room for the votes of every
/// flock that a machine can hold.
pub proof fn lemma_scan_is_bounded(own: Pose, met: Seq<(Pose, Sighting)>)
    ensures
        -met.len() <= scan_spec(own, met).0 <= met.len(),
        -met.len() <= scan_spec(own, met).1 <= met.len(),
    decreases met.len(),
{
    if met.len() > 0 {
        lemma_scan_is_bounded(own, met.drop_last());
    }
}

/// Taking one neighbour out of a scan takes its votes out of the balances.
proof fn lemma_scan_without(own: Pose, met: Seq<(Pose, Sighting)>, k: int)
    requires
        0 <= k < met.len(),
    ensures
        scan_spec(own, met).0 == scan_spec(own, met.remove(k)).0 + votes_spec(own, met[k].0, met[k].1).0,
        scan_spec(own, met).1 == scan_spec(own, met.remove(k)).1 + votes_spec(own, met[k].0, met[k].1).1,
    decreases met.len(),
{
    if k == met.len() - 1 {
        assert(met.remove(k) =~= met.drop_last());
    } else {
        lemma_scan_without(own, met.drop_last(), k);
        assert(met.remove(k).drop_last() =~= met.drop_last().remove(k));
        assert(met.remove(k).last() == met.last());
    }
}

/// The order in which a scan meets the neighbours does not matter to its
/// balances: two scans by the same agent that meet the same neighbours,
/// each as often in the one as in the other, end with the same balances.
pub proof fn lemma_scan_order_is_immaterial(
    own: Pose,
    met: Seq<(Pose, Sighting)>,
    shuffled: Seq<(Pose, Sighting)>,
)
    requires
        met.to_multiset() == shuffled.to_multiset(),
    ensures
        scan_spec(own, met) == scan_spec(own, shuffled),
    decreases met.len(),
{
    to_multiset_len(met);
    to_multiset_len(shuffled);
    if met.len() > 0 {
        let last = met.last();
        to_multiset_contains(met, last);
        to_multiset_contains(shuffled, last);
        assert(met[met.len() - 1] == last);
        let k = choose|k: int| 0 <= k < shuffled.len() && shuffled[k] == last;
        to_multiset_remove(met, met.len() - 1);
        to_multiset_remove(shuffled, k);
        assert(met.remove(met.len() - 1) =~= met.drop_last());
        lemma_scan_order_is_immaterial(own, met.drop_last(), shuffled.remove(k));
        lemma_scan_without(own, shuffled, k);
    }
}

/// The agents of a flock as a scan meets them: in the order of the flock,
/// each with where it stands.
pub open spec fn meetings(flock: Seq<Boid>, sightings: Seq<Sighting>) -> Seq<(Pose, Sighting)> {
    Seq::new(sightings.len(), |j: int| (flock[j].pose_spec(), sightings[j]))
}

/// Whether none of the neighbours that a scan meets pushes the agent.
pub open spec fn is_unpushed(own: Pose, met: Seq<(Pose, Sighting)>) -> bool {
    forall|j: int| 0 <= j < met.len() ==> nudge_spec(own, (#[trigger] met[j]).0, met[j].1) == Nudge::Hold
}

/// The tick after a run of measurements, to which its caller has replied
/// with the sightings given, in their order.
pub open spec fn after_sightings(tick: TickState, sightings: Seq<Sighting>) -> TickState
    decreases sightings.len(),
{
    if sightings.len() == 0 {
        tick
    } else {
        after_sightings(tick, sightings.drop_last()).answer(Reply::Sighting(sightings.last()))
    }
}

/// Whether a tick is about to measure an agent against its first
/// neighbour.
pub open spec fn begins_scan(tick: TickState) -> bool {
    &&& tick.wf()
    &&& !tick.is_done()
    &&& tick.stage == Stage::Scan
    &&& tick.met == 0
    &&& tick.speed_votes == 0
    &&& tick.turn_votes == 0
}

/// A tick counts what a scan adds up to. From the first measurement of an
/// agent on, and as long as no neighbour pushes the agent, the tick leaves
/// the agent as it is and holds the balances of the scan of the neighbours
/// met so far; after the last of them it goes on to the agent's speed.
pub proof fn lemma_tick_counts_the_scan(tick: TickState, sightings: Seq<Sighting>)
    requires
        begins_scan(tick),
        sightings.len() <= tick.before.len(),
        is_unpushed(tick.own.pose_spec(), meetings(tick.before, sightings)),
    ensures
        after_sightings(tick, sightings) == (TickState {
            speed_votes: scan_spec(tick.own.pose_spec(), meetings(tick.before, sightings)).0,
            turn_votes: scan_spec(tick.own.pose_spec(), meetings(tick.before, sightings)).1,
            met: sightings.len(),
            stage: if sightings.len() >= tick.before.len() {
                Stage::Accelerate
            } else {
                Stage::Scan
            },
            ..tick
        }),
    decreases sightings.len(),
{
    if sightings.len() > 0 {
        let own = tick.own.pose_spec();
        let met = meetings(tick.before, sightings);
        let earlier = meetings(tick.before, sightings.drop_last());
        assert(met.drop_last() =~= earlier);
        assert forall|j: int| 0 <= j < earlier.len() implies nudge_spec(
            own,
            (#[trigger] earlier[j]).0,
            earlier[j].1,
        ) == Nudge::Hold by {
            assert(met[j] == earlier[j]);
        }
        lemma_tick_counts_the_scan(tick, sightings.drop_last());
        assert(met.last() == met[sightings.len() - 1]);
    }
}

/// The order in which a flock keeps its agents does not matter to the
/// steps that an agent is asked for, as long as no neighbour pushes it.
/// Let two ticks each begin the scan of an agent, the two agents alike
/// in speed and heading, and let the two scans meet the same neighbours in
/// the same places, in whatever order: both ticks then ask for the same
/// step of speed and hold the same balance for the step of turn.
pub proof fn lemma_storage_order_is_immaterial(
    tick: TickState,
    sightings: Seq<Sighting>,
    twin: TickState,
    twin_sightings: Seq<Sighting>,
)
    requires
        begins_scan(tick),
        begins_scan(twin),
        tick.own.pose_spec() == twin.own.pose_spec(),
        sightings.len() == tick.before.len(),
        twin_sightings.len() == twin.before.len(),
        is_unpushed(tick.own.pose_spec(), meetings(tick.before, sightings)),
        is_unpushed(twin.own.pose_spec(), meetings(twin.before, twin_sightings)),
        meetings(tick.before, sightings).to_multiset() == meetings(twin.before, twin_sightings).to_multiset(),
    ensures
        after_sightings(tick, sightings).pending() is Accelerate,
        after_sightings(twin, twin_sightings).pending() is Accelerate,
        after_sightings(tick, sightings).pending()->Accelerate_bias == after_sightings(
            twin,
            twin_sightings,
        ).pending()->Accelerate_bias,
        after_sightings(tick, sightings).turn_votes == after_sightings(twin, twin_sightings).turn_votes,
{
    lemma_tick_counts_the_scan(tick, sightings);
    lemma_tick_counts_the_scan(twin, twin_sightings);
    lemma_scan_order_is_immaterial(
        tick.own.pose_spec(),
        meetings(tick.before, sightings),
        meetings(twin.before, twin_sightings),
    );
}

} // verus!
