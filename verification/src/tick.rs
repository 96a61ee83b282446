//! One tick of the flock, cut into the steps between which a number has to
//! be computed.
//!
//! A tick takes the flock, and gives it back when every agent has been
//! advanced once. In between it reads the agents as they stood when it
//! began, and nothing else: what it has settled of one agent is not seen by
//! the next. It asks its caller for each number that takes arithmetic, one
//! at a time, and decides by itself what to ask next.
use crate::flock::{Boid, BoidManager};
use crate::rules::{
    clamp_speed, clamp_speed_spec, is_kept_speed, lemma_self_is_ignored, lemma_speed_is_bounded, nudge_spec,
    observe, votes_spec, Nudge, Sighting,
};
use crate::scalar::Scalar;
use crate::tally::{signum, Tally};
use vstd::prelude::*;

verus! {

/// What a tick waits for from the agent under scan.
#[derive(Clone, Copy, Debug, PartialEq, Eq)]
pub enum Stage {
    /// Where the next neighbour stands.
    Scan,
    /// The heading, pushed by the neighbour that was met last.
    Push { sighting: Sighting, nudge: Nudge },
    /// The speed after the step that the scan asks for.
    Accelerate,
    /// The heading and the place at the end of the tick.
    Move,
}

/// What the caller of a tick has to compute next.
#[derive(Clone, Copy, Debug, PartialEq, Eq)]
pub enum Step {
    /// Where `other` stands as seen from `own`: the square of their
    /// distance, and the dot product of the heading of `own` with the
    /// vector from `own` to `other`.
    Measure { own: Boid, other: Boid },
    /// The heading of `own`, raised or lowered as `nudge` says by the
    /// push of a neighbour at the distance of `sighting`.
    Push { own: Boid, sighting: Sighting, nudge: Nudge },
    /// The speed of `own` after `bias` steps of speed: -1, 0 or 1.
    Accelerate { own: Boid, bias: i32 },
    /// The heading of `own` after `bias` steps of turn and the jitter, and
    /// the place that `own` comes to with that heading and its speed.
    Move { own: Boid, bias: i32 },
    /// Nothing: every agent has been advanced.
    Done,
}

/// What the caller of a tick has computed.
#[derive(Clone, Copy, Debug, PartialEq, Eq)]
pub enum Reply {
    /// To `Step::Measure`.
    Sighting(Sighting),
    /// To `Step::Push`.
    Rotation(Scalar),
    /// To `Step::Accelerate`. The tick brings it back between the bounds.
    Speed(Scalar),
    /// To `Step::Move`.
    Motion { rotation: Scalar, position: (Scalar, Scalar) },
}

/// A tick under way.
pub struct TickState {
    /// The flock as it stood when the tick began.
    pub before: Seq<Boid>,
    /// The agents that the tick has advanced, in their order.
    pub after: Seq<Boid>,
    /// The agent under scan, as far as the tick has brought it.
    pub own: Boid,
    /// The balance of the votes on its speed.
    pub speed_votes: int,
    /// The balance of the votes on its heading.
    pub turn_votes: int,
    /// The number of neighbours whose votes its scan has counted.
    pub met: nat,
    /// What the tick waits for.
    pub stage: Stage,
}

impl TickState {
    /// The tick of a flock, before its first step.
    pub open spec fn begin(flock: Seq<Boid>) -> TickState {
        TickState {
            before: flock,
            after: Seq::empty(),
            own: if flock.len() > 0 {
                flock[0]
            } else {
                Boid::at_rest()
            },
            speed_votes: 0,
            turn_votes: 0,
            met: 0,
            stage: Stage::Scan,
        }
    }

    /// Whether every agent has been advanced.
    pub open spec fn is_done(self) -> bool {
        self.after.len() >= self.before.len()
    }

    /// What holds of every tick that began with `begin` and went on with
    /// `answer`.
    pub open spec fn wf(self) -> bool {
        &&& self.after.len() <= self.before.len()
        &&& self.met <= self.before.len()
        &&& -self.met <= self.speed_votes <= self.met
        &&& -self.met <= self.turn_votes <= self.met
        &&& forall|k: int|
            0 <= k < self.after.len() ==> {
                &&& is_kept_speed((#[trigger] self.after[k]).speed)
                &&& self.after[k].color == self.before[k].color
            }
        &&& !self.is_done() ==> {
            &&& self.own.color == self.before[self.after.len() as int].color
            &&& match self.stage {
                Stage::Scan => self.met < self.before.len(),
                Stage::Push { sighting, nudge } => 0 < self.met && nudge != Nudge::Hold,
                Stage::Accelerate => self.met == self.before.len(),
                Stage::Move => self.met == self.before.len() && is_kept_speed(self.own.speed),
            }
        }
    }

    /// What the caller has to compute next.
    pub open spec fn pending(self) -> Step {
        if self.is_done() {
            Step::Done
        } else {
            match self.stage {
                Stage::Scan => Step::Measure { own: self.own, other: self.before[self.met as int] },
                Stage::Push { sighting, nudge } => Step::Push { own: self.own, sighting, nudge },
                Stage::Accelerate => Step::Accelerate { own: self.own, bias: signum(self.speed_votes) as i32 },
                Stage::Move => Step::Move { own: self.own, bias: signum(self.turn_votes) as i32 },
            }
        }
    }

    /// Whether a reply is of the kind that the pending step asks for.
    pub open spec fn fits(self, reply: Reply) -> bool {
        !self.is_done() && match (self.stage, reply) {
            (Stage::Scan, Reply::Sighting(_)) => true,
            (Stage::Push { .. }, Reply::Rotation(_)) => true,
            (Stage::Accelerate, Reply::Speed(_)) => true,
            (Stage::Move, Reply::Motion { .. }) => true,
            _ => false,
        }
    }

    /// The tick back at its scan: on to the next neighbour, or to the
    /// agent's speed after the last.
    pub open spec fn resumed(self) -> TickState {
        TickState {
            stage: if self.met >= self.before.len() {
                Stage::Accelerate
            } else {
                Stage::Scan
            },
            ..self
        }
    }

    /// The tick with the agent under scan settled, and the next agent, as
    /// it stood when the tick began, under scan with an empty tally.
    pub open spec fn past_agent(self, settled: Boid) -> TickState {
        TickState {
            after: self.after.push(settled),
            own: if self.after.len() + 1 < self.before.len() {
                self.before[self.after.len() as int + 1]
            } else {
                settled
            },
            speed_votes: 0,
            turn_votes: 0,
            met: 0,
            stage: Stage::Scan,
            ..self
        }
    }

    /// The tick after a reply. One that does not fit leaves it as it is.
    ///
    /// A sighting adds the votes of the neighbour under scan, and either
    /// passes on or, where the neighbour crowds the agent, waits for the
    /// pushed heading. The pushed heading replaces the agent's. The speed
    /// replaces the agent's once it is brought between the bounds. The
    /// heading and place at the end settle the agent.
    pub open spec fn answer(self, reply: Reply) -> TickState {
        if !self.fits(reply) {
            self
        } else {
            match reply {
                Reply::Sighting(sighting) => {
                    let other = self.before[self.met as int];
                    let votes = votes_spec(self.own.pose_spec(), other.pose_spec(), sighting);
                    let nudge = nudge_spec(self.own.pose_spec(), other.pose_spec(), sighting);
                    let counted = TickState {
                        speed_votes: self.speed_votes + votes.0,
                        turn_votes: self.turn_votes + votes.1,
                        met: self.met + 1,
                        ..self
                    };
                    if nudge == Nudge::Hold {
                        counted.resumed()
                    } else {
                        TickState { stage: Stage::Push { sighting, nudge }, ..counted }
                    }
                },
                Reply::Rotation(rotation) => TickState {
                    own: Boid { rotation, ..self.own },
                    ..self
                }.resumed(),
                Reply::Speed(speed) => TickState {
                    own: Boid { speed: clamp_speed_spec(speed), ..self.own },
                    stage: Stage::Move,
                    ..self
                },
                Reply::Motion { rotation, position } => self.past_agent(
                    Boid { rotation, position, ..self.own },
                ),
            }
        }
    }

    /// A bound on the number of fitting replies that the tick still takes:
    /// two for every neighbour yet to be met and two to settle the agent,
    /// for the agent under scan and for each agent after it.
    pub open spec fn steps_left(self) -> nat {
        if self.is_done() {
            0
        } else {
            let count = self.before.len();
            let later = (count - self.after.len() - 1) * (2 * count + 2);
            let own = match self.stage {
                Stage::Scan => 2 * (count - self.met) + 2,
                Stage::Push { .. } => 2 * (count - self.met) + 3,
                Stage::Accelerate => 2,
                Stage::Move => 1,
            };
            (later + own) as nat
        }
    }

    /// The tick with other agents in the place of those that it has
    /// advanced.
    pub open spec fn with_after(self, after: Seq<Boid>) -> TickState {
        TickState { after, ..self }
    }

    /// The flock that the tick gives back: the advanced agents once all of
    /// them are; before that, the flock as it stood when the tick began.
    pub open spec fn finish(self) -> Seq<Boid> {
        if self.is_done() {
            self.after
        } else {
            self.before
        }
    }
}

/// A tick of a flock. Its view is the `TickState` that it has reached.
pub struct Tick {
    before: Vec<Boid>,
    after: Vec<Boid>,
    own: Boid,
    tally: Tally,
    met: usize,
    stage: Stage,
}

impl View for Tick {
    type V = TickState;

    closed spec fn view(&self) -> TickState {
        TickState {
            before: self.before@,
            after: self.after@,
            own: self.own,
            speed_votes: self.tally.speed as int,
            turn_votes: self.tally.turn as int,
            met: self.met as nat,
            stage: self.stage,
        }
    }
}

impl BoidManager {
    /// Begins the update of the flock by one tick: takes the flock, and
    /// gives the tick that will give it back.
    pub fn update(self) -> (tick: Tick)
        ensures
            tick@ == TickState::begin(self@),
            tick@.wf(),
    {
        let before = self.into_boids();
        let own = if before.len() > 0 {
            before[0]
        } else {
            Boid::new_at_rest()
        };
        Tick { before, after: Vec::new(), own, tally: Tally::new(), met: 0, stage: Stage::Scan }
    }
}

impl Tick {
    /// Every tick there is has come from an update by way of `answer`.
    #[verifier::type_invariant]
    closed spec fn inv(self) -> bool {
        self@.wf()
    }

    /// Whether every agent has been advanced.
    pub fn is_done(&self) -> (done: bool)
        ensures
            done == self@.is_done(),
    {
        self.after.len() >= self.before.len()
    }

    /// What the caller has to compute next.
    pub fn pending(&self) -> (step: Step)
        ensures
            step == self@.pending(),
            self@.wf(),
    {
        proof {
            use_type_invariant(self);
        }
        if self.is_done() {
            Step::Done
        } else {
            match self.stage {
                Stage::Scan => Step::Measure { own: self.own, other: self.before[self.met] },
                Stage::Push { sighting, nudge } => Step::Push { own: self.own, sighting, nudge },
                Stage::Accelerate => Step::Accelerate { own: self.own, bias: self.tally.speed_bias() },
                Stage::Move => Step::Move { own: self.own, bias: self.tally.turn_bias() },
            }
        }
    }

    /// Takes a reply to the pending step: gives the tick after it, and
    /// whether the reply fitted. A fitting reply brings the end nearer.
    pub fn answer(self, reply: Reply) -> (r: (Tick, bool))
        ensures
            r.1 == self@.fits(reply),
            r.0@ == self@.answer(reply),
            r.0@.wf(),
            r.0@.before == self@.before,
            r.1 ==> r.0@.steps_left() < self@.steps_left(),
    {
        proof {
            use_type_invariant(&self);
            if self@.fits(reply) {
                lemma_answer_brings_the_end_nearer(self@, reply);
            }
        }
        let count = self.before.len();
        if self.after.len() >= count {
            return (self, false);
        }
        match (self.stage, reply) {
            (Stage::Scan, Reply::Sighting(sighting)) => {
                let other = self.before[self.met];
                let (tally, nudge) = observe(self.tally, self.own.pose(), other.pose(), sighting);
                let met = self.met + 1;
                let stage = match nudge {
                    Nudge::Hold => resumed(met, count),
                    _ => Stage::Push { sighting, nudge },
                };
                (Tick { before: self.before, after: self.after, own: self.own, tally, met, stage }, true)
            },
            (Stage::Push { .. }, Reply::Rotation(rotation)) => {
                let own = Boid { rotation, ..self.own };
                let stage = resumed(self.met, count);
                (Tick { before: self.before, after: self.after, own, tally: self.tally, met: self.met, stage }, true)
            },
            (Stage::Accelerate, Reply::Speed(speed)) => {
                let own = Boid { speed: clamp_speed(speed), ..self.own };
                (
                    Tick {
                        before: self.before,
                        after: self.after,
                        own,
                        tally: self.tally,
                        met: self.met,
                        stage: Stage::Move,
                    },
                    true,
                )
            },
            (Stage::Move, Reply::Motion { rotation, position }) => {
                let settled = Boid { rotation, position, ..self.own };
                let mut after = self.after;
                after.push(settled);
                let own = if after.len() < count {
                    self.before[after.len()]
                } else {
                    settled
                };
                (Tick { before: self.before, after, own, tally: Tally::new(), met: 0, stage: Stage::Scan }, true)
            },
            _ => (self, false),
        }
    }

    /// Ends the tick and gives the flock back: advanced, if every agent
    /// has been; else as it stood when the tick began. Either way it has
    /// as many agents as before and each has kept its tint; an advanced
    /// flock has every speed between the bounds.
    pub fn finish(self) -> (flock: BoidManager)
        ensures
            flock@ == self@.finish(),
            flock@.len() == self@.before.len(),
            forall|k: int| 0 <= k < flock@.len() ==> (#[trigger] flock@[k]).color == self@.before[k].color,
            self@.is_done() ==> forall|k: int|
                0 <= k < flock@.len() ==> is_kept_speed((#[trigger] flock@[k]).speed),
    {
        proof {
            use_type_invariant(&self);
        }
        if self.is_done() {
            BoidManager::new(self.after)
        } else {
            BoidManager::new(self.before)
        }
    }
}

/// The stage of a scan that has counted `met` of `count` neighbours.
fn resumed(met: usize, count: usize) -> (stage: Stage)
    ensures
        stage == if met >= count {
            Stage::Accelerate
        } else {
            Stage::Scan
        },
{
    if met >= count {
        Stage::Accelerate
    } else {
        Stage::Scan
    }
}

/// The tick after the replies given, in their order.
pub open spec fn after_replies(tick: TickState, replies: Seq<Reply>) -> TickState
    decreases replies.len(),
{
    if replies.len() == 0 {
        tick
    } else {
        after_replies(tick, replies.drop_last()).answer(replies.last())
    }
}

/// Whatever the replies, the update of a flock keeps the number of the
/// agents and the tint of each, and once every agent is advanced, the
/// speed of each is a number from 1 to 3.
pub proof fn lemma_update_bounds_every_speed(flock: Seq<Boid>, replies: Seq<Reply>)
    ensures
        ({
            let end = after_replies(TickState::begin(flock), replies);
            &&& end.wf()
            &&& end.before == flock
            &&& end.finish().len() == flock.len()
            &&& forall|k: int| 0 <= k < flock.len() ==> (#[trigger] end.finish()[k]).color == flock[k].color
            &&& end.is_done() ==> forall|k: int|
                0 <= k < flock.len() ==> is_kept_speed((#[trigger] end.finish()[k]).speed)
        }),
    decreases replies.len(),
{
    if replies.len() > 0 {
        lemma_update_bounds_every_speed(flock, replies.drop_last());
        let earlier = after_replies(TickState::begin(flock), replies.drop_last());
        lemma_answer_keeps_wf(earlier, replies.last());
    }
}

/// A reply leaves a tick well formed.
pub proof fn lemma_answer_keeps_wf(tick: TickState, reply: Reply)
    requires
        tick.wf(),
    ensures
        tick.answer(reply).wf(),
        tick.answer(reply).before == tick.before,
{
    if tick.fits(reply) {
        match reply {
            Reply::Speed(speed) => {
                lemma_speed_is_bounded(speed);
            },
            _ => {},
        }
    }
}

/// An update holds nothing but the flock and the replies: equal flocks
/// that are given equal replies come out equal.
pub proof fn lemma_update_is_determined(
    flock: Seq<Boid>,
    replies: Seq<Reply>,
    twin_flock: Seq<Boid>,
    twin_replies: Seq<Reply>,
)
    requires
        flock == twin_flock,
        replies == twin_replies,
    ensures
        after_replies(TickState::begin(flock), replies).finish() == after_replies(
            TickState::begin(twin_flock),
            twin_replies,
        ).finish(),
{
}

/// Every fitting reply brings the end of a tick nearer, and a tick of a
/// flock of `n` begins no more than `n * (2 * n + 2)` of them away from
/// it: the time that a tick takes grows with the square of the flock.
pub proof fn lemma_answer_brings_the_end_nearer(tick: TickState, reply: Reply)
    requires
        tick.wf(),
        tick.fits(reply),
    ensures
        tick.answer(reply).steps_left() < tick.steps_left(),
        TickState::begin(tick.before).steps_left() == tick.before.len() * (2 * tick.before.len() + 2),
        tick.steps_left() <= tick.before.len() * (2 * tick.before.len() + 2),
{
    let count = tick.before.len() as int;
    let settled = tick.after.len() as int;
    let each = 2 * count + 2;
    assert((count - settled - 1) * each == (count - settled - 2) * each + each) by (nonlinear_arith);
    assert((count - 0 - 1) * each + each == count * each) by (nonlinear_arith);
    assert((count - settled - 1) * each + each <= count * each) by (nonlinear_arith)
        requires
            0 <= settled,
            0 <= each,
    ;
    assert(0 <= (count - settled - 1) * each) by (nonlinear_arith)
        requires
            0 <= count - settled - 1,
            0 <= each,
    ;
    if settled + 1 < count {
        assert(0 <= (count - settled - 2) * each) by (nonlinear_arith)
            requires
                0 <= count - settled - 2,
                0 <= each,
        ;
    }
}

/// A tick does not read what it has settled. Put other agents in the
/// place of those that a tick has advanced: it asks for the same step,
/// takes the same replies, and comes to the same state but for those
/// agents, to which the same agent is added if any is.
pub proof fn lemma_settled_agents_are_not_read(tick: TickState, others: Seq<Boid>, reply: Reply)
    requires
        others.len() == tick.after.len(),
    ensures
        tick.with_after(others).pending() == tick.pending(),
        tick.with_after(others).fits(reply) == tick.fits(reply),
        tick.with_after(others).answer(reply) == tick.answer(reply).with_after(
            tick.with_after(others).answer(reply).after,
        ),
        tick.with_after(others).answer(reply).after == if tick.answer(reply).after.len()
            > tick.after.len() {
            others.push(tick.answer(reply).after.last())
        } else {
            others
        },
{
}

/// An agent alone in its flock is moved by nothing but its own speed and
/// the jitter: its tick measures it against itself, which casts no vote
/// and gives no push, and then asks for no step of speed and none of turn.
pub proof fn lemma_lone_agent_is_not_biased(boid: Boid, sighting: Sighting, speed: Scalar)
    requires
        sighting.dot.is_nan_spec() || sighting.dot.value() == 0,
    ensures
        ({
            let begun = TickState::begin(seq![boid]);
            let scanned = begun.answer(Reply::Sighting(sighting));
            let sped = scanned.answer(Reply::Speed(speed));
            &&& begun.pending() == Step::Measure { own: boid, other: boid }
            &&& scanned.pending() == Step::Accelerate { own: boid, bias: 0 }
            &&& sped.pending() == Step::Move { own: Boid { speed: clamp_speed_spec(speed), ..boid }, bias: 0 }
        }),
{
    lemma_self_is_ignored(boid.pose_spec(), sighting);
}

/// A tick reads the flock as it stood when the tick began: no reply
/// changes that flock, and the neighbour of every measurement is one of
/// its agents, the next in its order.
pub proof fn lemma_neighbours_are_as_the_tick_began(tick: TickState, reply: Reply)
    requires
        tick.wf(),
    ensures
        tick.answer(reply).before == tick.before,
        tick.pending() is Measure ==> tick.met < tick.before.len()
            && tick.pending()->Measure_other == tick.before[tick.met as int],
{
}

} // verus!
