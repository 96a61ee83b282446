//! The flock: a fixed number of agents, each known by its place in the
//! list.
use crate::rules::Pose;
use crate::scalar::{encoded, Scalar};
use vstd::prelude::*;

verus! {

/// One member of the flock.
#[derive(Clone, Copy, Debug, PartialEq, Eq)]
pub struct Boid {
    /// Where the agent is, on both axes.
    pub position: (Scalar, Scalar),
    /// The tint the agent is drawn in: red, green, blue. No rule reads it.
    pub color: (Scalar, Scalar, Scalar),
    /// Heading, in radians; it is not kept within a turn.
    pub rotation: Scalar,
    /// Forward speed.
    pub speed: Scalar,
}

impl Boid {
    /// What the neighbours of the agent vote on.
    pub open spec fn pose_spec(self) -> Pose {
        Pose { speed: self.speed, rotation: self.rotation }
    }

    /// An agent at the origin, black, heading along the first axis at no
    /// speed.
    pub open spec fn at_rest() -> Boid {
        Boid {
            position: (encoded(0), encoded(0)),
            color: (encoded(0), encoded(0), encoded(0)),
            rotation: encoded(0),
            speed: encoded(0),
        }
    }

    /// The agent with another tint.
    pub open spec fn tinted(self, color: (Scalar, Scalar, Scalar)) -> Boid {
        Boid { color, ..self }
    }

    /// The agent at another place.
    pub open spec fn placed(self, position: (Scalar, Scalar)) -> Boid {
        Boid { position, ..self }
    }

    /// An agent at the origin, black, heading along the first axis at no
    /// speed.
    pub fn new_at_rest() -> (boid: Boid)
        ensures
            boid == Boid::at_rest(),
    {
        let zero = Scalar::from_bits(0);
        Boid { position: (zero, zero), color: (zero, zero, zero), rotation: zero, speed: zero }
    }

    /// What the neighbours of the agent vote on.
    pub fn pose(&self) -> (pose: Pose)
        ensures
            pose == self.pose_spec(),
    {
        Pose { speed: self.speed, rotation: self.rotation }
    }
}

/// The flock. Its view is the list of its agents.
pub struct BoidManager {
    boids: Vec<Boid>,
}

impl View for BoidManager {
    type V = Seq<Boid>;

    closed spec fn view(&self) -> Seq<Boid> {
        self.boids@
    }
}

impl BoidManager {
    /// The flock of the given agents, in their order.
    pub fn new(boids: Vec<Boid>) -> (flock: BoidManager)
        ensures
            flock@ == boids@,
    {
        BoidManager { boids }
    }

    /// The number of agents.
    pub fn boids_len(&self) -> (count: usize)
        ensures
            count == self@.len(),
    {
        self.boids.len()
    }

    /// The agents, in their order.
    pub fn boids(&self) -> (boids: &Vec<Boid>)
        ensures
            boids@ == self@,
    {
        &self.boids
    }

    /// The agents, given away.
    pub fn into_boids(self) -> (boids: Vec<Boid>)
        ensures
            boids@ == self@,
    {
        self.boids
    }

    /// Gives every agent a new tint, made of three draws each: the agent
    /// at place `k` takes the draws at `3k`, `3k + 1` and `3k + 2` for its
    /// red, green and blue. Nothing else changes.
    pub fn randomise_colour(&mut self, draws: &Vec<Scalar>)
        requires
            draws@.len() == 3 * old(self)@.len(),
        ensures
            final(self)@.len() == old(self)@.len(),
            forall|k: int|
                0 <= k < old(self)@.len() ==> #[trigger] final(self)@[k] == old(self)@[k].tinted(
                    (draws@[3 * k], draws@[3 * k + 1], draws@[3 * k + 2]),
                ),
    {
        let ghost start = self.boids@;
        let count = self.boids.len();
        let drawn = draws.len();
        let mut place: usize = 0;
        while place < count
            invariant
                place <= count,
                self.boids@.len() == count,
                start.len() == count,
                draws@.len() == drawn == 3 * count,
                forall|k: int|
                    0 <= k < place ==> #[trigger] self.boids@[k] == start[k].tinted(
                        (draws@[3 * k], draws@[3 * k + 1], draws@[3 * k + 2]),
                    ),
                forall|k: int| place <= k < count ==> #[trigger] self.boids@[k] == start[k],
            decreases count - place,
        {
            let boid = self.boids[place];
            let color = (draws[3 * place], draws[3 * place + 1], draws[3 * place + 2]);
            self.boids.set(place, Boid { color, ..boid });
            place += 1;
        }
    }

    /// Gives every agent a new place, made of two draws each: the agent at
    /// place `k` of the list takes the draws at `2k` and `2k + 1` for its
    /// two coordinates. Nothing else changes.
    pub fn randomise_position(&mut self, draws: &Vec<Scalar>)
        requires
            draws@.len() == 2 * old(self)@.len(),
        ensures
            final(self)@.len() == old(self)@.len(),
            forall|k: int|
                0 <= k < old(self)@.len() ==> #[trigger] final(self)@[k] == old(self)@[k].placed(
                    (draws@[2 * k], draws@[2 * k + 1]),
                ),
    {
        let ghost start = self.boids@;
        let count = self.boids.len();
        let drawn = draws.len();
        let mut place: usize = 0;
        while place < count
            invariant
                place <= count,
                self.boids@.len() == count,
                start.len() == count,
                draws@.len() == drawn == 2 * count,
                forall|k: int|
                    0 <= k < place ==> #[trigger] self.boids@[k] == start[k].placed(
                        (draws@[2 * k], draws@[2 * k + 1]),
                    ),
                forall|k: int| place <= k < count ==> #[trigger] self.boids@[k] == start[k],
            decreases count - place,
        {
            let boid = self.boids[place];
            let position = (draws[2 * place], draws[2 * place + 1]);
            self.boids.set(place, Boid { position, ..boid });
            place += 1;
        }
    }
}

} // verus!
