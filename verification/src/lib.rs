//! The flock of a boids simulation, its update, and every decision that
//! the update makes.
//!
//! Each agent of a flock looks at every agent of the flock as it stood when
//! the tick began, and lets those it perceives pull its speed and heading
//! towards theirs; one that comes too close pushes its heading away.
//!
//! The numbers of the flock are single-precision, and this crate carries
//! them as their IEEE 754 bit patterns. It compares them, which integer
//! arithmetic can do exactly, and it performs no floating-point
//! arithmetic: an update asks its caller for every sum, product, sine and
//! cosine, one at a time, and decides by itself what follows from each.
//!
//! - `scalar`: the numbers, their values and their order.
//! - `tally`: the votes of the neighbours on an agent.
//! - `rules`: what an agent makes of one neighbour; the bounds on speed.
//! - `flock`: the agents and their list.
//! - `tick`: the update of a flock, step by step.
//! - `scan`: what the votes of a whole scan add up to.
pub mod flock;
pub mod rules;
pub mod scalar;
pub mod scan;
pub mod tally;
pub mod tick;
