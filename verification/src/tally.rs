//! The running balance of the votes that an agent collects during one scan.
use vstd::prelude::*;

verus! {

/// The sign of a balance: the one step, up or down, that a scan may move
/// an agent's speed or heading by, however many neighbours voted.
pub open spec fn signum(balance: int) -> int {
    if balance < 0 {
        -1
    } else if balance > 0 {
        1
    } else {
        0
    }
}

/// Two balances of votes, one on the agent's speed and one on its heading.
/// A neighbour that is faster, or that heads further round, adds one; one
/// that is slower, or heads less far round, takes one away.
#[derive(Clone, Copy, Debug, PartialEq, Eq, Structural)]
pub struct Tally {
    pub speed: i128,
    pub turn: i128,
}

impl Tally {
    /// Whether one more vote fits on either balance.
    pub open spec fn has_room(self) -> bool {
        &&& i128::MIN < self.speed < i128::MAX
        &&& i128::MIN < self.turn < i128::MAX
    }

    /// The tally of a scan that has seen nobody yet.
    pub fn new() -> (t: Tally)
        ensures
            t.speed == 0,
            t.turn == 0,
    {
        Tally { speed: 0, turn: 0 }
    }

    /// Whether one more vote fits on either balance.
    pub fn can_record(&self) -> (r: bool)
        ensures
            r == self.has_room(),
    {
        i128::MIN < self.speed && self.speed < i128::MAX && i128::MIN < self.turn && self.turn
            < i128::MAX
    }

    /// The tally with one neighbour's two votes added.
    pub fn record(self, speed_vote: i32, turn_vote: i32) -> (t: Tally)
        requires
            self.has_room(),
            -1 <= speed_vote <= 1,
            -1 <= turn_vote <= 1,
        ensures
            t.speed == self.speed + speed_vote,
            t.turn == self.turn + turn_vote,
    {
        Tally { speed: self.speed + speed_vote as i128, turn: self.turn + turn_vote as i128 }
    }

    /// The step that the scan asks of the agent's speed: -1, 0 or 1.
    pub fn speed_bias(&self) -> (bias: i32)
        ensures
            bias == signum(self.speed as int),
    {
        step_of(self.speed)
    }

    /// The step that the scan asks of the agent's heading: -1, 0 or 1.
    pub fn turn_bias(&self) -> (bias: i32)
        ensures
            bias == signum(self.turn as int),
    {
        step_of(self.turn)
    }
}

/// A balance cut down to the range from -1 to 1.
fn step_of(balance: i128) -> (step: i32)
    ensures
        step == signum(balance as int),
{
    if balance < 0 {
        -1
    } else if balance > 0 {
        1
    } else {
        0
    }
}

} // verus!
