//! Move selection. The core only asks a bot for its next direction; the
//! bot shipped here picks one at random.

use crate::state::{Dir, State};
use rand::distributions::{IndependentSample, Range};
use vstd::prelude::*;

verus! {

/// A move-selection policy: given the latest state, a bot yields its next
/// self, whose `dir` is the move to send.
pub trait Bot: Sized {
    /// The move this bot has chosen.
    spec fn chosen_dir(&self) -> Dir;

    fn step(&self, state: &State) -> Self;

    fn dir(&self) -> (r: Dir)
        ensures
            r == self.chosen_dir(),
    ;
}

/// A bot that moves in a random direction each turn.
#[derive(Debug, Clone)]
pub struct RandomBot {
    pub dir: Dir,
}

/// The direction that a draw from `0..5` stands for.
pub open spec fn drawn_dir(n: u32) -> Dir {
    if n == 0 {
        Dir::North
    } else if n == 1 {
        Dir::East
    } else if n == 2 {
        Dir::South
    } else if n == 3 {
        Dir::West
    } else {
        Dir::Stay
    }
}

/// Relies on rand 0.4's `Range::new(0, n)`, which panics unless `0 < n`,
/// and its `ind_sample`, which draws a value in `[0, n)` from the
/// thread-local generator.
#[verifier::external_body]
fn random_below(n: u32) -> (r: u32)
    requires
        0 < n,
    ensures
        r < n,
{
    Range::new(0, n).ind_sample(&mut rand::thread_rng())
}

impl RandomBot {
    /// A bot that has not moved yet: it stays.
    pub fn new() -> (r: RandomBot)
        ensures
            r.dir == Dir::Stay,
    {
        RandomBot { dir: Dir::Stay }
    }

    /// The bot after a draw `n` from `0..5`: north, east, south, west or
    /// stay, in that order.
    pub fn after_draw(&self, n: u32) -> (r: RandomBot)
        requires
            n < 5,
        ensures
            r.dir == drawn_dir(n),
    {
        let dir = if n == 0 {
            Dir::North
        } else if n == 1 {
            Dir::East
        } else if n == 2 {
            Dir::South
        } else if n == 3 {
            Dir::West
        } else {
            Dir::Stay
        };
        RandomBot { dir }
    }
}

impl Bot for RandomBot {
    open spec fn chosen_dir(&self) -> Dir {
        self.dir
    }

    fn step(&self, _state: &State) -> RandomBot {
        self.after_draw(random_below(5))
    }

    fn dir(&self) -> Dir {
        self.dir
    }
}

} // verus!
