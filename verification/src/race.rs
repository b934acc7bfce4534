//! The race: a bonus objective that stays open for a fixed time.

use vstd::prelude::*;
use std::time::Instant;
use crate::generator::{race_allowed, race_position};
use crate::position::{Cell, Position};

verus! {

/// Seconds in a minute.
pub const SECS_IN_MIN: u64 = 60;

/// Nanoseconds in a second.
pub const NANOS_IN_SEC: u64 = 1_000_000_000;

/// How long a race stays open, in nanoseconds: two minutes.
pub const RACE_DURATION: u64 = 2 * SECS_IN_MIN * NANOS_IN_SEC;

/// Points for the team that wins a race.
pub const RACE_POINTS: u32 = 5;

/// The time left of a race that has been open for `elapsed` nanoseconds:
/// what is missing to `RACE_DURATION`, and zero once that has passed.
pub open spec fn remaining_after(elapsed: nat) -> nat {
    if RACE_DURATION <= elapsed {
        0
    } else {
        (RACE_DURATION - elapsed) as nat
    }
}

/// The time left of a race that has been open for `elapsed` nanoseconds.
pub fn remaining_nanos(elapsed: u128) -> (left: u64)
    ensures
        left == remaining_after(elapsed as nat),
{
    if RACE_DURATION as u128 <= elapsed {
        0
    } else {
        RACE_DURATION - (elapsed as u64)
    }
}

/// A race that has been open for `elapsed` nanoseconds is finished: its
/// whole duration has passed.
pub open spec fn finished_after(elapsed: nat) -> bool {
    RACE_DURATION <= elapsed
}

/// Whether a race that has been open for `elapsed` nanoseconds is finished:
/// its whole duration has passed, which is to say that no time is left of
/// it.
pub fn finished_at(elapsed: u128) -> (finished: bool)
    ensures
        finished == finished_after(elapsed as nat),
        finished == (remaining_after(elapsed as nat) == 0),
{
    remaining_nanos(elapsed) == 0
}

/// What a race holds: the reading of the clock at its start and the cell it
/// aims at.
pub struct RaceModel {
    pub start: Instant,
    pub target: Cell,
}

/// A race in progress.
#[derive(Debug)]
pub struct Race {
    start: Instant,
    position: Position,
}

impl View for Race {
    type V = RaceModel;

    closed spec fn view(&self) -> RaceModel {
        RaceModel { start: self.start, target: self.position@ }
    }
}

impl Race {
    /// A race that starts now and aims at a freshly drawn cell.
    pub fn new() -> (race: Race)
        ensures
            race_allowed(race@.target),
    {
        let mut rng = rand::thread_rng();
        let position = race_position(&mut rng);
        Race { start: Instant::now(), position }
    }

    /// The race that started at `start` and aims at `position`.
    pub fn starting_at(start: Instant, position: Position) -> (race: Race)
        ensures
            race@ == (RaceModel { start, target: position@ }),
    {
        Race { start, position }
    }

    /// The cell that the race aims at.
    pub fn position(&self) -> (position: &Position)
        ensures
            position@ == self@.target,
    {
        &self.position
    }

    /// The time left of the race at the moment of the call, in nanoseconds.
    /// The clock decides it; whatever the clock says, it is
    /// `remaining_after` of the time elapsed.
    pub fn remaining_time(&self) -> (left: u64)
        ensures
            exists|elapsed: nat| left == remaining_after(elapsed),
            left <= RACE_DURATION,
    {
        let elapsed: u128 = self.start.elapsed().as_nanos();
        remaining_nanos(elapsed)
    }

    /// Whether no time is left of the race at the moment of the call. The
    /// clock decides it; whatever the clock says, the answer is
    /// `finished_after` of the time elapsed.
    pub fn is_finished(&self) -> (finished: bool)
        ensures
            exists|elapsed: nat| finished == finished_after(elapsed),
    {
        let elapsed: u128 = self.start.elapsed().as_nanos();
        finished_at(elapsed)
    }
}

} // verus!
