//! Capture trackers: how many territory markers a team holds.

use vstd::prelude::*;
use crate::ai_side::AiSide;

verus! {

/// Points that each held capture is worth at the end of its owner's turn.
pub const CAPTURE_POINTS: u32 = 1;

/// Numerator of the factor by which captures of the contested center count.
pub const CENTER_MULTIPLIER_NUM: u32 = 3;

/// Denominator of the factor by which captures of the contested center
/// count.
pub const CENTER_MULTIPLIER_DEN: u32 = 2;

/// What a capture tracker holds: a count and the team that owns it.
pub struct CaptureModel {
    pub count: nat,
    pub owner: AiSide,
}

impl CaptureModel {
    /// The tracker after one more capture. The count stops at the largest
    /// number that a tracker can hold.
    pub open spec fn incremented(self) -> CaptureModel {
        if self.count < u32::MAX {
            CaptureModel { count: self.count + 1, ..self }
        } else {
            self
        }
    }

    /// The tracker after one capture less. The count stops at zero.
    pub open spec fn decremented(self) -> CaptureModel {
        if self.count >= 1 {
            CaptureModel { count: (self.count - 1) as nat, ..self }
        } else {
            self
        }
    }
}

/// A counter of captures with the team that owns it. The owner is fixed when
/// the tracker is made.
#[derive(Clone, Copy, Debug)]
pub struct Capture {
    count: u32,
    ai_side: AiSide,
}

impl View for Capture {
    type V = CaptureModel;

    closed spec fn view(&self) -> CaptureModel {
        CaptureModel { count: self.count as nat, owner: self.ai_side }
    }
}

impl Capture {
    /// An empty tracker owned by `ai_side`.
    pub fn new(ai_side: AiSide) -> (capture: Capture)
        ensures
            capture@ == (CaptureModel { count: 0, owner: ai_side }),
        no_unwind
    {
        Capture { count: 0, ai_side }
    }

    /// The number of captures held.
    pub fn count(&self) -> (count: u32)
        ensures
            count == self@.count,
        no_unwind
    {
        self.count
    }

    /// The team that owns the tracker.
    pub fn ai_side(&self) -> (owner: AiSide)
        ensures
            owner == self@.owner,
        no_unwind
    {
        self.ai_side
    }

    /// Counts one more capture.
    pub fn add(&mut self)
        requires
            old(self)@.count < u32::MAX,
        ensures
            final(self)@ == (CaptureModel { count: old(self)@.count + 1, ..old(self)@ }),
        no_unwind
    {
        self.count = self.count + 1;
    }

    /// Counts one capture less; an empty tracker stays empty.
    pub fn remove(&mut self)
        ensures
            final(self)@ == old(self)@.decremented(),
        no_unwind
    {
        if self.count >= 1 {
            self.count = self.count - 1;
        }
    }
}

/// The count scaled by the center factor and rounded to the nearest whole
/// number, a half rounding up.
pub open spec fn center_bonus(count: nat) -> nat {
    ((2 * CENTER_MULTIPLIER_NUM * count + CENTER_MULTIPLIER_DEN) / (2 * CENTER_MULTIPLIER_DEN)) as nat
}

/// The points that a turn brings to a team with `own` captures of its own
/// and `center` captures of the contested center.
pub open spec fn turn_points(own: nat, center: nat) -> nat {
    (CAPTURE_POINTS * (own + center_bonus(center))) as nat
}

/// The count scaled by the center factor and rounded to the nearest whole
/// number, a half rounding up.
pub fn center_bonus_of(count: u32) -> (bonus: u64)
    ensures
        bonus == center_bonus(count as nat),
        bonus <= 2 * count + 1,
{
    let num: u64 = CENTER_MULTIPLIER_NUM as u64;
    let den: u64 = CENTER_MULTIPLIER_DEN as u64;
    let wide: u64 = count as u64;
    assert(2 * num * wide + den == 6 * wide + 2 && 2 * den == 4) by (nonlinear_arith)
        requires
            num == 3,
            den == 2,
    ;
    let scaled: u64 = 2 * num * wide + den;
    assert((scaled as int) / (2 * den) == (6 * wide + 2) / 4) by (nonlinear_arith)
        requires
            scaled == 6 * wide + 2,
            den == 2,
    ;
    scaled / (2 * den)
}

/// The points that a turn brings to a team with `own` captures of its own
/// and `center` captures of the contested center.
pub fn turn_points_of(own: u32, center: u32) -> (points: u64)
    ensures
        points == turn_points(own as nat, center as nat),
{
    let bonus: u64 = center_bonus_of(center);
    let held: u64 = (own as u64) + bonus;
    let each: u64 = CAPTURE_POINTS as u64;
    assert(each * held == held) by (nonlinear_arith)
        requires
            each == 1,
    ;
    each * held
}

} // verus!
