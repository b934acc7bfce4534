//! A team's standing: its players, its progress toward the win, the turns it
//! has completed and the captures it holds.

use vstd::prelude::*;
use crate::ai_side::AiSide;
use crate::capture::{Capture, CaptureModel};

verus! {

/// The progress at which a team has won.
pub const TOTAL_PROGRESS: u32 = 50;

/// What a side holds, in mathematical integers.
pub struct SideModel {
    pub players: nat,
    pub progress: nat,
    pub rounds: nat,
    pub capture: CaptureModel,
}

impl SideModel {
    /// A side as it is made: `players` players and nothing achieved yet.
    pub open spec fn fresh(players: nat, ai_side: AiSide) -> SideModel {
        SideModel {
            players,
            progress: 0,
            rounds: 0,
            capture: CaptureModel { count: 0, owner: ai_side },
        }
    }

    /// The progress does not exceed the total.
    pub open spec fn within_total(self) -> bool {
        self.progress <= TOTAL_PROGRESS
    }

    /// The side has reached the total.
    pub open spec fn has_won(self) -> bool {
        self.progress == TOTAL_PROGRESS
    }

    /// The side after gaining `value` points: the progress grows by `value`
    /// and stops at the total.
    pub open spec fn advanced(self, value: nat) -> SideModel {
        SideModel {
            progress: if self.progress + value > TOTAL_PROGRESS {
                TOTAL_PROGRESS as nat
            } else {
                self.progress + value
            },
            ..self
        }
    }

    /// The side after losing `value` points: the progress shrinks by `value`
    /// and stops at zero.
    pub open spec fn retreated(self, value: nat) -> SideModel {
        SideModel {
            progress: if self.progress < value {
                0
            } else {
                (self.progress - value) as nat
            },
            ..self
        }
    }

    /// The side after completing one more turn. The counter stops at the
    /// largest number that it can hold.
    pub open spec fn round_completed(self) -> SideModel {
        SideModel {
            rounds: if self.rounds < u32::MAX {
                self.rounds + 1
            } else {
                self.rounds
            },
            ..self
        }
    }

    /// The side after one more capture of its own.
    pub open spec fn capture_added(self) -> SideModel {
        SideModel { capture: self.capture.incremented(), ..self }
    }

    /// The side after one capture of its own less.
    pub open spec fn capture_removed(self) -> SideModel {
        SideModel { capture: self.capture.decremented(), ..self }
    }
}

/// One team's standing. The progress of every value lies between zero and
/// `TOTAL_PROGRESS`.
#[derive(Debug)]
pub struct Side {
    nb_players: u8,
    progress: u32,
    nb_rounds: u32,
    capture: Capture,
}

impl View for Side {
    type V = SideModel;

    closed spec fn view(&self) -> SideModel {
        SideModel {
            players: self.nb_players as nat,
            progress: self.progress as nat,
            rounds: self.nb_rounds as nat,
            capture: self.capture@,
        }
    }
}

impl Side {
    #[verifier::type_invariant]
    spec fn progress_within_total(self) -> bool {
        self.progress <= TOTAL_PROGRESS
    }

    /// A side of `nb_players` players for the team `ai_side`, with no
    /// progress, no completed turn and an empty capture tracker of its own.
    pub fn new(nb_players: u8, ai_side: AiSide) -> (side: Side)
        ensures
            side@ == SideModel::fresh(nb_players as nat, ai_side),
    {
        Side { nb_players, nb_rounds: 0, progress: 0, capture: Capture::new(ai_side) }
    }

    /// Adds `value` to the progress, which stops at `TOTAL_PROGRESS`.
    pub fn advance(&mut self, value: u32)
        ensures
            final(self)@ == old(self)@.advanced(value as nat),
            final(self)@.within_total(),
    {
        proof {
            use_type_invariant(&*self);
        }
        if value > TOTAL_PROGRESS - self.progress {
            self.progress = TOTAL_PROGRESS;
        } else {
            self.progress = self.progress + value;
        }
    }

    /// Takes `value` from the progress, which stops at zero.
    pub fn retreat(&mut self, value: u32)
        ensures
            final(self)@ == old(self)@.retreated(value as nat),
            final(self)@.within_total(),
    {
        proof {
            use_type_invariant(&*self);
        }
        if self.progress < value {
            self.progress = 0;
        } else {
            self.progress = self.progress - value;
        }
    }

    /// The progress toward the win.
    pub fn progress(&self) -> (progress: u32)
        ensures
            progress == self@.progress,
            self@.within_total(),
    {
        proof {
            use_type_invariant(self);
        }
        self.progress
    }

    /// Whether the side has reached `TOTAL_PROGRESS`.
    pub fn has_won(&self) -> (won: bool)
        ensures
            won == self@.has_won(),
    {
        self.progress == TOTAL_PROGRESS
    }

    /// The number of players of the team.
    pub fn nb_players(&self) -> (players: u8)
        ensures
            players == self@.players,
    {
        self.nb_players
    }

    /// The number of turns that the side has completed.
    pub fn nb_rounds(&self) -> (rounds: u32)
        ensures
            rounds == self@.rounds,
    {
        self.nb_rounds
    }

    /// The side's own capture tracker.
    pub fn capture(&self) -> (capture: &Capture)
        ensures
            capture@ == self@.capture,
    {
        &self.capture
    }

    /// Counts one more completed turn.
    pub fn complete_round(&mut self)
        ensures
            final(self)@ == old(self)@.round_completed(),
    {
        proof {
            use_type_invariant(&*self);
        }
        if self.nb_rounds < u32::MAX {
            self.nb_rounds = self.nb_rounds + 1;
        }
    }

    /// Counts one more capture of the side's own.
    pub fn add_capture(&mut self)
        ensures
            final(self)@ == old(self)@.capture_added(),
    {
        proof {
            use_type_invariant(&*self);
        }
        if self.capture.count() < u32::MAX {
            self.capture.add();
        }
    }

    /// Counts one capture of the side's own less.
    pub fn remove_capture(&mut self)
        ensures
            final(self)@ == old(self)@.capture_removed(),
    {
        proof {
            use_type_invariant(&*self);
        }
        self.capture.remove();
    }
}

} // verus!
