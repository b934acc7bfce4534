//! The session's data: both sides, the contested center, the race and whose
//! turn it is, with the moves that the moderator records on them.

use vstd::prelude::*;
use crate::ai_side::AiSide;
use crate::capture::{turn_points, turn_points_of, Capture, CaptureModel};
use crate::challenge::{challenge_offered, draw_challenge};
use crate::generator::random_side;
use crate::race::{Race, RaceModel, RACE_POINTS};
use crate::side::{Side, SideModel, TOTAL_PROGRESS};

verus! {

/// Points for a team that places a database.
pub const DATABASE_POINTS: u32 = 7;

/// Points that a penalty takes from a team.
pub const PENALTY_POINTS: u32 = 1;

/// Fewest players of a team.
pub const MIN_PLAYERS: u8 = 1;

/// Most players of a team.
pub const MAX_PLAYERS: u8 = 3;

/// What a session holds, in mathematical terms.
pub struct GameModel {
    pub for_ai: Option<SideModel>,
    pub against_ai: Option<SideModel>,
    pub center_capture: Option<CaptureModel>,
    pub race: Option<RaceModel>,
    pub turn: AiSide,
}

impl GameModel {
    /// The session before anything is entered: no side, no contested
    /// capture, no race, and `turn` to move first.
    pub open spec fn initial(turn: AiSide) -> GameModel {
        GameModel { for_ai: None, against_ai: None, center_capture: None, race: None, turn }
    }

    /// The side of the team `s`, if it has been entered.
    pub open spec fn side(self, s: AiSide) -> Option<SideModel> {
        match s {
            AiSide::For => self.for_ai,
            AiSide::Against => self.against_ai,
        }
    }

    /// The session with `side` in the place of the team `s`.
    pub open spec fn with_side(self, s: AiSide, side: Option<SideModel>) -> GameModel {
        match s {
            AiSide::For => GameModel { for_ai: side, ..self },
            AiSide::Against => GameModel { against_ai: side, ..self },
        }
    }

    /// Both sides have been entered.
    pub open spec fn both_present(self) -> bool {
        self.for_ai is Some && self.against_ai is Some
    }

    /// Both teams have more than one player, so team challenges are open to
    /// them.
    pub open spec fn team_play(self) -> bool {
        &&& self.for_ai matches Some(for_ai)
        &&& self.against_ai matches Some(against_ai)
        &&& for_ai.players > 1
        &&& against_ai.players > 1
    }

    /// The team that has won: `For` if it has reached the total, else
    /// `Against` if that one has.
    pub open spec fn winner(self) -> Option<AiSide> {
        if self.for_ai matches Some(side) && side.has_won() {
            Some(AiSide::For)
        } else if self.against_ai matches Some(side) && side.has_won() {
            Some(AiSide::Against)
        } else {
            None
        }
    }

    /// The captures of the contested center that count for the team `s`:
    /// all of them where `s` owns the center, none else.
    pub open spec fn center_share(self, s: AiSide) -> nat {
        match self.center_capture {
            Some(center) => if center.owner == s {
                center.count
            } else {
                0
            },
            None => 0,
        }
    }

    /// The session after `count` players were entered for the team `s`: a
    /// fresh side takes the team's place where the count is allowed, and
    /// nothing happens where it is not.
    pub open spec fn players_confirmed(self, s: AiSide, count: nat) -> GameModel {
        if MIN_PLAYERS <= count <= MAX_PLAYERS {
            self.with_side(s, Some(SideModel::fresh(count, s)))
        } else {
            self
        }
    }

    /// The session after the team `s` gained `value` points.
    pub open spec fn side_advanced(self, s: AiSide, value: nat) -> GameModel {
        match self.side(s) {
            Some(side) => self.with_side(s, Some(side.advanced(value))),
            None => self,
        }
    }

    /// The session after the team `s` lost `value` points.
    pub open spec fn side_retreated(self, s: AiSide, value: nat) -> GameModel {
        match self.side(s) {
            Some(side) => self.with_side(s, Some(side.retreated(value))),
            None => self,
        }
    }

    /// The session after the team `s` took one more capture of its own.
    pub open spec fn capture_added(self, s: AiSide) -> GameModel {
        match self.side(s) {
            Some(side) => self.with_side(s, Some(side.capture_added())),
            None => self,
        }
    }

    /// The session after the team `s` lost one capture of its own.
    pub open spec fn capture_removed(self, s: AiSide) -> GameModel {
        match self.side(s) {
            Some(side) => self.with_side(s, Some(side.capture_removed())),
            None => self,
        }
    }

    /// The session after the team on turn ended its turn. That team has one
    /// more turn completed and gains the points of its captures: its own,
    /// and those of the contested center where it owns the center. The turn
    /// passes to the other team.
    pub open spec fn turn_ended(self) -> GameModel {
        let mover = self.turn;
        let passed = GameModel { turn: mover.opponent(), ..self };
        match self.side(mover) {
            Some(side) => passed.with_side(
                mover,
                Some(
                    side.round_completed().advanced(
                        turn_points(side.capture.count, self.center_share(mover)),
                    ),
                ),
            ),
            None => passed,
        }
    }

    /// The session after `race` was offered: it starts where no race is
    /// open, and is dropped where one is.
    pub open spec fn race_started(self, race: RaceModel) -> GameModel {
        if self.race is None {
            GameModel { race: Some(race), ..self }
        } else {
            self
        }
    }

    /// The session after the team `s` claimed the race: where one is open,
    /// the team gains the race points and the race is over.
    pub open spec fn race_claimed(self, s: AiSide) -> GameModel {
        if self.race is Some {
            GameModel { race: None, ..self.side_advanced(s, RACE_POINTS as nat) }
        } else {
            self
        }
    }

    /// The session after the team `s` took a capture of the contested
    /// center. Where `s` owns the center, its count grows by one. Where it
    /// does not, the center passes to `s` with a count of one, and what the
    /// other team had counted there is lost.
    pub open spec fn center_captured(self, s: AiSide) -> GameModel {
        GameModel {
            center_capture: Some(
                match self.center_capture {
                    Some(center) => if center.owner == s {
                        center.incremented()
                    } else {
                        CaptureModel { count: 1, owner: s }
                    },
                    None => CaptureModel { count: 1, owner: s },
                },
            ),
            ..self
        }
    }

    /// The session after the team `s` gave up a capture of the contested
    /// center: the count shrinks by one, stopping at zero, where `s` owns
    /// the center, and nothing happens where it does not.
    pub open spec fn center_released(self, s: AiSide) -> GameModel {
        match self.center_capture {
            Some(center) => if center.owner == s {
                GameModel { center_capture: Some(center.decremented()), ..self }
            } else {
                self
            },
            None => self,
        }
    }

    /// The session after the key `c` was pressed during play. Keys act only
    /// once both sides have been entered; a key that stands for nothing
    /// changes nothing.
    pub open spec fn key_played(self, c: char) -> GameModel {
        if !self.both_present() {
            self
        } else if c == '1' {
            self.race_claimed(AiSide::For)
        } else if c == '0' {
            self.race_claimed(AiSide::Against)
        } else if c == '5' {
            self.side_retreated(AiSide::For, PENALTY_POINTS as nat)
        } else if c == '7' {
            self.side_retreated(AiSide::Against, PENALTY_POINTS as nat)
        } else if c == 'i' {
            self.side_advanced(AiSide::For, DATABASE_POINTS as nat)
        } else if c == 'd' {
            self.side_advanced(AiSide::Against, DATABASE_POINTS as nat)
        } else if c == 'e' {
            self.capture_added(AiSide::For)
        } else if c == 'u' {
            self.capture_removed(AiSide::For)
        } else if c == 't' {
            self.capture_added(AiSide::Against)
        } else if c == 'h' {
            self.capture_removed(AiSide::Against)
        } else if c == 'a' {
            self.center_captured(AiSide::For)
        } else if c == 'o' {
            self.center_released(AiSide::For)
        } else if c == 's' {
            self.center_captured(AiSide::Against)
        } else if c == 'n' {
            self.center_released(AiSide::Against)
        } else {
            self
        }
    }

    /// The session after the housekeeping of a tick: an expired race is
    /// over, and a contested center without captures belongs to nobody.
    pub open spec fn housekept(self, race_expired: bool) -> GameModel {
        GameModel {
            race: if race_expired {
                None
            } else {
                self.race
            },
            center_capture: match self.center_capture {
                Some(center) => if center.count == 0 {
                    None
                } else {
                    Some(center)
                },
                None => None,
            },
            ..self
        }
    }
}

/// The model of a side that may be absent.
pub open spec fn side_model(side: Option<Side>) -> Option<SideModel> {
    match side {
        Some(side) => Some(side@),
        None => None,
    }
}

/// The model of a borrowed side that may be absent.
pub open spec fn side_model_of(side: Option<&Side>) -> Option<SideModel> {
    match side {
        Some(side) => Some(side@),
        None => None,
    }
}

/// The model of a capture tracker that may be absent.
pub open spec fn capture_model(capture: Option<Capture>) -> Option<CaptureModel> {
    match capture {
        Some(capture) => Some(capture@),
        None => None,
    }
}

/// The model of a race that may be absent.
pub open spec fn race_model(race: Option<Race>) -> Option<RaceModel> {
    match race {
        Some(race) => Some(race@),
        None => None,
    }
}

/// The session's data.
#[derive(Debug)]
pub struct Game {
    for_ai: Option<Side>,
    against_ai: Option<Side>,
    center_capture: Option<Capture>,
    race: Option<Race>,
    turn: AiSide,
}

impl View for Game {
    type V = GameModel;

    closed spec fn view(&self) -> GameModel {
        GameModel {
            for_ai: side_model(self.for_ai),
            against_ai: side_model(self.against_ai),
            center_capture: capture_model(self.center_capture),
            race: race_model(self.race),
            turn: self.turn,
        }
    }
}

impl Game {
    /// A session before anything is entered, with the team to move first
    /// drawn with equal chance.
    pub fn new() -> (game: Game)
        ensures
            game@ == GameModel::initial(game@.turn),
    {
        let mut rng = rand::thread_rng();
        Game::starting_with(random_side(&mut rng))
    }

    /// A session before anything is entered, with `turn` to move first.
    pub fn starting_with(turn: AiSide) -> (game: Game)
        ensures
            game@ == GameModel::initial(turn),
    {
        Game { for_ai: None, against_ai: None, center_capture: None, race: None, turn }
    }

    /// The team on turn.
    pub fn turn(&self) -> (turn: AiSide)
        ensures
            turn == self@.turn,
    {
        self.turn
    }

    /// The side of the team `ai_side`, if it has been entered.
    pub fn side(&self, ai_side: AiSide) -> (side: Option<&Side>)
        ensures
            side_model_of(side) == self@.side(ai_side),
    {
        match ai_side {
            AiSide::For => self.for_ai.as_ref(),
            AiSide::Against => self.against_ai.as_ref(),
        }
    }

    /// The side of the team `For`, if it has been entered.
    pub fn for_ai(&self) -> (side: Option<&Side>)
        ensures
            side_model_of(side) == self@.for_ai,
    {
        self.for_ai.as_ref()
    }

    /// The side of the team `Against`, if it has been entered.
    pub fn against_ai(&self) -> (side: Option<&Side>)
        ensures
            side_model_of(side) == self@.against_ai,
    {
        self.against_ai.as_ref()
    }

    /// The tracker of the contested center, if a team owns it.
    pub fn center_capture(&self) -> (center: Option<&Capture>)
        ensures
            match center {
                Some(center) => self@.center_capture == Some(center@),
                None => self@.center_capture is None,
            },
    {
        self.center_capture.as_ref()
    }

    /// The race, if one is open.
    pub fn race(&self) -> (race: Option<&Race>)
        ensures
            match race {
                Some(race) => self@.race == Some(race@),
                None => self@.race is None,
            },
    {
        self.race.as_ref()
    }

    /// The side of the team `ai_side`, to be changed in place.
    fn side_mut(&mut self, ai_side: AiSide) -> (side: Option<&mut Side>)
        ensures
            match old(self)@.side(ai_side) {
                None => side is None && final(self)@ == old(self)@,
                Some(model) => side is Some && side.unwrap()@ == model && final(self)@ == old(
                    self,
                )@.with_side(ai_side, Some(final(side.unwrap())@)),
            },
    {
        match ai_side {
            AiSide::For => self.for_ai.as_mut(),
            AiSide::Against => self.against_ai.as_mut(),
        }
    }

    /// The side of the team on turn, to be changed in place.
    pub fn get_turn(&mut self) -> (side: Option<&mut Side>)
        ensures
            match old(self)@.side(old(self)@.turn) {
                None => side is None && final(self)@ == old(self)@,
                Some(model) => side is Some && side.unwrap()@ == model && final(self)@ == old(
                    self,
                )@.with_side(old(self)@.turn, Some(final(side.unwrap())@)),
            },
    {
        let turn = self.turn;
        self.side_mut(turn)
    }

    /// Enters `count` players for the team `ai_side`. A count outside
    /// `MIN_PLAYERS..=MAX_PLAYERS` is ignored.
    pub fn confirm_players(&mut self, ai_side: AiSide, count: u8)
        ensures
            final(self)@ == old(self)@.players_confirmed(ai_side, count as nat),
    {
        if MIN_PLAYERS <= count && count <= MAX_PLAYERS {
            let side = Side::new(count, ai_side);
            match ai_side {
                AiSide::For => {
                    self.for_ai = Some(side);
                },
                AiSide::Against => {
                    self.against_ai = Some(side);
                },
            }
        }
    }

    /// Gives the team `ai_side` `value` points.
    pub fn advance_side(&mut self, ai_side: AiSide, value: u32)
        ensures
            final(self)@ == old(self)@.side_advanced(ai_side, value as nat),
    {
        match self.side_mut(ai_side) {
            Some(side) => {
                side.advance(value);
            },
            None => {},
        }
    }

    /// Takes `value` points from the team `ai_side`.
    pub fn retreat_side(&mut self, ai_side: AiSide, value: u32)
        ensures
            final(self)@ == old(self)@.side_retreated(ai_side, value as nat),
    {
        match self.side_mut(ai_side) {
            Some(side) => {
                side.retreat(value);
            },
            None => {},
        }
    }

    /// Counts one more capture of the team `ai_side`'s own.
    pub fn add_capture(&mut self, ai_side: AiSide)
        ensures
            final(self)@ == old(self)@.capture_added(ai_side),
    {
        match self.side_mut(ai_side) {
            Some(side) => {
                side.add_capture();
            },
            None => {},
        }
    }

    /// Counts one capture of the team `ai_side`'s own less.
    pub fn remove_capture(&mut self, ai_side: AiSide)
        ensures
            final(self)@ == old(self)@.capture_removed(ai_side),
    {
        match self.side_mut(ai_side) {
            Some(side) => {
                side.remove_capture();
            },
            None => {},
        }
    }

    /// Ends the turn of the team on turn: the team has one more turn
    /// completed and gains the points of its captures, and the turn passes
    /// to the other team.
    pub fn end_turn(&mut self)
        ensures
            final(self)@ == old(self)@.turn_ended(),
    {
        let mover = self.turn;
        let center: u32 = match &self.center_capture {
            Some(capture) => if capture.ai_side() == mover {
                capture.count()
            } else {
                0
            },
            None => 0,
        };
        match self.get_turn() {
            Some(side) => {
                side.complete_round();
                let points: u64 = turn_points_of(side.capture().count(), center);
                let gain: u32 = if points > TOTAL_PROGRESS as u64 {
                    TOTAL_PROGRESS
                } else {
                    points as u32
                };
                side.advance(gain);
            },
            None => {},
        }
        self.turn = mover.switch();
    }

    /// Offers `race`: it starts where no race is open, and is dropped where
    /// one is.
    pub fn start_race(&mut self, race: Race)
        ensures
            final(self)@ == old(self)@.race_started(race@),
    {
        if self.race.is_none() {
            self.race = Some(race);
        }
    }

    /// Claims the race for the team `ai_side`: where one is open, the team
    /// gains `RACE_POINTS` and the race is over.
    pub fn claim_race(&mut self, ai_side: AiSide)
        ensures
            final(self)@ == old(self)@.race_claimed(ai_side),
    {
        if self.race.is_some() {
            self.advance_side(ai_side, RACE_POINTS);
            self.race = None;
        }
    }

    /// Counts a capture of the contested center for the team `ai_side`. A
    /// team that does not own the center takes it over with a count of one.
    pub fn capture_center(&mut self, ai_side: AiSide)
        ensures
            final(self)@ == old(self)@.center_captured(ai_side),
    {
        let mut center = match self.center_capture {
            Some(center) => if center.ai_side() == ai_side {
                center
            } else {
                Capture::new(ai_side)
            },
            None => Capture::new(ai_side),
        };
        if center.count() < u32::MAX {
            center.add();
        }
        self.center_capture = Some(center);
    }

    /// Takes a capture of the contested center from the team `ai_side`. A
    /// team that does not own the center cannot give any up.
    pub fn release_center(&mut self, ai_side: AiSide)
        ensures
            final(self)@ == old(self)@.center_released(ai_side),
    {
        match self.center_capture {
            Some(center) => {
                if center.ai_side() == ai_side {
                    let mut center = center;
                    center.remove();
                    self.center_capture = Some(center);
                }
            },
            None => {},
        }
    }

    /// Whether both sides have been entered.
    pub fn both_present(&self) -> (present: bool)
        ensures
            present == self@.both_present(),
    {
        self.for_ai.is_some() && self.against_ai.is_some()
    }

    /// Records the key `c` pressed during play: a race claim, a penalty, a
    /// database, a capture of a team's own or of the contested center. Keys
    /// act only once both sides have been entered.
    pub fn play_key(&mut self, c: char)
        ensures
            final(self)@ == old(self)@.key_played(c),
    {
        if !self.both_present() {
            return;
        }
        match c {
            '1' => self.claim_race(AiSide::For),
            '0' => self.claim_race(AiSide::Against),
            '5' => self.retreat_side(AiSide::For, PENALTY_POINTS),
            '7' => self.retreat_side(AiSide::Against, PENALTY_POINTS),
            'i' => self.advance_side(AiSide::For, DATABASE_POINTS),
            'd' => self.advance_side(AiSide::Against, DATABASE_POINTS),
            'e' => self.add_capture(AiSide::For),
            'u' => self.remove_capture(AiSide::For),
            't' => self.add_capture(AiSide::Against),
            'h' => self.remove_capture(AiSide::Against),
            'a' => self.capture_center(AiSide::For),
            'o' => self.release_center(AiSide::For),
            's' => self.capture_center(AiSide::Against),
            'n' => self.release_center(AiSide::Against),
            _ => {},
        }
    }

    /// The housekeeping of a tick: an expired race is over, and a contested
    /// center without captures belongs to nobody.
    pub fn housekeep(&mut self, race_expired: bool)
        ensures
            final(self)@ == old(self)@.housekept(race_expired),
    {
        if race_expired {
            self.race = None;
        }
        let emptied: bool = match &self.center_capture {
            Some(center) => center.count() == 0,
            None => false,
        };
        if emptied {
            self.center_capture = None;
        }
    }

    /// The team that has won, if any: `For` is looked at first.
    pub fn winner(&self) -> (winner: Option<AiSide>)
        ensures
            winner == self@.winner(),
    {
        let for_won: bool = match &self.for_ai {
            Some(side) => side.has_won(),
            None => false,
        };
        let against_won: bool = match &self.against_ai {
            Some(side) => side.has_won(),
            None => false,
        };
        if for_won {
            Some(AiSide::For)
        } else if against_won {
            Some(AiSide::Against)
        } else {
            None
        }
    }

    /// Whether both teams have more than one player.
    pub fn team_play(&self) -> (team: bool)
        ensures
            team == self@.team_play(),
    {
        let for_many: bool = match &self.for_ai {
            Some(side) => side.nb_players() > 1,
            None => false,
        };
        let against_many: bool = match &self.against_ai {
            Some(side) => side.nb_players() > 1,
            None => false,
        };
        for_many && against_many
    }

    /// A challenge for the teams, as `draw_challenge` draws it.
    pub fn pick_challenge(&self) -> (text: &'static str)
        ensures
            challenge_offered(self@.team_play(), text@),
    {
        let mut rng = rand::thread_rng();
        draw_challenge(&mut rng, self.team_play())
    }
}

} // verus!
