//! The session state machine: which phase the session is in, what a key
//! press and a tick of the clock do to it.

use vstd::prelude::*;
use crate::ai_side::AiSide;
use crate::challenge::{challenge_offered, draw_other_challenge, CHALLENGE_POINTS};
use crate::game::{Game, GameModel};
use crate::generator::{
    capture_allowed,
    capture_position,
    race_allowed,
    random_side,
    vpn_allowed,
    vpn_position,
};
use crate::position::{Cell, Position};
use crate::race::{Race, RaceModel};
use crate::rng::gen_ratio;
use crate::side::SideModel;
use crate::title::Title;

verus! {

/// Out of how many turns `RACE_CHANCE_NUM` end with a new race, where none
/// is open.
pub const RACE_CHANCE_DEN: u32 = 5;

/// How many turns out of `RACE_CHANCE_DEN` end with a new race.
pub const RACE_CHANCE_NUM: u32 = 1;

/// A key of the moderator's keyboard.
#[derive(Clone, Copy, PartialEq, Eq, Debug, Structural)]
pub enum Key {
    Esc,
    Enter,
    Tab,
    Char(char),
    Other,
}

/// The phase of the session.
#[derive(Clone, Copy, Debug)]
pub enum AppState {
    /// The number of players of the given team is being entered.
    PlayerInput(AiSide),
    /// The VPN positions are shown.
    VPNPositions,
    /// The capture positions are shown.
    CapturePositions,
    /// The game is being played.
    Play,
    /// The given team has won.
    Finished(AiSide),
    /// The given challenge is being fought out.
    Challenge(&'static str),
}

/// What chance adds to one key press. A key press consults the random
/// source at most for one of these.
#[derive(Debug)]
pub enum Chance {
    /// Nothing was drawn.
    Nothing,
    /// The VPN cells of `For` and of `Against`.
    VpnPositions(Position, Position),
    /// The capture cells of `For`, of `Against` and of the contested point.
    CapturePositions(Position, Position, Position),
    /// A race to start.
    Race(Race),
    /// A challenge to fight out.
    Challenge(&'static str),
}

/// What chance adds to one key press, in mathematical terms.
pub enum ChanceModel {
    Nothing,
    VpnPositions(Cell, Cell),
    CapturePositions(Cell, Cell, Cell),
    Race(RaceModel),
    Challenge(&'static str),
}

impl View for Chance {
    type V = ChanceModel;

    open spec fn view(&self) -> ChanceModel {
        match *self {
            Chance::Nothing => ChanceModel::Nothing,
            Chance::VpnPositions(a, b) => ChanceModel::VpnPositions(a@, b@),
            Chance::CapturePositions(a, b, c) => ChanceModel::CapturePositions(a@, b@, c@),
            Chance::Race(race) => ChanceModel::Race(race@),
            Chance::Challenge(text) => ChanceModel::Challenge(text),
        }
    }
}

/// The number that the key `c` enters: its value where it is a decimal
/// digit.
pub open spec fn digit_value(c: char) -> Option<nat> {
    if '0' <= c && c <= '9' {
        Some((c as u32 - '0' as u32) as nat)
    } else {
        None
    }
}

/// The number that the key `c` enters.
pub fn digit_of(c: char) -> (digit: Option<u8>)
    ensures
        match digit {
            Some(d) => digit_value(c) == Some(d as nat),
            None => digit_value(c) is None,
        },
{
    if '0' <= c && c <= '9' {
        Some((c as u32 - '0' as u32) as u8)
    } else {
        None
    }
}

/// A side that may be absent is sound for the team `s`: its progress lies
/// within the total, its number of players is allowed, and its captures are
/// its own.
pub open spec fn side_sound(side: Option<SideModel>, s: AiSide) -> bool {
    side matches Some(side) ==> {
        &&& side.within_total()
        &&& crate::game::MIN_PLAYERS <= side.players <= crate::game::MAX_PLAYERS
        &&& side.capture.owner == s
    }
}

/// A side that may be absent has not been played with: it is as it was
/// made.
pub open spec fn side_untouched(side: Option<SideModel>, s: AiSide) -> bool {
    side matches Some(side) ==> side == SideModel::fresh(side.players, s)
}

/// What the session machine holds, in mathematical terms.
pub struct AppModel {
    pub title: Seq<char>,
    pub game: GameModel,
    pub state: AppState,
    pub vpn_positions: Option<(Cell, Cell)>,
    pub capture_positions: Option<(Cell, Cell, Cell)>,
    pub should_quit: bool,
}

impl AppModel {
    /// The machine at the start of a session: the number of players of
    /// `For` is asked for, and `turn` will move first.
    pub open spec fn initial(title: Seq<char>, turn: AiSide) -> AppModel {
        AppModel {
            title,
            game: GameModel::initial(turn),
            state: AppState::PlayerInput(AiSide::For),
            vpn_positions: None,
            capture_positions: None,
            should_quit: false,
        }
    }

    /// Nothing has been played yet: no side has been touched, nobody owns
    /// the contested center and no race is open.
    pub open spec fn unplayed(self) -> bool {
        &&& side_untouched(self.game.for_ai, AiSide::For)
        &&& side_untouched(self.game.against_ai, AiSide::Against)
        &&& self.game.center_capture is None
        &&& self.game.race is None
    }

    /// What holds of the machine at every moment of a session.
    pub open spec fn inv(self) -> bool {
        &&& side_sound(self.game.for_ai, AiSide::For)
        &&& side_sound(self.game.against_ai, AiSide::Against)
        &&& self.game.race matches Some(race) ==> race_allowed(race.target)
        &&& self.vpn_positions matches Some(cells) ==> {
            &&& vpn_allowed(AiSide::For, cells.0)
            &&& vpn_allowed(AiSide::Against, cells.1)
        }
        &&& self.capture_positions matches Some(cells) ==> {
            &&& capture_allowed(AiSide::For, cells.0)
            &&& capture_allowed(AiSide::Against, cells.1)
            &&& capture_allowed(AiSide::For, cells.2) || capture_allowed(AiSide::Against, cells.2)
        }
        &&& match self.state {
            AppState::PlayerInput(AiSide::For) => {
                &&& self.game.against_ai is None
                &&& self.vpn_positions is None
                &&& self.capture_positions is None
                &&& self.unplayed()
            },
            AppState::PlayerInput(AiSide::Against) => {
                &&& self.game.for_ai is Some
                &&& self.vpn_positions is None
                &&& self.capture_positions is None
                &&& self.unplayed()
            },
            AppState::VPNPositions => {
                &&& self.game.both_present()
                &&& self.vpn_positions is Some
                &&& self.capture_positions is None
                &&& self.unplayed()
            },
            AppState::CapturePositions => {
                &&& self.game.both_present()
                &&& self.vpn_positions is Some
                &&& self.capture_positions is Some
                &&& self.unplayed()
            },
            AppState::Play => {
                &&& self.game.both_present()
                &&& self.vpn_positions is Some
                &&& self.capture_positions is Some
                &&& self.game.winner() is None
            },
            AppState::Challenge(text) => {
                &&& self.game.both_present()
                &&& self.vpn_positions is Some
                &&& self.capture_positions is Some
                &&& self.game.winner() is None
                &&& challenge_offered(self.game.team_play(), text@)
            },
            AppState::Finished(side) => {
                &&& self.game.both_present()
                &&& self.vpn_positions is Some
                &&& self.capture_positions is Some
                &&& self.game.winner() == Some(side)
            },
        }
    }

    /// The machine after win detection. A finished session stays as it is.
    /// Else, where a team has won, the session is finished and names that
    /// team; `For` is looked at first.
    pub open spec fn settled(self) -> AppModel {
        match self.state {
            AppState::Finished(_) => self,
            _ => match self.game.winner() {
                Some(side) => AppModel { state: AppState::Finished(side), ..self },
                None => self,
            },
        }
    }

    /// The machine after a tick of the clock, `race_expired` saying whether
    /// the time of the race has run out: housekeeping, then win detection.
    pub open spec fn ticked(self, race_expired: bool) -> AppModel {
        (AppModel { game: self.game.housekept(race_expired), ..self }).settled()
    }

    /// The machine after `key` was pressed while the number of players of
    /// the team `s` was being entered. A digit enters that many players.
    /// `Enter` goes on, once the number has been entered: from `For` to
    /// `Against`, and from `Against` to the VPN positions that chance has
    /// drawn.
    pub open spec fn players_keyed(self, s: AiSide, key: Key, chance: ChanceModel) -> AppModel {
        match key {
            Key::Enter => if self.game.side(s) is Some {
                match s {
                    AiSide::For => AppModel {
                        state: AppState::PlayerInput(AiSide::Against),
                        ..self
                    },
                    AiSide::Against => match chance {
                        ChanceModel::VpnPositions(a, b) => AppModel {
                            vpn_positions: Some((a, b)),
                            state: AppState::VPNPositions,
                            ..self
                        },
                        _ => self,
                    },
                }
            } else {
                self
            },
            Key::Char(c) => match digit_value(c) {
                Some(count) => AppModel { game: self.game.players_confirmed(s, count), ..self },
                None => self,
            },
            _ => self,
        }
    }

    /// The machine after `key` was pressed while the VPN positions were
    /// shown: `Enter` goes on to the capture positions that chance has
    /// drawn.
    pub open spec fn vpn_keyed(self, key: Key, chance: ChanceModel) -> AppModel {
        match (key, chance) {
            (Key::Enter, ChanceModel::CapturePositions(a, b, c)) => AppModel {
                capture_positions: Some((a, b, c)),
                state: AppState::CapturePositions,
                ..self
            },
            _ => self,
        }
    }

    /// The machine after `key` was pressed while the capture positions were
    /// shown: `Enter` starts the play.
    pub open spec fn captures_keyed(self, key: Key) -> AppModel {
        match key {
            Key::Enter => AppModel { state: AppState::Play, ..self },
            _ => self,
        }
    }

    /// The machine after `key` was pressed during play. `Tab` ends the turn,
    /// and starts the race that chance has drawn, if any. `f` calls the
    /// challenge that chance has drawn, once both sides have been entered.
    /// Every other character is a move of the game.
    pub open spec fn play_keyed(self, key: Key, chance: ChanceModel) -> AppModel {
        match key {
            Key::Tab => AppModel {
                game: match chance {
                    ChanceModel::Race(race) => self.game.turn_ended().race_started(race),
                    _ => self.game.turn_ended(),
                },
                ..self
            },
            Key::Char(c) => if c == 'f' {
                match chance {
                    ChanceModel::Challenge(text) => if self.game.both_present() {
                        AppModel { state: AppState::Challenge(text), ..self }
                    } else {
                        self
                    },
                    _ => self,
                }
            } else {
                AppModel { game: self.game.key_played(c), ..self }
            },
            _ => self,
        }
    }

    /// The machine after `key` was pressed during a challenge. `f` changes
    /// to the challenge that chance has drawn, `q` calls the challenge off,
    /// `1` gives the challenge points to `For` and `0` to `Against`; after
    /// each of the last three the play goes on.
    pub open spec fn challenge_keyed(self, key: Key, chance: ChanceModel) -> AppModel {
        match key {
            Key::Char(c) => if c == 'f' {
                match chance {
                    ChanceModel::Challenge(text) => AppModel {
                        state: AppState::Challenge(text),
                        ..self
                    },
                    _ => self,
                }
            } else if c == 'q' {
                AppModel { state: AppState::Play, ..self }
            } else if c == '1' {
                AppModel {
                    game: self.game.side_advanced(AiSide::For, CHALLENGE_POINTS as nat),
                    state: AppState::Play,
                    ..self
                }
            } else if c == '0' {
                AppModel {
                    game: self.game.side_advanced(AiSide::Against, CHALLENGE_POINTS as nat),
                    state: AppState::Play,
                    ..self
                }
            } else {
                self
            },
            _ => self,
        }
    }

    /// The machine after `key` was pressed, by the phase it is in. A
    /// finished session takes no key.
    pub open spec fn phase_keyed(self, key: Key, chance: ChanceModel) -> AppModel {
        match self.state {
            AppState::PlayerInput(s) => self.players_keyed(s, key, chance),
            AppState::VPNPositions => self.vpn_keyed(key, chance),
            AppState::CapturePositions => self.captures_keyed(key),
            AppState::Play => self.play_keyed(key, chance),
            AppState::Challenge(_) => self.challenge_keyed(key, chance),
            AppState::Finished(_) => self,
        }
    }

    /// The machine after `key` was pressed, `chance` being what the random
    /// source has added. `Esc` asks to quit and does nothing else. Every
    /// other key acts by the phase, and win detection follows.
    pub open spec fn key_applied(self, key: Key, chance: ChanceModel) -> AppModel {
        match key {
            Key::Esc => AppModel { should_quit: true, ..self },
            _ => self.phase_keyed(key, chance).settled(),
        }
    }

    /// `chance` is what the random source may add to `key` in this state:
    /// cells that obey the placement rules where the key reveals positions,
    /// a race with an allowed target, or nothing, where the key ends a turn
    /// and no race is open, an offered challenge where the key calls one,
    /// an offered challenge that differs from the present one where the key
    /// changes it, and nothing in every other case.
    pub open spec fn chance_fits(self, key: Key, chance: ChanceModel) -> bool {
        match (self.state, key) {
            (AppState::PlayerInput(AiSide::Against), Key::Enter) => if self.game.against_ai
                is Some {
                chance matches ChanceModel::VpnPositions(a, b) && vpn_allowed(AiSide::For, a)
                    && vpn_allowed(AiSide::Against, b)
            } else {
                chance is Nothing
            },
            (AppState::VPNPositions, Key::Enter) => {
                &&& chance matches ChanceModel::CapturePositions(a, b, c)
                &&& capture_allowed(AiSide::For, a)
                &&& capture_allowed(AiSide::Against, b)
                &&& capture_allowed(AiSide::For, c) || capture_allowed(AiSide::Against, c)
            },
            (AppState::Play, Key::Tab) => {
                ||| chance is Nothing
                ||| {
                    &&& self.game.race is None
                    &&& chance matches ChanceModel::Race(race)
                    &&& race_allowed(race.target)
                }
            },
            (AppState::Play, Key::Char(c)) => if c == 'f' && self.game.both_present() {
                chance matches ChanceModel::Challenge(text) && challenge_offered(
                    self.game.team_play(),
                    text@,
                )
            } else {
                chance is Nothing
            },
            (AppState::Challenge(current), Key::Char(c)) => if c == 'f' {
                &&& chance matches ChanceModel::Challenge(text)
                &&& challenge_offered(self.game.team_play(), text@)
                &&& text@ != current@
            } else {
                chance is Nothing
            },
            _ => chance is Nothing,
        }
    }
}

/// The greeting that the title shows.
pub const WELCOME: &'static str =
    "Welcome to CyberConnect!    Fight against the other team to control the AI \"Lucy\".    You have many funny mechanics to discover along the way :)    Have Fun !";

/// The cells of two positions that may be absent.
pub open spec fn pair_model(cells: Option<(Position, Position)>) -> Option<(Cell, Cell)> {
    match cells {
        Some((a, b)) => Some((a@, b@)),
        None => None,
    }
}

/// The cells of three positions that may be absent.
pub open spec fn triple_model(cells: Option<(Position, Position, Position)>) -> Option<
    (Cell, Cell, Cell),
> {
    match cells {
        Some((a, b, c)) => Some((a@, b@, c@)),
        None => None,
    }
}

/// The session state machine.
#[derive(Debug)]
pub struct App<'a> {
    title: Title<'a>,
    game: Game,
    state: AppState,
    vpn_positions: Option<(Position, Position)>,
    capture_positions: Option<(Position, Position, Position)>,
    /// Whether the moderator has asked to quit.
    pub should_quit: bool,
}

impl View for App<'_> {
    type V = AppModel;

    closed spec fn view(&self) -> AppModel {
        AppModel {
            title: self.title@,
            game: self.game@,
            state: self.state,
            vpn_positions: pair_model(self.vpn_positions),
            capture_positions: triple_model(self.capture_positions),
            should_quit: self.should_quit,
        }
    }
}

impl App<'_> {
    /// The machine at the start of a session, with the team to move first
    /// drawn with equal chance.
    pub fn new() -> (app: App<'static>)
        ensures
            app@ == AppModel::initial(WELCOME@, app@.game.turn),
            app@.inv(),
    {
        let mut rng = rand::thread_rng();
        App::starting_with(random_side(&mut rng))
    }

    /// The machine at the start of a session, with `turn` to move first.
    pub fn starting_with(turn: AiSide) -> (app: App<'static>)
        ensures
            app@ == AppModel::initial(WELCOME@, turn),
            app@.inv(),
    {
        App {
            title: Title::new(WELCOME),
            game: Game::starting_with(turn),
            state: AppState::PlayerInput(AiSide::For),
            should_quit: false,
            vpn_positions: None,
            capture_positions: None,
        }
    }

    /// The title.
    pub fn title(&self) -> (title: &Title)
        ensures
            title@ == self@.title,
    {
        &self.title
    }

    /// The session's data.
    pub fn game(&self) -> (game: &Game)
        ensures
            game@ == self@.game,
    {
        &self.game
    }

    /// The phase of the session.
    pub fn state(&self) -> (state: AppState)
        ensures
            state == self@.state,
    {
        self.state
    }

    /// The VPN positions of `For` and of `Against`, once they are drawn.
    pub fn vpn_positions(&self) -> (cells: Option<(Position, Position)>)
        ensures
            pair_model(cells) == self@.vpn_positions,
    {
        self.vpn_positions
    }

    /// The capture positions of `For`, of `Against` and of the contested
    /// point, once they are drawn.
    pub fn capture_positions(&self) -> (cells: Option<(Position, Position, Position)>)
        ensures
            triple_model(cells) == self@.capture_positions,
    {
        self.capture_positions
    }

    /// Win detection: where the session is not finished and a team has won,
    /// the session is finished and names that team.
    fn settle(&mut self)
        ensures
            final(self)@ == old(self)@.settled(),
    {
        match self.state {
            AppState::Finished(_) => {},
            _ => {
                match self.game.winner() {
                    Some(side) => {
                        self.state = AppState::Finished(side);
                    },
                    None => {},
                }
            },
        }
    }

    /// A tick of the clock, `race_expired` saying whether the time of the
    /// race has run out: an expired race is over, a contested center
    /// without captures belongs to nobody, and a win is detected.
    pub fn tick(&mut self, race_expired: bool)
        ensures
            final(self)@ == old(self)@.ticked(race_expired),
            old(self)@.inv() ==> final(self)@.inv(),
    {
        self.game.housekeep(race_expired);
        self.settle();
    }

    /// A tick of the clock. The clock decides whether the time of the race
    /// has run out; whatever it says, the machine does what `tick` does.
    pub fn on_tick(&mut self)
        ensures
            exists|race_expired: bool| final(self)@ == old(self)@.ticked(race_expired),
            old(self)@.inv() ==> final(self)@.inv(),
    {
        let race_expired: bool = match self.game.race() {
            Some(race) => race.is_finished(),
            None => false,
        };
        self.tick(race_expired);
    }

    /// A key pressed while the number of players of `ai_side` is entered.
    fn key_players(&mut self, ai_side: AiSide, code: Key, chance: Chance)
        ensures
            final(self)@ == old(self)@.players_keyed(ai_side, code, chance@),
    {
        match code {
            Key::Enter => {
                if self.game.side(ai_side).is_some() {
                    match ai_side {
                        AiSide::For => {
                            self.state = AppState::PlayerInput(AiSide::Against);
                        },
                        AiSide::Against => {
                            match chance {
                                Chance::VpnPositions(a, b) => {
                                    self.vpn_positions = Some((a, b));
                                    self.state = AppState::VPNPositions;
                                },
                                _ => {},
                            }
                        },
                    }
                }
            },
            Key::Char(c) => {
                match digit_of(c) {
                    Some(count) => {
                        self.game.confirm_players(ai_side, count);
                    },
                    None => {},
                }
            },
            _ => {},
        }
    }

    /// A key pressed while the VPN positions are shown.
    fn key_vpn(&mut self, code: Key, chance: Chance)
        ensures
            final(self)@ == old(self)@.vpn_keyed(code, chance@),
    {
        match (code, chance) {
            (Key::Enter, Chance::CapturePositions(a, b, c)) => {
                self.capture_positions = Some((a, b, c));
                self.state = AppState::CapturePositions;
            },
            _ => {},
        }
    }

    /// A key pressed while the capture positions are shown.
    fn key_captures(&mut self, code: Key)
        ensures
            final(self)@ == old(self)@.captures_keyed(code),
    {
        match code {
            Key::Enter => {
                self.state = AppState::Play;
            },
            _ => {},
        }
    }

    /// A key pressed during play.
    fn key_play(&mut self, code: Key, chance: Chance)
        ensures
            final(self)@ == old(self)@.play_keyed(code, chance@),
    {
        match code {
            Key::Tab => {
                self.game.end_turn();
                match chance {
                    Chance::Race(race) => {
                        self.game.start_race(race);
                    },
                    _ => {},
                }
            },
            Key::Char(c) => {
                if c == 'f' {
                    match chance {
                        Chance::Challenge(text) => {
                            if self.game.both_present() {
                                self.state = AppState::Challenge(text);
                            }
                        },
                        _ => {},
                    }
                } else {
                    self.game.play_key(c);
                }
            },
            _ => {},
        }
    }

    /// A key pressed during a challenge.
    fn key_challenge(&mut self, code: Key, chance: Chance)
        ensures
            final(self)@ == old(self)@.challenge_keyed(code, chance@),
    {
        match code {
            Key::Char(c) => {
                if c == 'f' {
                    match chance {
                        Chance::Challenge(text) => {
                            self.state = AppState::Challenge(text);
                        },
                        _ => {},
                    }
                } else if c == 'q' {
                    self.state = AppState::Play;
                } else if c == '1' {
                    self.game.advance_side(AiSide::For, CHALLENGE_POINTS);
                    self.state = AppState::Play;
                } else if c == '0' {
                    self.game.advance_side(AiSide::Against, CHALLENGE_POINTS);
                    self.state = AppState::Play;
                }
            },
            _ => {},
        }
    }

    /// The key `code`, with `chance` for what the random source adds to it.
    /// `Esc` asks to quit. Every other key acts by the phase of the session,
    /// and win detection follows. A `chance` of a kind that the key has no
    /// use for is dropped; one that the key needs and does not get leaves
    /// the machine as it is.
    pub fn apply_key(&mut self, code: Key, chance: Chance)
        ensures
            final(self)@ == old(self)@.key_applied(code, chance@),
            old(self)@.inv() && old(self)@.chance_fits(code, chance@) ==> final(self)@.inv(),
    {
        if let Key::Esc = code {
            self.should_quit = true;
            return;
        }
        match self.state {
            AppState::PlayerInput(ai_side) => self.key_players(ai_side, code, chance),
            AppState::VPNPositions => self.key_vpn(code, chance),
            AppState::CapturePositions => self.key_captures(code),
            AppState::Play => self.key_play(code, chance),
            AppState::Challenge(_) => self.key_challenge(code, chance),
            AppState::Finished(_) => {},
        }
        self.settle();
    }

    /// What the random source adds to the key `code` in the present state:
    /// the VPN positions or the capture positions where the key reveals
    /// them, a race where the key ends a turn, no race is open and the roll
    /// succeeds, a challenge where the key calls or changes one.
    pub fn chance_for(&self, code: Key) -> (chance: Chance)
        ensures
            self@.chance_fits(code, chance@),
    {
        let mut rng = rand::thread_rng();
        match (self.state, code) {
            (AppState::PlayerInput(AiSide::Against), Key::Enter) => {
                if self.game.against_ai().is_some() {
                    let for_ai = vpn_position(&mut rng, AiSide::For);
                    let against_ai = vpn_position(&mut rng, AiSide::Against);
                    Chance::VpnPositions(for_ai, against_ai)
                } else {
                    Chance::Nothing
                }
            },
            (AppState::VPNPositions, Key::Enter) => {
                let for_ai = capture_position(&mut rng, AiSide::For);
                let against_ai = capture_position(&mut rng, AiSide::Against);
                let contested = random_side(&mut rng);
                let center = capture_position(&mut rng, contested);
                Chance::CapturePositions(for_ai, against_ai, center)
            },
            (AppState::Play, Key::Tab) => {
                if self.game.race().is_none() && gen_ratio(
                    &mut rng,
                    RACE_CHANCE_NUM,
                    RACE_CHANCE_DEN,
                ) {
                    Chance::Race(Race::new())
                } else {
                    Chance::Nothing
                }
            },
            (AppState::Play, Key::Char(c)) => {
                if c == 'f' && self.game.both_present() {
                    Chance::Challenge(self.game.pick_challenge())
                } else {
                    Chance::Nothing
                }
            },
            (AppState::Challenge(current), Key::Char(c)) => {
                if c == 'f' {
                    Chance::Challenge(
                        draw_other_challenge(&mut rng, self.game.team_play(), current),
                    )
                } else {
                    Chance::Nothing
                }
            },
            _ => Chance::Nothing,
        }
    }

    /// The key `code`: the random source is consulted for what the key
    /// needs, and the key is applied as `apply_key` applies it.
    pub fn on_key(&mut self, code: Key)
        ensures
            exists|chance: ChanceModel|
                old(self)@.chance_fits(code, chance) && final(self)@ == old(self)@.key_applied(
                    code,
                    chance,
                ),
            old(self)@.inv() ==> final(self)@.inv(),
    {
        let chance = self.chance_for(code);
        self.apply_key(code, chance);
    }
}

} // verus!
