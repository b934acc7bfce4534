//! What holds of the session whatever is played: the laws of progress, of
//! turns, of the contested center and of winning, each proved from the
//! definitions of the moves.

use vstd::prelude::*;
use crate::ai_side::AiSide;
use crate::app::{digit_value, AppModel, AppState, ChanceModel, Key};
use crate::capture::{
    center_bonus,
    turn_points,
    CaptureModel,
    CENTER_MULTIPLIER_DEN,
    CENTER_MULTIPLIER_NUM,
};
use crate::game::{GameModel, MAX_PLAYERS, MIN_PLAYERS};
use crate::generator::{
    capture_allowed,
    race_allowed,
    vpn_allowed,
    BUFFER_MAX_COL,
    BUFFER_MIN_COL,
};
use crate::position::Cell;
use crate::race::{finished_after, remaining_after, RaceModel, RACE_DURATION, RACE_POINTS};
use crate::side::{SideModel, TOTAL_PROGRESS};

verus! {

/// Switching teams twice gives the team back, and once never the team
/// itself.
pub proof fn law_switch_is_an_involution(side: AiSide)
    ensures
        side.opponent().opponent() == side,
        side.opponent() != side,
{
}

/// The bonus for captures of the contested center is the whole number
/// nearest to the count scaled by the center factor: it lies within one half
/// of `count * NUM / DEN`, and is the upper of two whole numbers that are
/// equally near.
pub proof fn law_center_bonus_is_nearest(count: nat)
    ensures
        2 * CENTER_MULTIPLIER_DEN * center_bonus(count) <= 2 * CENTER_MULTIPLIER_NUM * count
            + CENTER_MULTIPLIER_DEN,
        2 * CENTER_MULTIPLIER_NUM * count + CENTER_MULTIPLIER_DEN < 2 * CENTER_MULTIPLIER_DEN * (
        center_bonus(count) + 1),
{
    let scaled: int = 6 * (count as int) + 2;
    assert(2 * CENTER_MULTIPLIER_NUM * count + CENTER_MULTIPLIER_DEN == scaled) by (nonlinear_arith)
        requires
            CENTER_MULTIPLIER_NUM == 3,
            CENTER_MULTIPLIER_DEN == 2,
            scaled == 6 * count + 2,
    ;
    assert(2 * CENTER_MULTIPLIER_DEN == 4);
    let bonus: int = scaled / 4;
    assert(center_bonus(count) == bonus);
    assert(2 * CENTER_MULTIPLIER_DEN * center_bonus(count) == 4 * bonus) by (nonlinear_arith)
        requires
            CENTER_MULTIPLIER_DEN == 2,
            center_bonus(count) == bonus,
    ;
    assert(2 * CENTER_MULTIPLIER_DEN * (center_bonus(count) + 1) == 4 * (bonus + 1)) by (nonlinear_arith)
        requires
            CENTER_MULTIPLIER_DEN == 2,
            center_bonus(count) == bonus,
    ;
}

/// A change of a side's progress.
pub enum Move {
    /// The side gains that many points.
    Advance(nat),
    /// The side loses that many points.
    Retreat(nat),
}

/// The side after the move `m`.
pub open spec fn moved(side: SideModel, m: Move) -> SideModel {
    match m {
        Move::Advance(value) => side.advanced(value),
        Move::Retreat(value) => side.retreated(value),
    }
}

/// The side after the moves `moves`, the first one first.
pub open spec fn moved_all(side: SideModel, moves: Seq<Move>) -> SideModel
    decreases moves.len(),
{
    if moves.len() == 0 {
        side
    } else {
        moved(moved_all(side, moves.drop_last()), moves.last())
    }
}

/// Gaining points never lowers the progress and stops it at the total;
/// losing points never raises it and stops it at zero. Neither touches
/// anything but the progress.
pub proof fn law_moves_saturate(side: SideModel, value: nat)
    requires
        side.within_total(),
    ensures
        side.progress <= side.advanced(value).progress <= TOTAL_PROGRESS,
        side.advanced(value).progress == TOTAL_PROGRESS || side.advanced(value).progress
            == side.progress + value,
        0 <= side.retreated(value).progress <= side.progress,
        side.retreated(value).progress == 0 || side.retreated(value).progress == side.progress
            - value,
        side.advanced(value) == (SideModel { progress: side.advanced(value).progress, ..side }),
        side.retreated(value) == (SideModel { progress: side.retreated(value).progress, ..side }),
{
}

/// Whatever gains and losses follow one another, in whatever order, the
/// progress stays between zero and the total.
pub proof fn law_progress_within_total(side: SideModel, moves: Seq<Move>)
    requires
        side.within_total(),
    ensures
        moved_all(side, moves).within_total(),
    decreases moves.len(),
{
    if moves.len() > 0 {
        law_progress_within_total(side, moves.drop_last());
    }
}

/// The end of a turn passes the turn to the other team, and the end of the
/// next turn passes it back. The team that ended its turn has exactly one
/// more turn completed, as long as its counter can hold it; the other
/// team's side is left as it was.
pub proof fn law_turns_alternate(game: GameModel)
    ensures
        game.turn_ended().turn == game.turn.opponent(),
        game.turn_ended().turn != game.turn,
        game.turn_ended().turn_ended().turn == game.turn,
        game.turn_ended().side(game.turn.opponent()) == game.side(game.turn.opponent()),
        game.side(game.turn) is Some <==> game.turn_ended().side(game.turn) is Some,
        game.side(game.turn) matches Some(before) ==> game.turn_ended().side(game.turn) == Some(
            before.round_completed().advanced(
                turn_points(before.capture.count, game.center_share(game.turn)),
            ),
        ),
        game.side(game.turn) is Some && game.side(game.turn).unwrap().rounds < u32::MAX
            ==> game.turn_ended().side(game.turn).unwrap().rounds == game.side(
            game.turn,
        ).unwrap().rounds + 1,
        game.turn_ended().center_capture == game.center_capture,
        game.turn_ended().race == game.race,
{
}

/// A team that takes a capture of the contested center without owning the
/// center owns it afterwards with a count of one, whatever the other team
/// had counted there.
pub proof fn law_center_passes_with_one(game: GameModel, s: AiSide)
    requires
        game.center_capture matches Some(center) ==> center.owner != s,
    ensures
        game.center_captured(s).center_capture == Some(CaptureModel { count: 1, owner: s }),
        game.center_captured(s) == (GameModel {
            center_capture: Some(CaptureModel { count: 1, owner: s }),
            ..game
        }),
{
}

/// While a team owns the contested center, each capture that it gives up
/// lowers the count by one and stops at zero, and each that it takes raises
/// the count by one, as long as the tracker can hold it. The center stays
/// the team's own through both. The other team cannot give up captures
/// there.
pub proof fn law_center_owner_counts(game: GameModel, s: AiSide)
    requires
        game.center_capture matches Some(center) && center.owner == s,
    ensures
        game.center_released(s).center_capture == Some(
            CaptureModel {
                count: if game.center_capture.unwrap().count == 0 {
                    0
                } else {
                    (game.center_capture.unwrap().count - 1) as nat
                },
                owner: s,
            },
        ),
        game.center_capture.unwrap().count < u32::MAX ==> game.center_captured(s).center_capture
            == Some(CaptureModel { count: game.center_capture.unwrap().count + 1, owner: s }),
        game.center_released(s.opponent()) == game,
{
}

/// After a transfer of the contested center the new owner counts down from
/// one: the first capture that it gives up empties the center, and further
/// ones leave it empty.
pub proof fn law_center_after_transfer(game: GameModel, s: AiSide)
    requires
        game.center_capture matches Some(center) ==> center.owner != s,
    ensures
        game.center_captured(s).center_released(s).center_capture == Some(
            CaptureModel { count: 0, owner: s },
        ),
        game.center_captured(s).center_released(s).center_released(s).center_capture == Some(
            CaptureModel { count: 0, owner: s },
        ),
        game.center_captured(s).center_captured(s.opponent()).center_capture == Some(
            CaptureModel { count: 1, owner: s.opponent() },
        ),
{
}

/// A tick detects a win: where the session is not finished and a team has
/// reached the total, the session is finished after the tick and names that
/// team, `For` before `Against` where both have. The housekeeping of the
/// tick touches no side.
pub proof fn law_tick_declares_winner(app: AppModel, race_expired: bool)
    ensures
        app.ticked(race_expired).game.for_ai == app.game.for_ai,
        app.ticked(race_expired).game.against_ai == app.game.against_ai,
        app.ticked(race_expired).game.winner() == app.game.winner(),
        !(app.state is Finished) && app.game.winner() is Some ==> app.ticked(race_expired).state
            == AppState::Finished(app.game.winner().unwrap()),
        !(app.state is Finished) && app.game.winner() is None ==> app.ticked(race_expired).state
            == app.state,
{
}

/// A key that changes the score detects a win at once: after every key but
/// `Esc`, a session in which a team has reached the total is finished.
/// Where it was not finished before, it names the team that has won.
pub proof fn law_key_declares_winner(app: AppModel, key: Key, chance: ChanceModel)
    requires
        !(key is Esc),
    ensures
        app.key_applied(key, chance).game.winner() is Some ==> app.key_applied(key, chance).state
            is Finished,
        !(app.state is Finished) && app.key_applied(key, chance).game.winner() is Some
            ==> app.key_applied(key, chance).state == AppState::Finished(
            app.key_applied(key, chance).game.winner().unwrap(),
        ),
{
}

/// A finished session is final: no key and no tick changes the phase, the
/// team that it names, or any side. A key changes nothing at all but the
/// wish to quit.
pub proof fn law_finished_is_final(app: AppModel, key: Key, chance: ChanceModel, race_expired: bool)
    requires
        app.state is Finished,
    ensures
        app.key_applied(key, chance).state == app.state,
        app.key_applied(key, chance) == (AppModel {
            should_quit: app.key_applied(key, chance).should_quit,
            ..app
        }),
        app.ticked(race_expired).state == app.state,
        app.ticked(race_expired).game.for_ai == app.game.for_ai,
        app.ticked(race_expired).game.against_ai == app.game.against_ai,
{
}

/// In a session every phase but the last is free of a winner, and the last
/// names the winner: a team has reached the total if and only if the
/// session is finished.
pub proof fn law_finished_iff_won(app: AppModel)
    requires
        app.inv(),
    ensures
        app.state is Finished <==> app.game.winner() is Some,
        app.state matches AppState::Finished(side) ==> app.game.winner() == Some(side),
{
}

/// A second tick right after a tick changes nothing, the clock saying the
/// same of the race.
pub proof fn law_tick_is_idempotent(app: AppModel, race_expired: bool)
    ensures
        app.ticked(race_expired).ticked(race_expired) == app.ticked(race_expired),
{
}

/// The machine at the start of a session is sound.
pub proof fn law_initial_is_sound(title: Seq<char>, turn: AiSide)
    ensures
        AppModel::initial(title, turn).inv(),
{
}

/// A key keeps a sound machine sound, whatever the random source adds to
/// it within its rules.
pub proof fn law_key_keeps_sound(app: AppModel, key: Key, chance: ChanceModel)
    requires
        app.inv(),
        app.chance_fits(key, chance),
    ensures
        app.key_applied(key, chance).inv(),
{
}

/// A tick keeps a sound machine sound, whatever the clock says.
pub proof fn law_tick_keeps_sound(app: AppModel, race_expired: bool)
    requires
        app.inv(),
    ensures
        app.ticked(race_expired).inv(),
{
}

/// Every placement can be made: each team has a cell for a capture point
/// and a cell for its VPN, and a race has a cell to aim at.
pub proof fn law_placements_exist(side: AiSide)
    ensures
        exists|cell: Cell| capture_allowed(side, cell),
        exists|cell: Cell| vpn_allowed(side, cell),
        exists|cell: Cell| race_allowed(cell),
{
    let corner = Cell {
        row: 1,
        col: if side == AiSide::For {
            1
        } else {
            11
        },
    };
    assert(capture_allowed(side, corner));
    assert(race_allowed(corner));
    assert(vpn_allowed(side, Cell { row: 1, col: side.vpn_col() }));
}

/// No placement falls on an illegal cell, and every placement of a team
/// lies on the board, strictly on the team's half and outside the buffer
/// band around the center.
pub proof fn law_placements_avoid_illegal_cells(side: AiSide, cell: Cell)
    ensures
        capture_allowed(side, cell) ==> cell.on_board() && !cell.is_illegal() && side.half_holds(
            cell,
        ) && !(BUFFER_MIN_COL <= cell.col <= BUFFER_MAX_COL),
        vpn_allowed(side, cell) ==> cell.on_board() && !cell.is_illegal() && side.half_holds(cell)
            && !(BUFFER_MIN_COL <= cell.col <= BUFFER_MAX_COL),
        race_allowed(cell) ==> cell.on_board() && !cell.is_illegal(),
        capture_allowed(side, cell) ==> !capture_allowed(side.opponent(), cell),
        vpn_allowed(side, cell) ==> !vpn_allowed(side.opponent(), cell),
{
}

/// At most one race is open: a race that is offered while one is open is
/// dropped. A claim without an open race does nothing; a claim of the open
/// race ends it and pays the race points to the claiming team alone.
pub proof fn law_one_race_at_a_time(game: GameModel, race: RaceModel, s: AiSide)
    ensures
        game.race is Some ==> game.race_started(race) == game,
        game.race is None ==> game.race_started(race) == (GameModel { race: Some(race), ..game }),
        game.race is None ==> game.race_claimed(s) == game,
        game.race is Some ==> game.race_claimed(s).race is None,
        game.race is Some ==> game.race_claimed(s).side(s.opponent()) == game.side(s.opponent()),
        game.race is Some && game.side(s) is Some ==> game.race_claimed(s).side(s) == Some(
            game.side(s).unwrap().advanced(RACE_POINTS as nat),
        ),
{
}

/// The key `c` stands for a move or a challenge during play.
pub open spec fn play_key_has_meaning(c: char) -> bool {
    ||| c == '1'
    ||| c == '0'
    ||| c == '5'
    ||| c == '7'
    ||| c == 'i'
    ||| c == 'd'
    ||| c == 'e'
    ||| c == 'u'
    ||| c == 't'
    ||| c == 'h'
    ||| c == 'a'
    ||| c == 'o'
    ||| c == 's'
    ||| c == 'n'
    ||| c == 'f'
}

/// The key means something in the phase that the machine is in: an allowed
/// number of players or `Enter` after one while players are entered,
/// `Enter` while positions are shown, `Tab`, a move or the call of a
/// challenge during play, an answer to the challenge during a challenge.
/// `Esc` is left aside: it always means to quit.
pub open spec fn key_has_meaning(app: AppModel, key: Key) -> bool {
    match app.state {
        AppState::PlayerInput(s) => match key {
            Key::Enter => app.game.side(s) is Some,
            Key::Char(c) => digit_value(c) matches Some(count) && MIN_PLAYERS <= count
                <= MAX_PLAYERS,
            _ => false,
        },
        AppState::VPNPositions => key is Enter,
        AppState::CapturePositions => key is Enter,
        AppState::Play => match key {
            Key::Tab => true,
            Key::Char(c) => play_key_has_meaning(c),
            _ => false,
        },
        AppState::Challenge(_) => match key {
            Key::Char(c) => c == 'f' || c == 'q' || c == '1' || c == '0',
            _ => false,
        },
        AppState::Finished(_) => false,
    }
}

/// A key that means nothing in the phase of a sound machine changes
/// nothing: a number of players that is not allowed, a key other than
/// `Enter` while positions are shown, a key that is no move during play, a
/// key that is no answer to a challenge, and every key once the session is
/// finished.
pub proof fn law_meaningless_keys_change_nothing(app: AppModel, key: Key, chance: ChanceModel)
    requires
        app.inv(),
        app.chance_fits(key, chance),
        !(key is Esc),
        !key_has_meaning(app, key),
    ensures
        app.key_applied(key, chance) == app,
{
}

/// A race is finished exactly when its whole duration has passed, which is
/// exactly when no time is left of it. Until then the time left is what is
/// missing to the duration. Once finished, a race stays finished however
/// much more time passes.
pub proof fn law_race_finishes_for_good(elapsed: nat, later: nat)
    requires
        elapsed <= later,
    ensures
        finished_after(elapsed) <==> elapsed >= RACE_DURATION,
        finished_after(elapsed) <==> remaining_after(elapsed) == 0,
        !finished_after(elapsed) ==> remaining_after(elapsed) + elapsed == RACE_DURATION,
        remaining_after(later) <= remaining_after(elapsed) <= RACE_DURATION,
        finished_after(elapsed) ==> finished_after(later),
{
}

/// What happens to the machine: a key is pressed, with what the random
/// source adds to it, or the clock ticks, saying whether the race has
/// expired.
pub enum Event {
    Key(Key, ChanceModel),
    Tick(bool),
}

/// The machine after the event.
pub open spec fn happened(app: AppModel, event: Event) -> AppModel {
    match event {
        Event::Key(key, chance) => app.key_applied(key, chance),
        Event::Tick(race_expired) => app.ticked(race_expired),
    }
}

/// The event may happen to the machine: what the random source adds to a
/// key is within its rules. The clock may say anything.
pub open spec fn may_happen(app: AppModel, event: Event) -> bool {
    match event {
        Event::Key(key, chance) => app.chance_fits(key, chance),
        Event::Tick(_) => true,
    }
}

/// The machine after the events, the first one first.
pub open spec fn played(app: AppModel, events: Seq<Event>) -> AppModel
    decreases events.len(),
{
    if events.len() == 0 {
        app
    } else {
        happened(played(app, events.drop_last()), events.last())
    }
}

/// Each of the events may happen to the machine as the events before it
/// have left it.
pub open spec fn may_be_played(app: AppModel, events: Seq<Event>) -> bool
    decreases events.len(),
{
    if events.len() == 0 {
        true
    } else {
        may_be_played(app, events.drop_last()) && may_happen(
            played(app, events.drop_last()),
            events.last(),
        )
    }
}

/// The turns that a side has completed, none where the side is absent.
pub open spec fn rounds_of(side: Option<SideModel>) -> nat {
    match side {
        Some(side) => side.rounds,
        None => 0,
    }
}

/// No event adds more than one completed turn to a side.
pub proof fn law_event_adds_one_round_at_most(app: AppModel, event: Event)
    ensures
        rounds_of(happened(app, event).game.for_ai) <= rounds_of(app.game.for_ai) + 1,
        rounds_of(happened(app, event).game.against_ai) <= rounds_of(app.game.against_ai) + 1,
{
}

/// An event keeps a sound machine sound.
pub proof fn law_event_keeps_sound(app: AppModel, event: Event)
    requires
        app.inv(),
        may_happen(app, event),
    ensures
        happened(app, event).inv(),
{
    match event {
        Event::Key(key, chance) => {
            law_key_keeps_sound(app, key, chance);
        },
        Event::Tick(race_expired) => {
            law_tick_keeps_sound(app, race_expired);
        },
    }
}

/// Whatever happens in a session, the machine stays sound.
pub proof fn law_session_stays_sound(app: AppModel, events: Seq<Event>)
    requires
        app.inv(),
        may_be_played(app, events),
    ensures
        played(app, events).inv(),
    decreases events.len(),
{
    if events.len() > 0 {
        law_session_stays_sound(app, events.drop_last());
        law_event_keeps_sound(played(app, events.drop_last()), events.last());
    }
}

/// A side has completed no more turns than events have happened since the
/// start of the session.
pub proof fn law_rounds_count_events(title: Seq<char>, turn: AiSide, events: Seq<Event>)
    ensures
        rounds_of(played(AppModel::initial(title, turn), events).game.for_ai) <= events.len(),
        rounds_of(played(AppModel::initial(title, turn), events).game.against_ai) <= events.len(),
    decreases events.len(),
{
    if events.len() > 0 {
        law_rounds_count_events(title, turn, events.drop_last());
        law_event_adds_one_round_at_most(
            played(AppModel::initial(title, turn), events.drop_last()),
            events.last(),
        );
    }
}

/// `Tab` during play completes exactly one turn: in a sound machine whose
/// team on turn can still count a turn, the team on turn has exactly one
/// more turn completed, the other team has as many as before, and the turn
/// passes to the other team.
pub proof fn law_tab_completes_one_round(app: AppModel, chance: ChanceModel)
    requires
        app.inv(),
        app.state is Play,
        app.chance_fits(Key::Tab, chance),
        rounds_of(app.game.side(app.game.turn)) < u32::MAX,
    ensures
        app.key_applied(Key::Tab, chance).game.turn == app.game.turn.opponent(),
        app.key_applied(Key::Tab, chance).game.both_present(),
        rounds_of(app.key_applied(Key::Tab, chance).game.side(app.game.turn)) == rounds_of(
            app.game.side(app.game.turn),
        ) + 1,
        rounds_of(app.key_applied(Key::Tab, chance).game.side(app.game.turn.opponent()))
            == rounds_of(app.game.side(app.game.turn.opponent())),
{
}

/// In every session of fewer events than a turn counter can count, `Tab`
/// during play completes exactly one turn: the team on turn has exactly one
/// more turn completed, the other team has as many as before, and the turn
/// passes to the other team.
pub proof fn law_tab_completes_one_round_in_session(
    title: Seq<char>,
    turn: AiSide,
    events: Seq<Event>,
    chance: ChanceModel,
)
    requires
        events.len() < u32::MAX,
        may_be_played(AppModel::initial(title, turn), events),
        played(AppModel::initial(title, turn), events).state is Play,
        played(AppModel::initial(title, turn), events).chance_fits(Key::Tab, chance),
    ensures
        ({
            let app = played(AppModel::initial(title, turn), events);
            let after = app.key_applied(Key::Tab, chance);
            &&& after.game.turn == app.game.turn.opponent()
            &&& after.game.both_present()
            &&& rounds_of(after.game.side(app.game.turn)) == rounds_of(
                app.game.side(app.game.turn),
            ) + 1
            &&& rounds_of(after.game.side(app.game.turn.opponent())) == rounds_of(
                app.game.side(app.game.turn.opponent()),
            )
        }),
{
    let start = AppModel::initial(title, turn);
    law_session_stays_sound(start, events);
    law_rounds_count_events(title, turn, events);
    law_tab_completes_one_round(played(start, events), chance);
}

} // verus!
