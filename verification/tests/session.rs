use cyberconnect::ai_side::AiSide;
use cyberconnect::app::{digit_of, App, AppState, Chance, Key, RACE_CHANCE_DEN, RACE_CHANCE_NUM, WELCOME};
use cyberconnect::challenge::{solo_challenges, team_challenges};
use cyberconnect::generator::capture_legal;
use cyberconnect::position::Position;
use cyberconnect::race::Race;
use cyberconnect::title::Title;
use std::time::{Duration, Instant};

fn at(row: u8, col: u8) -> Position {
    Position::new(row, col).unwrap()
}

fn press(app: &mut App, keys: &str) {
    for c in keys.chars() {
        app.on_key(Key::Char(c));
    }
}

fn vpn_cells() -> Chance {
    Chance::VpnPositions(at(2, 3), at(6, 9))
}

fn capture_cells() -> Chance {
    Chance::CapturePositions(at(1, 2), at(7, 10), at(3, 4))
}

fn race_at(row: u8, col: u8) -> Race {
    Race::starting_at(Instant::now(), at(row, col))
}

/// A session with `for_ai` and `against_ai` players that has reached the
/// play, `turn` to move first.
fn playing(turn: AiSide, for_ai: char, against_ai: char) -> App<'static> {
    let mut app = App::starting_with(turn);
    app.apply_key(Key::Char(for_ai), Chance::Nothing);
    app.apply_key(Key::Enter, Chance::Nothing);
    app.apply_key(Key::Char(against_ai), Chance::Nothing);
    app.apply_key(Key::Enter, vpn_cells());
    app.apply_key(Key::Enter, capture_cells());
    app.apply_key(Key::Enter, Chance::Nothing);
    assert!(matches!(app.state(), AppState::Play));
    app
}

fn progress(app: &App, side: AiSide) -> u32 {
    app.game().side(side).unwrap().progress()
}

fn rounds(app: &App, side: AiSide) -> u32 {
    app.game().side(side).unwrap().nb_rounds()
}

fn captures(app: &App, side: AiSide) -> u32 {
    app.game().side(side).unwrap().capture().count()
}

fn center(app: &App) -> Option<(u32, AiSide)> {
    app.game().center_capture().map(|capture| (capture.count(), capture.ai_side()))
}

#[test]
fn digit_keys() {
    for (i, c) in "0123456789".chars().enumerate() {
        assert_eq!(digit_of(c), Some(i as u8));
    }
    for c in ['a', 'f', ' ', '/', ':', 'é', '٣', '\u{0}'] {
        assert_eq!(digit_of(c), None);
    }
}

#[test]
fn race_chance_is_one_in_five() {
    assert_eq!((RACE_CHANCE_NUM, RACE_CHANCE_DEN), (1, 5));
}

#[test]
fn title_keeps_its_text() {
    assert_eq!(Title::new("hello").text(), "hello");
    assert_eq!(Title::new("").text(), "");
}

#[test]
fn session_starts_by_asking_for_the_players_of_for() {
    for turn in [AiSide::For, AiSide::Against] {
        let app = App::starting_with(turn);
        assert!(matches!(app.state(), AppState::PlayerInput(AiSide::For)));
        assert_eq!(app.game().turn(), turn);
        assert!(app.game().for_ai().is_none());
        assert!(app.game().against_ai().is_none());
        assert!(app.game().center_capture().is_none());
        assert!(app.game().race().is_none());
        assert!(app.vpn_positions().is_none());
        assert!(app.capture_positions().is_none());
        assert!(!app.should_quit);
        assert_eq!(app.title().text(), WELCOME);
    }
    let app = App::new();
    assert!(matches!(app.state(), AppState::PlayerInput(AiSide::For)));
    assert!(app.game().for_ai().is_none());
    assert!(!app.should_quit);
    assert!(app.title().text().starts_with("Welcome to CyberConnect!"));
}

#[test]
fn enter_waits_for_the_number_of_players() {
    let mut app = App::starting_with(AiSide::For);
    app.on_key(Key::Enter);
    assert!(matches!(app.state(), AppState::PlayerInput(AiSide::For)));
    for c in ['0', '4', '9', 'x', 'f', ' '] {
        app.on_key(Key::Char(c));
        assert!(app.game().for_ai().is_none());
        app.on_key(Key::Enter);
        assert!(matches!(app.state(), AppState::PlayerInput(AiSide::For)));
    }
    app.on_key(Key::Tab);
    app.on_key(Key::Other);
    assert!(matches!(app.state(), AppState::PlayerInput(AiSide::For)));
    app.on_key(Key::Char('3'));
    assert_eq!(app.game().for_ai().unwrap().nb_players(), 3);
    assert!(matches!(app.state(), AppState::PlayerInput(AiSide::For)));
    app.on_key(Key::Char('1'));
    assert_eq!(app.game().for_ai().unwrap().nb_players(), 1);
    app.on_key(Key::Char('7'));
    assert_eq!(app.game().for_ai().unwrap().nb_players(), 1);
    assert!(app.game().against_ai().is_none());
    app.on_key(Key::Enter);
    assert!(matches!(app.state(), AppState::PlayerInput(AiSide::Against)));
    app.on_key(Key::Enter);
    assert!(matches!(app.state(), AppState::PlayerInput(AiSide::Against)));
    assert!(app.vpn_positions().is_none());
    app.on_key(Key::Char('2'));
    assert_eq!(app.game().against_ai().unwrap().nb_players(), 2);
    assert_eq!(app.game().for_ai().unwrap().nb_players(), 1);
    assert!(matches!(app.state(), AppState::PlayerInput(AiSide::Against)));
}

#[test]
fn setup_reveals_vpn_then_capture_positions() {
    for _ in 0..200 {
        let mut app = App::new();
        press(&mut app, "2");
        app.on_key(Key::Enter);
        press(&mut app, "3");
        app.on_key(Key::Enter);
        assert!(matches!(app.state(), AppState::VPNPositions));
        let (for_ai, against_ai) = app.vpn_positions().unwrap();
        assert_eq!(for_ai.col(), 3);
        assert_eq!(against_ai.col(), 9);
        assert!((1..=7).contains(&for_ai.row()));
        assert!((1..=7).contains(&against_ai.row()));
        assert!(app.capture_positions().is_none());
        press(&mut app, "12fq");
        app.on_key(Key::Tab);
        assert!(matches!(app.state(), AppState::VPNPositions));
        assert_eq!(app.game().for_ai().unwrap().nb_players(), 2);
        app.on_key(Key::Enter);
        assert!(matches!(app.state(), AppState::CapturePositions));
        let (for_ai, against_ai, contested) = app.capture_positions().unwrap();
        assert!(capture_legal(AiSide::For, &for_ai));
        assert!(capture_legal(AiSide::Against, &against_ai));
        assert!(
            capture_legal(AiSide::For, &contested) || capture_legal(AiSide::Against, &contested)
        );
        assert_eq!(app.vpn_positions().unwrap().0.col(), 3);
        press(&mut app, "eia1");
        app.on_key(Key::Tab);
        assert!(matches!(app.state(), AppState::CapturePositions));
        app.on_key(Key::Enter);
        assert!(matches!(app.state(), AppState::Play));
        assert_eq!(app.game().for_ai().unwrap().progress(), 0);
        assert_eq!(app.game().for_ai().unwrap().capture().count(), 0);
        assert_eq!(app.game().against_ai().unwrap().nb_players(), 3);
        assert!(app.game().center_capture().is_none());
        assert!(app.game().race().is_none());
    }
}

#[test]
fn contested_capture_point_falls_on_either_half() {
    let mut halves = std::collections::BTreeSet::new();
    for _ in 0..300 {
        let mut app = App::new();
        press(&mut app, "1");
        app.on_key(Key::Enter);
        press(&mut app, "1");
        app.on_key(Key::Enter);
        app.on_key(Key::Enter);
        let (_, _, contested) = app.capture_positions().unwrap();
        halves.insert(contested.col() < 6);
    }
    assert_eq!(halves.len(), 2);
}

#[test]
fn apply_key_stores_the_cells_it_is_given() {
    let mut app = App::starting_with(AiSide::For);
    app.apply_key(Key::Char('2'), Chance::Nothing);
    app.apply_key(Key::Enter, Chance::Nothing);
    app.apply_key(Key::Char('2'), Chance::Nothing);
    app.apply_key(Key::Enter, Chance::Nothing);
    assert!(matches!(app.state(), AppState::PlayerInput(AiSide::Against)));
    app.apply_key(Key::Enter, capture_cells());
    assert!(matches!(app.state(), AppState::PlayerInput(AiSide::Against)));
    app.apply_key(Key::Enter, vpn_cells());
    assert!(matches!(app.state(), AppState::VPNPositions));
    assert_eq!(app.vpn_positions(), Some((at(2, 3), at(6, 9))));
    app.apply_key(Key::Enter, Chance::Nothing);
    app.apply_key(Key::Enter, vpn_cells());
    assert!(matches!(app.state(), AppState::VPNPositions));
    assert!(app.capture_positions().is_none());
    app.apply_key(Key::Tab, capture_cells());
    assert!(matches!(app.state(), AppState::VPNPositions));
    app.apply_key(Key::Enter, capture_cells());
    assert!(matches!(app.state(), AppState::CapturePositions));
    assert_eq!(app.capture_positions(), Some((at(1, 2), at(7, 10), at(3, 4))));
    assert_eq!(app.vpn_positions(), Some((at(2, 3), at(6, 9))));
    app.apply_key(Key::Enter, capture_cells());
    assert!(matches!(app.state(), AppState::Play));
    assert_eq!(app.capture_positions(), Some((at(1, 2), at(7, 10), at(3, 4))));
}

#[test]
fn scenario_for_ends_its_turn_with_three_captures() {
    let mut app = App::starting_with(AiSide::For);
    press(&mut app, "2");
    app.on_key(Key::Enter);
    press(&mut app, "2");
    app.on_key(Key::Enter);
    assert!(matches!(app.state(), AppState::VPNPositions));
    assert!(app.vpn_positions().is_some());
    app.on_key(Key::Enter);
    assert!(matches!(app.state(), AppState::CapturePositions));
    assert!(app.capture_positions().is_some());
    app.on_key(Key::Enter);
    assert!(matches!(app.state(), AppState::Play));
    press(&mut app, "eee");
    assert_eq!(captures(&app, AiSide::For), 3);
    assert_eq!(center(&app), None);
    let before = progress(&app, AiSide::For);
    app.on_key(Key::Tab);
    assert_eq!(progress(&app, AiSide::For), before + 1 * 3);
    assert_eq!(progress(&app, AiSide::For), 3);
    assert_eq!(rounds(&app, AiSide::Against), 0);
    assert_eq!(rounds(&app, AiSide::For), 1);
    assert_eq!(progress(&app, AiSide::Against), 0);
    assert_eq!(app.game().turn(), AiSide::Against);
    assert!(matches!(app.state(), AppState::Play));
}

#[test]
fn scenario_against_claims_the_race() {
    let mut app = playing(AiSide::For, '2', '2');
    app.apply_key(Key::Tab, Chance::Race(race_at(5, 8)));
    assert_eq!(*app.game().race().unwrap().position(), at(5, 8));
    let before = progress(&app, AiSide::Against);
    app.on_key(Key::Char('0'));
    assert_eq!(progress(&app, AiSide::Against), before + 5);
    assert!(app.game().race().is_none());
    assert_eq!(progress(&app, AiSide::For), 0);
    app.on_key(Key::Char('0'));
    assert_eq!(progress(&app, AiSide::Against), before + 5);
}

#[test]
fn scenario_a_rolled_race_is_claimed() {
    let mut app = playing(AiSide::Against, '1', '2');
    let mut tabs = 0;
    while app.game().race().is_none() {
        app.on_key(Key::Tab);
        tabs += 1;
        assert!(tabs < 10_000);
    }
    assert!(!app.game().race().unwrap().position().is_illegal());
    assert_eq!(progress(&app, AiSide::Against), 0);
    app.on_key(Key::Char('0'));
    assert_eq!(progress(&app, AiSide::Against), 5);
    assert!(app.game().race().is_none());
}

#[test]
fn scenario_the_center_changes_hands() {
    let mut app = playing(AiSide::For, '2', '2');
    assert_eq!(center(&app), None);
    app.on_key(Key::Char('a'));
    assert_eq!(center(&app), Some((1, AiSide::For)));
    app.on_key(Key::Char('s'));
    assert_eq!(center(&app), Some((1, AiSide::Against)));
    let mut app = playing(AiSide::For, '2', '2');
    press(&mut app, "aaaa");
    assert_eq!(center(&app), Some((4, AiSide::For)));
    press(&mut app, "s");
    assert_eq!(center(&app), Some((1, AiSide::Against)));
    press(&mut app, "o");
    assert_eq!(center(&app), Some((1, AiSide::Against)));
    press(&mut app, "n");
    assert_eq!(center(&app), Some((0, AiSide::Against)));
    press(&mut app, "n");
    assert_eq!(center(&app), Some((0, AiSide::Against)));
    app.tick(false);
    assert_eq!(center(&app), None);
}

#[test]
fn tab_starts_at_most_one_race() {
    let mut app = playing(AiSide::For, '1', '1');
    app.apply_key(Key::Tab, Chance::Nothing);
    assert!(app.game().race().is_none());
    app.apply_key(Key::Tab, Chance::Race(race_at(1, 1)));
    assert_eq!(*app.game().race().unwrap().position(), at(1, 1));
    app.apply_key(Key::Tab, Chance::Race(race_at(7, 7)));
    assert_eq!(*app.game().race().unwrap().position(), at(1, 1));
    assert_eq!(rounds(&app, AiSide::For), 2);
    assert_eq!(rounds(&app, AiSide::Against), 1);
    assert_eq!(app.game().turn(), AiSide::Against);
    for _ in 0..500 {
        app.on_key(Key::Tab);
        assert_eq!(*app.game().race().unwrap().position(), at(1, 1));
    }
}

#[test]
fn races_start_about_every_fifth_turn() {
    let mut started = 0;
    let turns = 5_000;
    let mut app = playing(AiSide::For, '1', '1');
    for _ in 0..turns {
        app.on_key(Key::Tab);
        if app.game().race().is_some() {
            started += 1;
            app.tick(true);
        }
    }
    assert!(started > turns / 10, "{} races", started);
    assert!(started < turns * 3 / 10, "{} races", started);
}

#[test]
fn turns_alternate_through_the_session() {
    for first in [AiSide::For, AiSide::Against] {
        let mut app = playing(first, '3', '1');
        let mut expected = first;
        for turn in 1..=40u32 {
            app.on_key(Key::Tab);
            expected = expected.switch();
            assert_eq!(app.game().turn(), expected);
            assert_eq!(rounds(&app, first), (turn + 1) / 2);
            assert_eq!(rounds(&app, first.switch()), turn / 2);
            assert_eq!(rounds(&app, AiSide::For) + rounds(&app, AiSide::Against), turn);
        }
    }
}

#[test]
fn play_keys_reach_the_game() {
    let mut app = playing(AiSide::For, '2', '3');
    press(&mut app, "i");
    assert_eq!(progress(&app, AiSide::For), 7);
    press(&mut app, "dd");
    assert_eq!(progress(&app, AiSide::Against), 14);
    press(&mut app, "5557");
    assert_eq!(progress(&app, AiSide::For), 4);
    assert_eq!(progress(&app, AiSide::Against), 13);
    press(&mut app, "eeut");
    assert_eq!(captures(&app, AiSide::For), 1);
    assert_eq!(captures(&app, AiSide::Against), 1);
    press(&mut app, "hhh");
    assert_eq!(captures(&app, AiSide::Against), 0);
    press(&mut app, "xyzEIA 2");
    app.on_key(Key::Enter);
    app.on_key(Key::Other);
    assert_eq!(progress(&app, AiSide::For), 4);
    assert_eq!(progress(&app, AiSide::Against), 13);
    assert_eq!(captures(&app, AiSide::For), 1);
    assert_eq!(app.game().for_ai().unwrap().nb_players(), 2);
    assert_eq!(app.game().against_ai().unwrap().nb_players(), 3);
    assert!(matches!(app.state(), AppState::Play));
    assert_eq!(app.game().turn(), AiSide::For);
}

#[test]
fn esc_asks_to_quit_in_every_phase() {
    let mut app = App::starting_with(AiSide::For);
    app.on_key(Key::Esc);
    assert!(app.should_quit);
    assert!(matches!(app.state(), AppState::PlayerInput(AiSide::For)));
    let mut app = playing(AiSide::For, '1', '1');
    press(&mut app, "ie");
    app.on_key(Key::Esc);
    assert!(app.should_quit);
    assert!(matches!(app.state(), AppState::Play));
    assert_eq!(progress(&app, AiSide::For), 7);
    assert_eq!(captures(&app, AiSide::For), 1);
    app.on_key(Key::Char('i'));
    assert_eq!(progress(&app, AiSide::For), 14);
    assert!(app.should_quit);
    let mut app = playing(AiSide::For, '1', '1');
    app.apply_key(Key::Esc, Chance::Race(race_at(2, 2)));
    assert!(app.should_quit);
    assert!(app.game().race().is_none());
    assert_eq!(rounds(&app, AiSide::For), 0);
}

#[test]
fn challenge_is_called_changed_and_called_off() {
    let solo = solo_challenges();
    let mut app = playing(AiSide::For, '1', '2');
    for _ in 0..100 {
        app.on_key(Key::Char('f'));
        let first = match app.state() {
            AppState::Challenge(text) => text,
            other => panic!("no challenge: {:?}", other),
        };
        assert!(solo.contains(&first));
        app.on_key(Key::Char('f'));
        let second = match app.state() {
            AppState::Challenge(text) => text,
            other => panic!("no challenge: {:?}", other),
        };
        assert!(solo.contains(&second));
        assert_ne!(first, second);
        press(&mut app, "ieda5tx9");
        app.on_key(Key::Tab);
        app.on_key(Key::Enter);
        assert!(matches!(app.state(), AppState::Challenge(text) if text == second));
        assert_eq!(progress(&app, AiSide::For), 0);
        assert_eq!(progress(&app, AiSide::Against), 0);
        assert_eq!(rounds(&app, AiSide::For), 0);
        assert_eq!(center(&app), None);
        app.on_key(Key::Char('q'));
        assert!(matches!(app.state(), AppState::Play));
        assert_eq!(progress(&app, AiSide::For), 0);
        assert_eq!(progress(&app, AiSide::Against), 0);
    }
}

#[test]
fn challenge_for_teams_draws_from_both_pools() {
    let solo = solo_challenges();
    let team = team_challenges();
    let mut app = playing(AiSide::For, '2', '3');
    let mut team_seen = false;
    let mut solo_seen = false;
    for _ in 0..500 {
        app.on_key(Key::Char('f'));
        match app.state() {
            AppState::Challenge(text) => {
                if team.contains(&text) {
                    team_seen = true;
                } else {
                    assert!(solo.contains(&text));
                    solo_seen = true;
                }
            }
            other => panic!("no challenge: {:?}", other),
        }
        app.on_key(Key::Char('q'));
    }
    assert!(team_seen && solo_seen);
}

#[test]
fn challenge_pays_three_points_to_its_winner() {
    let mut app = playing(AiSide::For, '2', '2');
    app.apply_key(Key::Char('f'), Chance::Challenge("[DUEL] Pile ou face"));
    assert!(matches!(app.state(), AppState::Challenge("[DUEL] Pile ou face")));
    app.apply_key(Key::Char('f'), Chance::Challenge("[DUEL] Combat de regard"));
    assert!(matches!(app.state(), AppState::Challenge("[DUEL] Combat de regard")));
    app.apply_key(Key::Char('f'), Chance::Nothing);
    assert!(matches!(app.state(), AppState::Challenge("[DUEL] Combat de regard")));
    app.on_key(Key::Char('1'));
    assert!(matches!(app.state(), AppState::Play));
    assert_eq!(progress(&app, AiSide::For), 3);
    assert_eq!(progress(&app, AiSide::Against), 0);
    app.on_key(Key::Char('f'));
    assert!(matches!(app.state(), AppState::Challenge(_)));
    app.on_key(Key::Char('0'));
    assert!(matches!(app.state(), AppState::Play));
    assert_eq!(progress(&app, AiSide::For), 3);
    assert_eq!(progress(&app, AiSide::Against), 3);
    app.apply_key(Key::Char('f'), Chance::Nothing);
    assert!(matches!(app.state(), AppState::Play));
}

#[test]
fn reaching_the_total_finishes_the_session_at_once() {
    let mut app = playing(AiSide::For, '1', '1');
    press(&mut app, "iiiiiii");
    assert_eq!(progress(&app, AiSide::For), 49);
    assert!(matches!(app.state(), AppState::Play));
    app.tick(false);
    assert!(matches!(app.state(), AppState::Play));
    press(&mut app, "i");
    assert_eq!(progress(&app, AiSide::For), 50);
    assert!(matches!(app.state(), AppState::Finished(AiSide::For)));
    app.tick(false);
    assert!(matches!(app.state(), AppState::Finished(AiSide::For)));
}

#[test]
fn a_turn_that_reaches_the_total_finishes_the_session() {
    let mut app = playing(AiSide::Against, '1', '1');
    press(&mut app, "ddddddd");
    press(&mut app, "t");
    assert_eq!(progress(&app, AiSide::Against), 49);
    app.on_key(Key::Tab);
    assert_eq!(progress(&app, AiSide::Against), 50);
    assert!(matches!(app.state(), AppState::Finished(AiSide::Against)));
    assert_eq!(app.game().turn(), AiSide::For);
}

#[test]
fn a_challenge_that_reaches_the_total_finishes_the_session() {
    let mut app = playing(AiSide::For, '1', '1');
    press(&mut app, "ddddddd5");
    assert_eq!(progress(&app, AiSide::Against), 49);
    press(&mut app, "f");
    assert!(matches!(app.state(), AppState::Challenge(_)));
    press(&mut app, "0");
    assert_eq!(progress(&app, AiSide::Against), 50);
    assert!(matches!(app.state(), AppState::Finished(AiSide::Against)));
}

#[test]
fn a_race_that_reaches_the_total_finishes_the_session() {
    let mut app = playing(AiSide::For, '1', '1');
    press(&mut app, "iiiiiii55");
    assert_eq!(progress(&app, AiSide::For), 47);
    app.apply_key(Key::Tab, Chance::Race(race_at(6, 2)));
    assert!(matches!(app.state(), AppState::Play));
    press(&mut app, "1");
    assert_eq!(progress(&app, AiSide::For), 50);
    assert!(app.game().race().is_none());
    assert!(matches!(app.state(), AppState::Finished(AiSide::For)));
}

#[test]
fn a_finished_session_takes_no_key_but_esc() {
    let mut app = playing(AiSide::For, '2', '2');
    press(&mut app, "eeaad");
    app.apply_key(Key::Tab, Chance::Race(race_at(6, 2)));
    app.apply_key(Key::Tab, Chance::Nothing);
    press(&mut app, "iiiiiiii");
    assert!(matches!(app.state(), AppState::Finished(AiSide::For)));
    let turn = app.game().turn();
    let seen = (
        progress(&app, AiSide::For),
        progress(&app, AiSide::Against),
        rounds(&app, AiSide::For),
        rounds(&app, AiSide::Against),
        captures(&app, AiSide::For),
        captures(&app, AiSide::Against),
        center(&app),
    );
    assert_eq!(seen.0, 50);
    for _ in 0..3 {
        press(&mut app, "10575ideuthaosnfq23 ");
        app.on_key(Key::Tab);
        app.on_key(Key::Enter);
        app.on_key(Key::Other);
        app.apply_key(Key::Tab, Chance::Race(race_at(1, 1)));
        app.apply_key(Key::Char('f'), Chance::Challenge("[DUEL] Shifumi"));
        app.apply_key(Key::Enter, vpn_cells());
        app.apply_key(Key::Enter, capture_cells());
        app.on_tick();
        app.tick(false);
        assert!(matches!(app.state(), AppState::Finished(AiSide::For)));
        assert_eq!(
            seen,
            (
                progress(&app, AiSide::For),
                progress(&app, AiSide::Against),
                rounds(&app, AiSide::For),
                rounds(&app, AiSide::Against),
                captures(&app, AiSide::For),
                captures(&app, AiSide::Against),
                center(&app),
            )
        );
        assert_eq!(app.game().turn(), turn);
        assert!(app.game().race().is_some());
        assert!(!app.should_quit);
    }
    app.tick(true);
    assert!(app.game().race().is_none());
    assert!(matches!(app.state(), AppState::Finished(AiSide::For)));
    app.on_key(Key::Esc);
    assert!(app.should_quit);
    assert!(matches!(app.state(), AppState::Finished(AiSide::For)));
    assert_eq!(progress(&app, AiSide::For), 50);
}

#[test]
fn tick_keeps_an_open_race_and_drops_an_expired_one() {
    let mut app = playing(AiSide::For, '1', '1');
    app.apply_key(Key::Tab, Chance::Race(race_at(2, 2)));
    for _ in 0..10 {
        app.on_tick();
        assert!(app.game().race().is_some());
    }
    app.tick(true);
    assert!(app.game().race().is_none());
    app.tick(true);
    app.on_tick();
    assert!(app.game().race().is_none());
    assert!(matches!(app.state(), AppState::Play));
    if let Some(start) = Instant::now().checked_sub(Duration::from_secs(121)) {
        app.apply_key(Key::Tab, Chance::Race(Race::starting_at(start, at(3, 3))));
        assert!(app.game().race().is_some());
        app.on_tick();
        assert!(app.game().race().is_none());
    }
}

#[test]
fn tick_is_quiet_during_setup() {
    let mut app = App::starting_with(AiSide::Against);
    app.on_tick();
    app.tick(true);
    assert!(matches!(app.state(), AppState::PlayerInput(AiSide::For)));
    app.on_key(Key::Char('2'));
    app.on_tick();
    assert_eq!(app.game().for_ai().unwrap().nb_players(), 2);
    assert!(matches!(app.state(), AppState::PlayerInput(AiSide::For)));
    assert_eq!(app.game().turn(), AiSide::Against);
}

#[test]
fn tick_twice_is_tick_once() {
    let mut app = playing(AiSide::For, '1', '1');
    press(&mut app, "aoe");
    app.apply_key(Key::Tab, Chance::Race(race_at(2, 2)));
    app.tick(true);
    let seen = (center(&app), app.game().race().is_some(), progress(&app, AiSide::For));
    assert_eq!(seen, (None, false, 1));
    app.tick(true);
    assert_eq!(seen, (center(&app), app.game().race().is_some(), progress(&app, AiSide::For)));
}
