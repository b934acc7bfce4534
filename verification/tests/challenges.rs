use cyberconnect::challenge::{
    draw_challenge, draw_other_challenge, draws_team_pool, other_solo_challenge, solo_challenges,
    team_challenges, CHALLENGE_POINTS, MAX_REPICKS,
};
use cyberconnect::game::Game;
use cyberconnect::ai_side::AiSide;

#[test]
fn pools_have_eighteen_duels_and_eleven_team_challenges() {
    let solo = solo_challenges();
    let team = team_challenges();
    assert_eq!(solo.len(), 18);
    assert_eq!(team.len(), 11);
    assert!(solo.iter().all(|text| text.starts_with("[DUEL] ")));
    assert!(team.iter().all(|text| text.starts_with("[TEAM] ")));
    assert_eq!(solo[0], "[DUEL] Shifumi");
    assert_eq!(solo[1], "[DUEL] Tenir le plus longtemps sur un pied");
    assert_eq!(solo[17], "[DUEL] Celui qui imite le mieux une célébrité");
    assert_eq!(team[0], "[TEAM] L'équipe qui enlève le plus vite ses chaussettes");
    assert_eq!(
        team[10],
        "[TEAM] Chaque équipe choisit 3 lettres différentes de l'alphabet, l'équipe qui trouve le plus de mots différents en 1 minute gagne"
    );
}

#[test]
fn pool_entries_are_pairwise_different() {
    let mut all: Vec<&str> = solo_challenges();
    all.extend(team_challenges());
    let distinct: std::collections::BTreeSet<&str> = all.iter().copied().collect();
    assert_eq!(distinct.len(), 29);
}

#[test]
fn challenge_constants() {
    assert_eq!(CHALLENGE_POINTS, 3);
    assert_eq!(MAX_REPICKS, 1_000);
}

#[test]
fn team_pool_needs_team_play_and_the_coin() {
    assert!(!draws_team_pool(false, 0));
    assert!(!draws_team_pool(false, 1));
    assert!(!draws_team_pool(true, 0));
    assert!(draws_team_pool(true, 1));
}

#[test]
fn without_team_play_only_duels_are_drawn() {
    let solo = solo_challenges();
    let mut rng = rand::thread_rng();
    let mut seen = std::collections::BTreeSet::new();
    for _ in 0..5_000 {
        let text = draw_challenge(&mut rng, false);
        assert!(solo.contains(&text));
        seen.insert(text);
    }
    assert_eq!(seen.len(), 18);
}

#[test]
fn with_team_play_both_pools_are_drawn() {
    let solo = solo_challenges();
    let team = team_challenges();
    let mut rng = rand::thread_rng();
    let mut seen = std::collections::BTreeSet::new();
    for _ in 0..10_000 {
        let text = draw_challenge(&mut rng, true);
        assert!(solo.contains(&text) || team.contains(&text));
        seen.insert(text);
    }
    assert_eq!(seen.len(), 29);
}

#[test]
fn other_solo_challenge_is_the_first_duel_that_differs() {
    assert_eq!(
        other_solo_challenge("[DUEL] Shifumi"),
        "[DUEL] Tenir le plus longtemps sur un pied"
    );
    assert_eq!(other_solo_challenge("[DUEL] Tenir le plus longtemps sur un pied"), "[DUEL] Shifumi");
    assert_eq!(other_solo_challenge("[DUEL] Pile ou face"), "[DUEL] Shifumi");
    assert_eq!(other_solo_challenge(""), "[DUEL] Shifumi");
    assert_eq!(other_solo_challenge("[DUEL] Shifumi "), "[DUEL] Shifumi");
}

#[test]
fn draw_other_challenge_never_repeats_the_current_one() {
    let mut rng = rand::thread_rng();
    for team_play in [false, true] {
        let mut pool: Vec<&str> = solo_challenges();
        if team_play {
            pool.extend(team_challenges());
        }
        for current in pool.iter().copied() {
            for _ in 0..200 {
                let text = draw_other_challenge(&mut rng, team_play, current);
                assert_ne!(text, current);
                assert!(pool.contains(&text));
            }
        }
    }
}

#[test]
fn draw_other_challenge_reaches_every_other_duel() {
    let mut rng = rand::thread_rng();
    let current = "[DUEL] Guerre des pouces";
    let mut seen = std::collections::BTreeSet::new();
    for _ in 0..5_000 {
        seen.insert(draw_other_challenge(&mut rng, false, current));
    }
    assert_eq!(seen.len(), 17);
    assert!(!seen.contains(current));
}

#[test]
fn pick_challenge_offers_team_challenges_only_to_teams() {
    let solo = solo_challenges();
    let team = team_challenges();
    for (for_ai, against_ai, team_play) in
        [(1u8, 1u8, false), (1, 3, false), (2, 1, false), (2, 2, true), (3, 2, true)]
    {
        let mut game = Game::starting_with(AiSide::For);
        game.confirm_players(AiSide::For, for_ai);
        game.confirm_players(AiSide::Against, against_ai);
        assert_eq!(game.team_play(), team_play);
        let mut team_seen = false;
        for _ in 0..2_000 {
            let text = game.pick_challenge();
            if team.contains(&text) {
                team_seen = true;
            } else {
                assert!(solo.contains(&text));
            }
        }
        assert_eq!(team_seen, team_play);
    }
}

#[test]
fn pick_challenge_before_the_sides_are_entered_is_a_duel() {
    let solo = solo_challenges();
    let mut game = Game::starting_with(AiSide::Against);
    assert!(!game.team_play());
    for _ in 0..200 {
        assert!(solo.contains(&game.pick_challenge()));
    }
    game.confirm_players(AiSide::For, 3);
    assert!(!game.team_play());
    for _ in 0..200 {
        assert!(solo.contains(&game.pick_challenge()));
    }
}
