//! Challenges: the two pools of mini-games and how one is picked.

use vstd::prelude::*;
use rand::rngs::ThreadRng;
use crate::rng::{choose_item, gen_range_inclusive};
use crate::text::same_text;

verus! {

/// Points for the team that wins a challenge.
pub const CHALLENGE_POINTS: u32 = 3;

/// How often a different challenge is drawn before the first one of the
/// duel pool that differs is taken.
pub const MAX_REPICKS: u32 = 1_000;

/// The challenges that two players fight out, one of each team.
pub open spec fn solo_pool() -> Seq<&'static str> {
    seq![
        "[DUEL] Shifumi",
        "[DUEL] Tenir le plus longtemps sur un pied",
        "[DUEL] Celui qui saute le plus haut",
        "[DUEL] Celui qui fait le meilleur avion en papier (nécessite papier)",
        "[DUEL] Premier joueur à trouver un objet [rose, à poil, ...]",
        "[DUEL] Guerre des pouces",
        "[DUEL] Citer l'un après l'autre des [marques de voitures, Pokémon, …]. Le premier a ne pas trouver en 5 secondes perds",
        "[DUEL] Le premier à finir un verre d'eau (nécessite eau)",
        "[DUEL] Le premier joueur à prononcer faux «panier piano» perd",
        "[DUEL] Le joueur qui arrive à jongler le plus longtemps gagne (nécessite trucs pour jongler)",
        "[DUEL] Pile ou face",
        "[DUEL] Celui qui dessine le meilleur [chat, fruit, …] en 30s",
        "[DUEL] Le premier à toucher le pied de l'autre joueur",
        "[DUEL] Combat de regard",
        "[DUEL] Le premier joueur a compter juste le nombre de cases posées sur le plateau gagne",
        "[DUEL] Celui qui court le plus vite en sprint",
        "[DUEL] Celui qui fait le plus de pompes",
        "[DUEL] Celui qui imite le mieux une célébrité",
    ]
}

/// The challenges that the whole teams fight out.
pub open spec fn team_pool() -> Seq<&'static str> {
    seq![
        "[TEAM] L'équipe qui enlève le plus vite ses chaussettes",
        "[TEAM] L'équipe qui construit la plus haute tour en 1 minutes",
        "[TEAM] La première équipe a citer 3 [animaux verts, sports d'hiver, acteurs, …]",
        "[TEAM] La première équipe à tous lever un membre de son corps (bras, jambes)",
        "[TEAM] La première équipe à tous toucher le plafond",
        "[TEAM] La première équipe à entièrement sortir de la pièce",
        "[TEAM] La première équipe à ne plus toucher le sol",
        "[TEAM] La première équipe à faire un cercle en se tenant les bras",
        "[TEAM] La première équipe à tous se toucher les genoux",
        "[TEAM] La première équipe à réciter les deux premières lignes d'un poème",
        "[TEAM] Chaque équipe choisit 3 lettres différentes de l'alphabet, l'équipe qui trouve le plus de mots différents en 1 minute gagne",
    ]
}

/// Some entry of `pool` reads `text`.
pub open spec fn pool_holds(pool: Seq<&'static str>, text: Seq<char>) -> bool {
    exists|i: int| 0 <= i < pool.len() && (#[trigger] pool[i])@ == text
}

/// `text` may be offered as a challenge: it is a duel, or it is a team
/// challenge and both teams have more than one player (`team_play`).
pub open spec fn challenge_offered(team_play: bool, text: Seq<char>) -> bool {
    pool_holds(solo_pool(), text) || (team_play && pool_holds(team_pool(), text))
}

/// The challenges that two players fight out, one of each team.
pub fn solo_challenges() -> (pool: Vec<&'static str>)
    ensures
        pool@ == solo_pool(),
{
    vec![
        "[DUEL] Shifumi",
        "[DUEL] Tenir le plus longtemps sur un pied",
        "[DUEL] Celui qui saute le plus haut",
        "[DUEL] Celui qui fait le meilleur avion en papier (nécessite papier)",
        "[DUEL] Premier joueur à trouver un objet [rose, à poil, ...]",
        "[DUEL] Guerre des pouces",
        "[DUEL] Citer l'un après l'autre des [marques de voitures, Pokémon, …]. Le premier a ne pas trouver en 5 secondes perds",
        "[DUEL] Le premier à finir un verre d'eau (nécessite eau)",
        "[DUEL] Le premier joueur à prononcer faux «panier piano» perd",
        "[DUEL] Le joueur qui arrive à jongler le plus longtemps gagne (nécessite trucs pour jongler)",
        "[DUEL] Pile ou face",
        "[DUEL] Celui qui dessine le meilleur [chat, fruit, …] en 30s",
        "[DUEL] Le premier à toucher le pied de l'autre joueur",
        "[DUEL] Combat de regard",
        "[DUEL] Le premier joueur a compter juste le nombre de cases posées sur le plateau gagne",
        "[DUEL] Celui qui court le plus vite en sprint",
        "[DUEL] Celui qui fait le plus de pompes",
        "[DUEL] Celui qui imite le mieux une célébrité",
    ]
}

/// The challenges that the whole teams fight out.
pub fn team_challenges() -> (pool: Vec<&'static str>)
    ensures
        pool@ == team_pool(),
{
    vec![
        "[TEAM] L'équipe qui enlève le plus vite ses chaussettes",
        "[TEAM] L'équipe qui construit la plus haute tour en 1 minutes",
        "[TEAM] La première équipe a citer 3 [animaux verts, sports d'hiver, acteurs, …]",
        "[TEAM] La première équipe à tous lever un membre de son corps (bras, jambes)",
        "[TEAM] La première équipe à tous toucher le plafond",
        "[TEAM] La première équipe à entièrement sortir de la pièce",
        "[TEAM] La première équipe à ne plus toucher le sol",
        "[TEAM] La première équipe à faire un cercle en se tenant les bras",
        "[TEAM] La première équipe à tous se toucher les genoux",
        "[TEAM] La première équipe à réciter les deux premières lignes d'un poème",
        "[TEAM] Chaque équipe choisit 3 lettres différentes de l'alphabet, l'équipe qui trouve le plus de mots différents en 1 minute gagne",
    ]
}

/// A team challenge is drawn: both teams have more than one player and the
/// coin `coin` did not show zero.
pub open spec fn team_pool_drawn(team_play: bool, coin: u8) -> bool {
    team_play && coin != 0
}

/// Whether the pick goes to the team pool, given the coin that was tossed.
pub fn draws_team_pool(team_play: bool, coin: u8) -> (team: bool)
    ensures
        team == team_pool_drawn(team_play, coin),
{
    team_play && coin != 0
}

/// One entry of `pool`, each with equal chance.
fn pick_from(rng: &mut ThreadRng, pool: &Vec<&'static str>) -> (text: &'static str)
    requires
        pool@.len() > 0,
    ensures
        pool_holds(pool@, text@),
{
    let picked = choose_item(rng, pool.as_slice());
    picked.unwrap()
}

/// A challenge for the teams. Where both have more than one player
/// (`team_play`), a coin decides between the duel pool and the team pool;
/// else the duel pool it is. Within the pool every entry has equal chance.
pub fn draw_challenge(rng: &mut ThreadRng, team_play: bool) -> (text: &'static str)
    ensures
        challenge_offered(team_play, text@),
{
    let coin: u8 = if team_play {
        gen_range_inclusive(rng, 0, 1)
    } else {
        0
    };
    if draws_team_pool(team_play, coin) {
        let pool = team_challenges();
        pick_from(rng, &pool)
    } else {
        let pool = solo_challenges();
        pick_from(rng, &pool)
    }
}

/// The first duel that does not read `current`: the first entry of the duel
/// pool, or the second where `current` is the first.
pub fn other_solo_challenge(current: &str) -> (text: &'static str)
    ensures
        text@ != current@,
        pool_holds(solo_pool(), text@),
        text == if solo_pool()[0]@ != current@ {
            solo_pool()[0]
        } else {
            solo_pool()[1]
        },
{
    let pool = solo_challenges();
    let first = pool[0];
    let second = pool[1];
    proof {
        reveal_strlit("[DUEL] Shifumi");
        reveal_strlit("[DUEL] Tenir le plus longtemps sur un pied");
        assert(first@.len() != second@.len());
    }
    if !same_text(first, current) {
        first
    } else {
        second
    }
}

/// A challenge that does not read `current`: challenges are drawn as
/// `draw_challenge` draws them until one differs. After `MAX_REPICKS` draws
/// of the same text the first duel that differs is taken.
pub fn draw_other_challenge(rng: &mut ThreadRng, team_play: bool, current: &str) -> (text:
    &'static str)
    ensures
        text@ != current@,
        challenge_offered(team_play, text@),
{
    let mut draws: u32 = 0;
    while draws < MAX_REPICKS
        invariant
            draws <= MAX_REPICKS,
        decreases MAX_REPICKS - draws,
    {
        let challenge = draw_challenge(rng, team_play);
        if !same_text(challenge, current) {
            return challenge;
        }
        draws = draws + 1;
    }
    other_solo_challenge(current)
}

} // verus!
