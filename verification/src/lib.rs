//! Session state and scoring for CyberConnect, a two-team strategy game
//! played on a physical board and recorded by a moderator.
//!
//! The crate holds the verified core: board positions and their placement
//! rules, capture trackers, the two sides, the timed race, challenge
//! selection, and the session state machine that ties them together.

pub mod text;
pub mod position;
pub mod ai_side;
pub mod rng;
pub mod generator;
pub mod capture;
pub mod side;
pub mod clock;
pub mod race;
pub mod challenge;
pub mod game;
pub mod title;
pub mod app;
pub mod laws;
