//! Single-elimination tournament bracket engine.
//!
//! The crate pairs a roster into a first-round bracket, tracks the life of
//! each match, selects the battle records that count as evidence for a match
//! and decides a winner from them.

pub mod adjudicate;
pub mod bracket;
pub mod controller;
pub mod decimal;
pub mod evidence;
pub mod game_match;
pub mod listing;
pub mod models;
pub mod registration;
pub mod text;
pub mod tournament;
