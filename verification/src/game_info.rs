//! Earlier, simpler shapes of the card records, kept for content written
//! against them: a single progress value per card and a minimum-day field on
//! the tyrant.

use vstd::prelude::*;

verus! {

/// A daily narrative unit with a single progress value.
#[derive(Debug)]
pub struct EncounterCard {
    pub title: String,
    pub story: String,
    pub choices: Vec<Choice>,
    pub remark: String,
    pub progress: usize,
}

/// One selectable option on an encounter card; display strings only.
#[derive(Debug)]
pub struct Choice {
    pub description: String,
    pub action: String,
    pub rewards: String,
}

/// A boss record bounded by a minimum and maximum day count.
#[derive(Debug)]
pub struct TyrantCard {
    pub name: String,
    pub description: String,
    pub min_days: usize,
    pub max_days: usize,
    pub game_length: String,
    pub battle_title: String,
    pub creatures: String,
    pub battle_mechanism: Vec<String>,
    pub tyrant_skills: Vec<String>,
    pub tyrant_die: Vec<String>,
}

} // verus!
