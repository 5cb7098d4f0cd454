//! Core logic of a terminal companion for a turn-based encounter game:
//! an orchestrator that dispatches timed render ticks and key presses to
//! pages, and a deck engine that builds, reshuffles and rolls back the
//! session's sequence of encounter cards.

pub mod app;
pub mod game;
pub mod game_info;
pub mod game_page;
pub mod home;
pub mod home_page;
pub mod next;
pub mod popup;
mod rng;
pub mod select_boss_page;
