//! Core of a card-board helper for coffee-shop staff: a countdown timer with
//! drift-corrected ticking, `MM:SS` time formatting and parsing, a reducer
//! over two ordered lanes of cards, a brew-rotation rule, and the daily
//! checklist data, all specified and verified; storage and rendering stay
//! outside, behind plain-value interfaces.

pub mod cards;
pub mod coffee;
pub mod cycle;
pub mod state;
pub mod storage;
pub mod tasks;
pub mod time_format;
pub mod timer;
