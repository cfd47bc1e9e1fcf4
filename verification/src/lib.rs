//! Core of a terminal Rosary companion: the bead-position state machine,
//! the liturgical calendar (daily mystery and the moveable feasts of a
//! year, anchored on Easter), and the Latin ordinal formatting that the
//! progress line uses. Terminal drawing, audio and file lookup live in
//! the surrounding application; everything here is pure and verified.

pub mod calender;
pub mod config;
pub mod config_parse;
pub mod date;
pub mod events;
pub mod language;
pub mod prayer;
pub mod rosary;
pub mod tui;
