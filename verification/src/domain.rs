//! Pure decision rules: no I/O, every answer is a function of the arguments.
pub mod abandon;
pub mod elo;
pub mod history;
pub mod outcome;
pub mod password;
pub mod player;
