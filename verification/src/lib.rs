//! Verified core of an online chess server: the rules that decide who may
//! move, how a game ends, how ratings move, when an absent player forfeits,
//! and how requests are answered. Network, database and token plumbing live
//! outside this crate and call into it with plain values.
pub mod time;
pub mod text;
pub mod color;
pub mod board;
pub mod domain;
pub mod errors;
pub mod models;
pub mod game;
pub mod state;
pub mod abandon;
pub mod rating;
pub mod auth;
pub mod token;
pub mod history;
pub mod ranking;
pub mod internal;
pub mod laws;
