//! Game-master logic for a buzzer quiz: question sequences, game progress, teams,
//! buzzer pairing and buzzer light patterns, with their contracts.

pub mod buzz;
pub mod collections;
pub mod config;
pub mod couch;
pub mod error;
pub mod events;
pub mod game;
pub mod ids;
pub mod input;
pub mod laws;
pub mod legacy;
pub mod models;
pub mod order;
pub mod pairing;
pub mod patterns;
pub mod phase;
pub mod play;
pub mod requests;
pub mod sequence;
pub mod setup;
pub mod snapshot;
pub mod socket;
pub mod store;
pub mod summary;
pub mod supervisor;
pub mod teams;
pub mod text;
pub mod validation;
