//! Core rules of a Radlands card-game engine: the catalog of person cards and the
//! continuation machinery through which game steps wait for player choices.

pub mod game;
pub mod people;
pub mod choices;
pub mod runs;
