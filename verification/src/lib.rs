//! A single-player text adventure engine: a fixed graph of rooms, a player
//! with an inventory, a closed set of commands, and the rules that map a
//! command to a new state and a line of text for the player.

pub mod game;
pub mod input;
pub mod player;
pub mod proofs;
pub mod room;
pub mod search;
pub mod text;
pub mod ui;
