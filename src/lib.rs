pub mod input;
pub mod command;
pub mod controller;
pub mod player;
pub mod laws;
