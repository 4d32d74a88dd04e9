pub mod api;
pub mod game;
