pub mod dao;
pub mod game;
