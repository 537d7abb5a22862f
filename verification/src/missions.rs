pub mod dao;
pub mod mission;
