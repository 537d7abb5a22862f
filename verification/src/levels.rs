pub mod dao;
pub mod level;
