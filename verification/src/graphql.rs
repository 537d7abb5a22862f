pub mod context;
pub mod models;
pub mod query;
pub mod time;
