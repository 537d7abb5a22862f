pub mod cache;
pub mod client;
pub mod models;
pub mod requests;
pub mod transport;
