pub mod campaign_modes;
pub mod difficulties;
pub mod document;
pub mod error;
pub mod games;
pub mod graphql;
pub mod halo_waypoint;
pub mod levels;
pub mod missions;
pub mod pattern;
pub mod service_records;
pub mod text;
pub mod time_of_day;
pub mod views;
