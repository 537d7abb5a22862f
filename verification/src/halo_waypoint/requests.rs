pub mod auth;
pub mod service_record;
