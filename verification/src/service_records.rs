pub mod dao;
pub mod service_record;
