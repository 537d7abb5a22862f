pub mod campaign_mode;
pub mod difficulty;
pub mod time;
