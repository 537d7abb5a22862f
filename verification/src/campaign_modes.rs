pub mod campaign_mode;
