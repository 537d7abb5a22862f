pub mod campaign_mode;
pub mod difficulty;
pub mod fastest_time;
pub mod game;
pub mod highest_score;
pub mod mission_id;
