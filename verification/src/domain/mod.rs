pub mod clip;
pub mod maintenance;
pub mod time;
