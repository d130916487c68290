pub mod action;
pub mod app;
pub mod backend_handler;
pub mod data;
pub mod expiring_value;
pub mod format_duration;
pub mod player_info;
pub mod renderer;
pub mod track_info;
pub mod tracked_player_info;
pub mod util;
