pub mod config_check;
pub mod log_manager;
