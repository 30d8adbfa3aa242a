pub mod config;
pub mod error;
pub mod manager;
pub mod utils;

pub use error::LoggingError;
pub use manager::log_manager::LogManager;
