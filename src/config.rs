pub mod profile;
pub mod subsystem;
