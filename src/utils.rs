pub mod permissions;
pub mod system;
pub mod text;
