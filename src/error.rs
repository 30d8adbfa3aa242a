use vstd::prelude::*;

verus! {

/// Why an operation of the library failed.
#[derive(Debug)]
pub enum LoggingError {
    /// Building or encoding the profile failed.
    ProfileError(String),
    /// An external utility could not be launched.
    CommandError(String),
    /// Creating or writing a file failed.
    IoError(String),
    /// The caller lacks the privileges the change needs.
    PermissionError(String),
    /// A configuration value is unusable.
    ConfigError(String),
}

} // verus!
