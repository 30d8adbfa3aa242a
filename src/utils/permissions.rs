use vstd::prelude::*;
use crate::error::LoggingError;

verus! {

/// Admits only the superuser: `euid` is the caller's effective user id.
pub fn verify_root(euid: u32) -> (r: Result<(), LoggingError>)
    ensures
        r is Ok <==> euid == 0,
        euid != 0 ==> (r matches Err(LoggingError::PermissionError(m)) && m@
            == "Root privileges required"@),
{
    if euid != 0 {
        return Err(LoggingError::PermissionError("Root privileges required".to_owned()));
    }
    Ok(())
}

} // verus!
