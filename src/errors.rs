//! The error type shared by every operation of the library.

use vstd::prelude::*;

verus! {

/// The error reported by the cast transport.
#[verifier::external_type_specification]
#[verifier::external_body]
pub struct ExCastError(rust_cast::errors::Error);

/// The error reported by a JSON encoder or decoder.
#[verifier::external_type_specification]
#[verifier::external_body]
pub struct ExJsonError(serde_json::Error);

/// The error reported when a settings file cannot be parsed.
#[verifier::external_type_specification]
#[verifier::external_body]
pub struct ExTomlError(toml::de::Error);

/// The error reported by an I/O operation.
#[verifier::external_type_specification]
#[verifier::external_body]
pub struct ExIoError(std::io::Error);

/// Every way an operation of the library can fail.
#[derive(Debug)]
pub enum BCError {
    /// The settings file could not be parsed.
    ConfigError(toml::de::Error),
    /// Reading or writing a file failed.
    IoError(std::io::Error),
    /// A JSON payload could not be encoded or decoded.
    JsonError(serde_json::Error),
    /// Loading media or messaging the running application failed.
    MediaError(rust_cast::errors::Error),
    /// Launching or stopping an application failed.
    AppError(rust_cast::errors::Error),
    /// A channel could not be opened, or the device stopped answering.
    ConnError(rust_cast::errors::Error),
    /// No connection could be opened to the device at all.
    DeviceLookupFailed(rust_cast::errors::Error),
    /// An application was required but none is running on the device.
    AppLookupFailed,
    /// An invariant of the system did not hold.
    InternalError,
}

/// HTTP status for a failure that a client can correct or retry elsewhere.
pub const STATUS_NOT_FOUND: u16 = 404;

/// HTTP status for a failure on the server's side.
pub const STATUS_INTERNAL: u16 = 500;

impl BCError {
    /// Whether the failure means that the thing asked for is not there.
    pub open spec fn is_lookup_failure(&self) -> bool {
        self is DeviceLookupFailed || self is AppLookupFailed
    }

    /// The HTTP status under which a web front end reports this error:
    /// "not found" for a device or application that is not there,
    /// "internal error" for everything else.
    pub fn status_code(&self) -> (r: u16)
        ensures
            r == if self.is_lookup_failure() { STATUS_NOT_FOUND } else { STATUS_INTERNAL },
    {
        match self {
            BCError::DeviceLookupFailed(_) => STATUS_NOT_FOUND,
            BCError::AppLookupFailed => STATUS_NOT_FOUND,
            _ => STATUS_INTERNAL,
        }
    }
}

} // verus!
