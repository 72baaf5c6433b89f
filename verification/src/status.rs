//! Translation of backend status codes into the library's error taxonomy.

use vstd::prelude::*;

verus! {

/// The backend's success status.
pub const S_OK: i32 = 0;

/// 0x887A0026: access to the desktop duplication was lost at the hardware
/// level.
pub const DXGI_ERROR_ACCESS_LOST: i32 = -2005270490;

/// 0x887A0027: no new frame arrived within the requested window.
pub const DXGI_ERROR_WAIT_TIMEOUT: i32 = -2005270489;

/// 0x887A0001: the call's arguments were malformed.
pub const DXGI_ERROR_INVALID_CALL: i32 = -2005270527;

/// 0x80070005: access was denied.
pub const E_ACCESSDENIED: i32 = -2147024891;

/// 0x887A0004: the operation is unsupported by this backend or session.
pub const DXGI_ERROR_UNSUPPORTED: i32 = -2005270524;

/// 0x887A0022: the resource is momentarily unavailable; the caller may retry.
pub const DXGI_ERROR_NOT_CURRENTLY_AVAILABLE: i32 = -2005270494;

/// 0x887A0028: the duplication session was disconnected, e.g. by a desktop
/// switch or a mode change; the session must be re-created.
pub const DXGI_ERROR_SESSION_DISCONNECTED: i32 = -2005270488;

/// The library's error taxonomy, the target of [`wrap_hresult`].
#[derive(Clone, Copy, PartialEq, Eq, Structural, Debug)]
pub enum CaptureError {
    /// Access or session lost at the hardware level; not recoverable in place.
    ConnectionReset,
    /// No new frame within the requested window.
    TimedOut,
    /// Malformed call arguments.
    InvalidData,
    /// Access denied.
    PermissionDenied,
    /// Operation unsupported by this backend or session.
    ConnectionRefused,
    /// Transient condition; the caller may retry.
    Interrupted,
    /// Duplication session explicitly disconnected; requires full re-creation.
    ConnectionAborted,
    /// Any unrecognized failure status.
    Other,
}

/// What [`wrap_hresult`] returns for each backend status code.
pub open spec fn translate_spec(status: i32) -> Result<(), CaptureError> {
    if status == S_OK {
        Ok(())
    } else if status == DXGI_ERROR_ACCESS_LOST {
        Err(CaptureError::ConnectionReset)
    } else if status == DXGI_ERROR_WAIT_TIMEOUT {
        Err(CaptureError::TimedOut)
    } else if status == DXGI_ERROR_INVALID_CALL {
        Err(CaptureError::InvalidData)
    } else if status == E_ACCESSDENIED {
        Err(CaptureError::PermissionDenied)
    } else if status == DXGI_ERROR_UNSUPPORTED {
        Err(CaptureError::ConnectionRefused)
    } else if status == DXGI_ERROR_NOT_CURRENTLY_AVAILABLE {
        Err(CaptureError::Interrupted)
    } else if status == DXGI_ERROR_SESSION_DISCONNECTED {
        Err(CaptureError::ConnectionAborted)
    } else {
        Err(CaptureError::Other)
    }
}

/// True when the translated status is a failure.
pub open spec fn failed(r: Result<(), CaptureError>) -> bool {
    match r {
        Ok(_) => false,
        Err(_) => true,
    }
}

/// The error carried by a failed translation; `Other` on a success, but the
/// contracts below only apply it to failures.
pub open spec fn error_of(r: Result<(), CaptureError>) -> CaptureError {
    match r {
        Ok(_) => CaptureError::Other,
        Err(e) => e,
    }
}

/// Maps a backend status code to the error taxonomy: the success status maps
/// to success, each known failure status to its category, and any
/// unrecognized status to `Other`.
pub fn wrap_hresult(status: i32) -> (r: Result<(), CaptureError>)
    ensures
        r == translate_spec(status),
{
    if status == S_OK {
        Ok(())
    } else if status == DXGI_ERROR_ACCESS_LOST {
        Err(CaptureError::ConnectionReset)
    } else if status == DXGI_ERROR_WAIT_TIMEOUT {
        Err(CaptureError::TimedOut)
    } else if status == DXGI_ERROR_INVALID_CALL {
        Err(CaptureError::InvalidData)
    } else if status == E_ACCESSDENIED {
        Err(CaptureError::PermissionDenied)
    } else if status == DXGI_ERROR_UNSUPPORTED {
        Err(CaptureError::ConnectionRefused)
    } else if status == DXGI_ERROR_NOT_CURRENTLY_AVAILABLE {
        Err(CaptureError::Interrupted)
    } else if status == DXGI_ERROR_SESSION_DISCONNECTED {
        Err(CaptureError::ConnectionAborted)
    } else {
        Err(CaptureError::Other)
    }
}

} // verus!
