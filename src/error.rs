use vstd::prelude::*;

verus! {

/// Why a resolution attempt produced no image.
#[derive(Clone, Copy, Debug, PartialEq, Eq, Structural)]
pub enum GatewayError {
    /// The local file is absent or cannot be read.
    NotFound,
    /// The origin could not be reached (DNS, refused connection, timeout).
    UpstreamUnavailable,
    /// The origin answered with a status outside the success range.
    UpstreamError(u16),
    /// The origin's body failed part way through.
    BadUpstreamBody,
}

/// Status code for a successful response.
pub const STATUS_OK: u16 = 200;

/// Status code for a missing local image.
pub const STATUS_NOT_FOUND: u16 = 404;

/// Status code for every upstream failure.
pub const STATUS_BAD_GATEWAY: u16 = 502;

/// The HTTP status that a client sees for an error.
pub open spec fn error_status(e: GatewayError) -> u16 {
    match e {
        GatewayError::NotFound => STATUS_NOT_FOUND,
        _ => STATUS_BAD_GATEWAY,
    }
}

impl GatewayError {
    /// The HTTP status that a client sees for this error: 404 for a missing
    /// local image, 502 for every upstream failure.
    pub fn http_status(&self) -> (r: u16)
        ensures
            r == error_status(*self),
    {
        match self {
            GatewayError::NotFound => STATUS_NOT_FOUND,
            _ => STATUS_BAD_GATEWAY,
        }
    }
}

} // verus!
