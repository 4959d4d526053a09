use vstd::prelude::*;

verus! {

/// The four failure classes a request can end in. At the transport boundary
/// each collapses to a bare status code; no cause beyond the class is exposed.
#[derive(Clone, Copy, Debug, PartialEq, Eq, Structural)]
pub enum ApiError {
    /// Missing header, missing `Bearer ` prefix, bad signature, or expired token.
    Unauthorized,
    /// A stock value below zero was submitted.
    InvalidInput,
    /// No record exists for the requested product (read path only).
    NotFound,
    /// The backing store failed or was unreachable.
    InternalFailure,
}

/// The HTTP status code that each failure class collapses to.
pub fn http_status(e: ApiError) -> (code: u16)
    ensures
        code == spec_http_status(e),
{
    match e {
        ApiError::Unauthorized => 401,
        ApiError::InvalidInput => 400,
        ApiError::NotFound => 404,
        ApiError::InternalFailure => 500,
    }
}

/// Status code of each failure class: 401, 400, 404 or 500.
pub open spec fn spec_http_status(e: ApiError) -> u16 {
    match e {
        ApiError::Unauthorized => 401,
        ApiError::InvalidInput => 400,
        ApiError::NotFound => 404,
        ApiError::InternalFailure => 500,
    }
}

} // verus!
