use vstd::prelude::*;

verus! {

/// The error that `reqwest` reports when a request cannot be built or sent.
#[verifier::external_type_specification]
#[verifier::external_body]
pub struct ExRequestError(reqwest::Error);

/// What can go wrong while fetching an endpoint.
#[derive(Debug)]
pub enum ApiError {
    /// The request could not be sent, or no response came back.
    Request(reqwest::Error),
    /// The server answered with a status other than `200 OK`; the code is kept.
    Status(u16),
}

impl From<reqwest::Error> for ApiError {
    fn from(error: reqwest::Error) -> (r: ApiError) {
        ApiError::Request(error)
    }
}

impl vstd::std_specs::convert::FromSpecImpl<reqwest::Error> for ApiError {
    open spec fn obeys_from_spec() -> bool {
        true
    }

    open spec fn from_spec(error: reqwest::Error) -> ApiError {
        ApiError::Request(error)
    }
}

/// The HTTP status of a successful answer, `200 OK`.
pub const STATUS_OK: u16 = 200;

/// Decides whether an answer with the given status code may be parsed:
/// `Ok` for `200 OK`, otherwise the `Status` error that carries the code.
pub fn check_status(code: u16) -> (r: Result<(), ApiError>)
    ensures
        code == STATUS_OK ==> r is Ok,
        code != STATUS_OK ==> r == Err::<(), ApiError>(ApiError::Status(code)),
{
    if code == STATUS_OK {
        Ok(())
    } else {
        Err(ApiError::Status(code))
    }
}

} // verus!
