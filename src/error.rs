use vstd::prelude::*;

verus! {

/// Ways in which the service broke the protocol that this client expects.
#[derive(Debug, Clone, Copy, PartialEq, Eq, Structural)]
pub enum ProtocolIssue {
    /// The bootstrap answer carried no `XSRF-TOKEN` cookie.
    MissingSessionToken,
    /// The anti-CSRF token cannot be sent as a header value.
    InvalidSessionToken,
    /// A catalog page held no record before the reported total was reached.
    StalledPagination,
    /// A catalog page reported another total than the first page did.
    TotalCountChanged,
    /// A response body did not have the expected shape.
    MalformedResponse,
}

/// The closed set of failures of a run; none of them is retried.
#[derive(Debug, Clone, Copy, PartialEq, Eq, Structural)]
pub enum HrBoxError {
    /// A request answered with a status outside the successful range.
    Http { status: u16 },
    /// The service did not follow the expected protocol.
    Protocol(ProtocolIssue),
    /// The login was rejected, with this status.
    Authentication { status: u16 },
    /// A local file could not be created or written.
    Io,
}

/// A status in the successful range `200..=299`.
pub open spec fn is_success(status: u16) -> bool {
    200 <= status && status < 300
}

/// Checks the status of a response: every status outside the successful
/// range is an HTTP error.
pub fn expect_success(status: u16) -> (r: Result<(), HrBoxError>)
    ensures
        is_success(status) ==> r == Ok::<(), HrBoxError>(()),
        !is_success(status) ==> r == Err::<(), HrBoxError>(HrBoxError::Http { status }),
{
    if 200 <= status && status < 300 {
        Ok(())
    } else {
        Err(HrBoxError::Http { status })
    }
}

} // verus!
