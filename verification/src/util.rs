//! Conversions between transport values and the client's own types.

use vstd::prelude::*;

use crate::error::Error;
use crate::transport::is_success_status;
use crate::transport::HttpResponse;

verus! {

/// A deferred operation outcome that has already been resolved.
///
/// The surrounding I/O layer runs requests to completion; the library
/// models the handle it hands back as the resolved outcome itself.
pub struct Task<T, E> {
    pub outcome: Result<T, E>,
}

impl<T, E> Task<T, E> {
    /// Takes the resolved outcome out of the handle.
    pub fn resolve(self) -> (r: Result<T, E>)
        ensures
            r == self.outcome,
    {
        self.outcome
    }
}

/// Wraps a resolved outcome as a deferred-result handle.
pub fn into_future_trait<T, E>(outcome: Result<T, E>) -> (t: Task<T, E>)
    ensures
        t.outcome == outcome,
{
    Task { outcome }
}

/// Classifies a response: a success-range status passes the response
/// through, any other status becomes a status-carrying error.
pub fn into_result(res: HttpResponse) -> (r: Result<HttpResponse, Error>)
    ensures
        r is Ok <==> is_success_status(res.status),
        r matches Ok(ok) ==> ok == res,
        r matches Err(e) ==> e == Error::HyperStatus(res.status),
{
    if 200 <= res.status && res.status < 300 {
        Ok(res)
    } else {
        Err(Error::HyperStatus(res.status))
    }
}

/// Relies on `std::time::SystemTime::now`, chrono's
/// `From<SystemTime> for DateTime<Utc>` — which converts readings on
/// either side of the epoch without panicking — and
/// `DateTime::timestamp_millis`: the wall-clock time as signed
/// milliseconds since the Unix epoch.  Nothing can be promised of a
/// clock reading.
#[verifier::external_body]
fn now_millis() -> i64 {
    let now: chrono::DateTime<chrono::Utc> = std::time::SystemTime::now().into();
    now.timestamp_millis()
}

/// The current wall-clock time in milliseconds since the Unix epoch,
/// clamped to zero for clocks set before the epoch.
pub fn get_unix_timestamp_ms() -> u64 {
    let ms = now_millis();
    if ms < 0 {
        0
    } else {
        ms as u64
    }
}

} // verus!
