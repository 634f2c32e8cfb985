//! Upstream forwarding: the full upstream URL is the policy's target origin
//! and endpoint joined by a slash, and every transport outcome maps to a
//! gateway-level result — success carries the upstream's status and body,
//! each failure maps to a distinguishing server-error response and never to
//! a process failure.

use vstd::prelude::*;
use vstd::string::*;
use crate::policy::Policy;
use crate::response::Response;

verus! {

/// What the upstream answered on success: its status code and body, exactly
/// as received.
pub struct UpstreamResponse {
    pub status: u16,
    pub body: String,
}

impl UpstreamResponse {
    /// A transport answer whose status is not a valid HTTP status code is
    /// reported as `UpstreamResult::BadResponse` instead of being carried
    /// here.
    pub open spec fn wf(&self) -> bool {
        100 <= self.status <= 599
    }
}

/// The outcome of one outbound call, as the transport reports it.
pub enum UpstreamResult {
    /// The upstream answered; its status and body are carried untouched.
    Success(UpstreamResponse),
    /// The bounded timeout elapsed before an answer arrived.
    Timeout,
    /// The upstream could not be reached: connection or name resolution
    /// failed.
    Unreachable,
    /// The upstream answered with something that is not a well-formed
    /// response.
    BadResponse,
}

/// Builds the full upstream URL for a policy: its target origin and its
/// endpoint, joined by a slash. Nothing of the incoming request's path or
/// query is carried over.
pub fn build_url(policy: &Policy) -> (r: String)
    ensures
        r@ == policy.target@ + "/"@ + policy.endpoint@,
{
    let mut url = policy.target.clone();
    url.append("/");
    url.append(policy.endpoint.as_str());
    url
}

/// Maps a failed outbound call to the gateway's response: a server error
/// whose status and body distinguish timeout, unreachable upstream, and
/// malformed answer. No failure is fatal to the process.
pub fn failure_response(result: &UpstreamResult) -> (r: Response)
    requires
        !(*result is Success),
    ensures
        r.wf(),
        500 <= r.status <= 599,
        match *result {
            UpstreamResult::Timeout => r.status == 504 && r.body@
                == "Upstream request timed out"@,
            UpstreamResult::Unreachable => r.status == 502 && r.body@
                == "Upstream unreachable"@,
            UpstreamResult::BadResponse => r.status == 502 && r.body@
                == "Upstream returned a malformed response"@,
            UpstreamResult::Success(_) => true,
        },
{
    match result {
        UpstreamResult::Timeout => Response::new(
            504,
            String::from_str("Upstream request timed out"),
        ),
        UpstreamResult::Unreachable => Response::new(502, String::from_str("Upstream unreachable")),
        UpstreamResult::BadResponse => Response::new(
            502,
            String::from_str("Upstream returned a malformed response"),
        ),
        UpstreamResult::Success(_) => Response::new(500, String::new()),
    }
}

} // verus!
