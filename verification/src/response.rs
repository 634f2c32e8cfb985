//! The gateway's response type: a status code and a body, as handed back to
//! the transport.

use vstd::prelude::*;

verus! {

/// A response emitted by the gateway: an HTTP status code and a body.
#[derive(Debug)]
pub struct Response {
    pub status: u16,
    pub body: String,
}

impl Response {
    /// A response is well formed when its status is a valid HTTP status code.
    pub open spec fn wf(&self) -> bool {
        100 <= self.status <= 599
    }

    /// Builds a response from a status code and a body.
    pub fn new(status: u16, body: String) -> (r: Response)
        requires
            100 <= status <= 599,
        ensures
            r.status == status,
            r.body@ == body@,
            r.wf(),
    {
        Response { status, body }
    }
}

} // verus!
