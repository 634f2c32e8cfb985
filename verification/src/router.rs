//! The router: per-request orchestration. A request's path names a policy;
//! the policy's inbound chain runs; unless a handler rejected, the upstream
//! is called; the outbound chain runs; and the terminal state becomes the
//! response. Every per-request failure is converted to a response at this
//! boundary — a policy miss to a not-found response, a rejection to a
//! forbidden response without any upstream call, a plugin failure to a
//! server error — and none of them is fatal to the process.

use vstd::prelude::*;
use vstd::string::*;
use crate::chain::ChainRun;
use crate::forward::{UpstreamResponse, build_url};
use crate::policy::{Policy, has_policy};
use crate::registry::PluginError;
use crate::response::Response;
use crate::store::PolicyStore;

verus! {

/// The length of the leading run of characters before the first slash.
pub open spec fn seg_len(s: Seq<char>) -> int
    decreases s.len(),
{
    if s.len() == 0 {
        0
    } else if s[0] == '/' {
        0
    } else {
        1 + seg_len(s.skip(1))
    }
}

/// The policy name a request path carries: the first path segment, after a
/// leading slash if there is one.
pub open spec fn first_segment(path: Seq<char>) -> Seq<char> {
    let t = if path.len() > 0 && path[0] == '/' {
        path.skip(1)
    } else {
        path
    };
    t.take(seg_len(t))
}

/// `seg_len` is the position of the first slash, or the whole length when
/// there is none.
pub proof fn lemma_seg_len_at(s: Seq<char>, k: int)
    requires
        0 <= k <= s.len(),
        forall|j: int| 0 <= j < k ==> s[j] != '/',
        k == s.len() || s[k] == '/',
    ensures
        seg_len(s) == k,
    decreases k,
{
    if k == 0 {
    } else {
        assert(s[0] != '/');
        lemma_seg_len_at(s.skip(1), k - 1);
    }
}

/// Extracts the policy name from the request path: the first path segment.
pub fn policy_name_from_path(path: &str) -> (r: String)
    ensures
        r@ == first_segment(path@),
{
    let n = path.unicode_len();
    let start: usize = if n > 0 && path.get_char(0) == '/' {
        1
    } else {
        0
    };
    let mut end: usize = start;
    while end < n && path.get_char(end) != '/'
        invariant
            n == path@.len(),
            start <= end <= n,
            start == 0 || start == 1,
            start == 1 ==> n > 0 && path@[0] == '/',
            start == 0 ==> n == 0 || path@[0] != '/',
            forall|j: int| start <= j < end ==> path@[j] != '/',
        decreases n - end,
    {
        end = end + 1;
    }
    let seg = path.substring_char(start, end);
    proof {
        let t = if path@.len() > 0 && path@[0] == '/' {
            path@.skip(1)
        } else {
            path@
        };
        assert(forall|j: int| 0 <= j < end - start ==> t[j] != '/');
        lemma_seg_len_at(t, end - start);
        assert(seg@ =~= t.take(end - start));
    }
    seg.to_owned()
}

/// A rejection by a handler becomes a forbidden response naming the reason;
/// the request never reaches the upstream when the rejection is inbound.
pub fn rejection_response(reason: &str) -> (r: Response)
    ensures
        r.wf(),
        r.status == 403,
        r.body@ == "Rejected: "@ + reason@,
{
    let mut body = String::from_str("Rejected: ");
    body.append(reason);
    Response::new(403, body)
}

/// Resolves the request path to a policy: the first path segment is the
/// policy name, and a miss becomes a not-found response naming the unknown
/// policy. Only a hit lets the request proceed.
pub fn resolve<'a>(store: &'a PolicyStore, path: &str) -> (r: Result<&'a Policy, Response>)
    ensures
        r is Ok <==> has_policy(store.policies@, first_segment(path@)),
        r matches Ok(p) ==> p.name@ == first_segment(path@) && exists|i: int|
            0 <= i < store.policies@.len() && store.policies@[i] == *p,
        r matches Err(resp) ==> resp.wf() && resp.status == 404 && resp.body@ == "Policy '"@
            + first_segment(path@) + "' not found"@,
{
    let name = policy_name_from_path(path);
    match store.lookup(name.as_str()) {
        Some(p) => Ok(p),
        None => {
            let mut body = String::from_str("Policy '");
            body.append(name.as_str());
            body.append("' not found");
            Err(Response::new(404, body))
        },
    }
}

/// Decides what follows the inbound chain: a rejection ends the request with
/// a forbidden response and the upstream URL is never produced — the upstream
/// is not called; otherwise the request proceeds to forwarding, and the
/// result is the exact URL to call.
pub fn after_inbound(policy: &Policy, run: &ChainRun) -> (r: Result<String, Response>)
    requires
        run.spec_finished(),
    ensures
        r is Ok <==> run.rejection is None,
        r matches Ok(url) ==> url@ == policy.target@ + "/"@ + policy.endpoint@,
        r matches Err(resp) ==> run.rejection matches Some(reason) && resp.wf() && resp.status
            == 403 && resp.body@ == "Rejected: "@ + reason@,
{
    match &run.rejection {
        Option::Some(reason) => Err(rejection_response(reason.as_str())),
        Option::None => Ok(build_url(policy)),
    }
}

/// A plugin that could not be resolved fails only the current request: the
/// response is a server error naming the handler.
pub fn plugin_failure_response(e: &PluginError) -> (r: Response)
    ensures
        r.wf(),
        r.status == 500,
        match *e {
            PluginError::LoadFailure(handler) => r.body@ == "Failed to load plugin for handler '"@
                + handler@ + "'"@,
            PluginError::SymbolNotFound(handler) => r.body@
                == "Entry point not found for handler '"@ + handler@ + "'"@,
        },
{
    match e {
        PluginError::LoadFailure(handler) => {
            let mut body = String::from_str("Failed to load plugin for handler '");
            body.append(handler.as_str());
            body.append("'");
            Response::new(500, body)
        },
        PluginError::SymbolNotFound(handler) => {
            let mut body = String::from_str("Entry point not found for handler '");
            body.append(handler.as_str());
            body.append("'");
            Response::new(500, body)
        },
    }
}

/// Completes a request whose upstream call succeeded, after the outbound
/// chain finished: an outbound rejection still yields the forbidden response,
/// and otherwise the gateway answers with the upstream's status and body
/// untouched — no outbound handler can alter them.
pub fn complete(upstream: &UpstreamResponse, run: &ChainRun) -> (r: Response)
    requires
        run.spec_finished(),
        upstream.wf(),
    ensures
        r.wf(),
        run.rejection is None ==> r.status == upstream.status && r.body@ == upstream.body@,
        run.rejection matches Some(reason) ==> r.status == 403 && r.body@ == "Rejected: "@
            + reason@,
{
    match &run.rejection {
        Option::Some(reason) => rejection_response(reason.as_str()),
        Option::None => Response::new(upstream.status, upstream.body.clone()),
    }
}

} // verus!
