//! Handler-chain execution: an ordered chain of handlers runs left to right;
//! a rejection stops the chain at once, a handler error is recorded and the
//! chain continues, and an empty chain trivially succeeds.
//!
//! Handler invocation itself crosses a trust boundary (native plugin code),
//! so the executor is a step machine: it names the next handler due to run,
//! the caller invokes that handler and reports its outcome, and the machine
//! advances. Everything the chain decides is verified here, whatever the
//! handlers return.

use vstd::prelude::*;

verus! {

/// What one handler invocation reports back.
pub enum HandlerOutcome {
    /// Proceed to the next handler or stage.
    Continue,
    /// Stop the chain and refuse the request, with a reason.
    Reject(String),
    /// The handler malfunctioned; the detail is recorded and the chain
    /// continues — handlers are best-effort stages unless they reject.
    Error(String),
}

/// The state of one chain execution: how many handlers the chain has, which
/// one runs next, whether a handler rejected, and the errors recorded so far.
pub struct ChainRun {
    pub chain_len: usize,
    pub next: usize,
    pub rejection: Option<String>,
    pub errors: Vec<String>,
}

impl ChainRun {
    pub open spec fn wf(&self) -> bool {
        &&& self.next <= self.chain_len
        &&& self.rejection is Some ==> self.next < self.chain_len
    }

    /// The index of the handler due to run next, or `None` when the run is
    /// over: every handler ran, or one rejected.
    pub open spec fn pending_index(&self) -> Option<int> {
        if self.rejection is None && self.next < self.chain_len {
            Some(self.next as int)
        } else {
            None
        }
    }

    pub open spec fn spec_finished(&self) -> bool {
        self.pending_index() is None
    }

    pub open spec fn spec_rejected(&self) -> bool {
        self.rejection is Some
    }

    /// Starts a run over a chain of the given length. No handler has run and
    /// nothing was rejected or recorded.
    pub fn begin(chain_len: usize) -> (r: ChainRun)
        ensures
            r.wf(),
            r.chain_len == chain_len,
            r.next == 0,
            r.rejection is None,
            r.errors@ == Seq::<String>::empty(),
    {
        ChainRun { chain_len, next: 0, rejection: None, errors: Vec::new() }
    }

    /// The index of the handler due to run next, or `None` when the run is
    /// over.
    pub fn pending(&self) -> (r: Option<usize>)
        ensures
            r is Some <==> self.pending_index() is Some,
            r matches Some(i) ==> self.pending_index() == Some(i as int) && i == self.next,
    {
        if self.rejection.is_none() && self.next < self.chain_len {
            Some(self.next)
        } else {
            None
        }
    }

    pub fn finished(&self) -> (r: bool)
        ensures
            r == self.spec_finished(),
    {
        self.pending().is_none()
    }

    /// Records the outcome the pending handler reported: `Continue` moves to
    /// the next handler, `Error` records the detail and moves on, `Reject`
    /// stops the run where it stands — no later handler ever becomes pending.
    pub fn record(&mut self, outcome: &HandlerOutcome)
        requires
            old(self).wf(),
            old(self).pending_index() is Some,
        ensures
            final(self).wf(),
            final(self).chain_len == old(self).chain_len,
            match *outcome {
                HandlerOutcome::Continue => {
                    &&& final(self).next == old(self).next + 1
                    &&& final(self).rejection is None
                    &&& final(self).errors@ == old(self).errors@
                },
                HandlerOutcome::Error(detail) => {
                    &&& final(self).next == old(self).next + 1
                    &&& final(self).rejection is None
                    &&& final(self).errors@ == old(self).errors@.push(detail)
                },
                HandlerOutcome::Reject(reason) => {
                    &&& final(self).next == old(self).next
                    &&& final(self).rejection == Some(reason)
                    &&& final(self).errors@ == old(self).errors@
                    &&& final(self).spec_finished()
                },
            },
    {
        match outcome {
            HandlerOutcome::Continue => {
                self.next = self.next + 1;
            },
            HandlerOutcome::Error(detail) => {
                self.errors.push(detail.clone());
                self.next = self.next + 1;
            },
            HandlerOutcome::Reject(reason) => {
                self.rejection = Some(reason.clone());
            },
        }
    }
}

/// The details of the `Error` outcomes among the first `k` entries, in order.
pub open spec fn errors_before(outcomes: Seq<HandlerOutcome>, k: int) -> Seq<String>
    decreases k,
{
    if k <= 0 {
        Seq::empty()
    } else {
        let pre = errors_before(outcomes, k - 1);
        match outcomes[k - 1] {
            HandlerOutcome::Error(detail) => pre.push(detail),
            _ => pre,
        }
    }
}

/// Runs a whole chain whose handlers would report the given outcomes, one
/// per handler, in declared order.
///
/// Law: handlers run left to right and a rejection short-circuits the run —
/// the run stops at the first rejecting handler, no handler after it runs,
/// and the errors recorded are exactly those of the handlers that did run.
/// A run without a rejection executes every handler; an empty chain
/// trivially succeeds.
pub fn run_chain(outcomes: &Vec<HandlerOutcome>) -> (r: ChainRun)
    ensures
        r.wf(),
        r.chain_len == outcomes@.len(),
        r.spec_finished(),
        r.errors@ == errors_before(outcomes@, r.next as int),
        match r.rejection {
            Option::None => r.next == outcomes@.len() && forall|i: int|
                0 <= i < outcomes@.len() ==> !(outcomes@[i] is Reject),
            Option::Some(reason) => {
                &&& r.next < outcomes@.len()
                &&& outcomes@[r.next as int] == HandlerOutcome::Reject(reason)
                &&& forall|i: int| 0 <= i < r.next ==> !(outcomes@[i] is Reject)
            },
        },
{
    let n = outcomes.len();
    let mut run = ChainRun::begin(n);
    while run.next < n && run.rejection.is_none()
        invariant
            run.wf(),
            run.chain_len == n,
            n == outcomes@.len(),
            run.errors@ == errors_before(outcomes@, run.next as int),
            run.rejection is None ==> forall|i: int|
                0 <= i < run.next ==> !(outcomes@[i] is Reject),
            run.rejection matches Some(reason) ==> {
                &&& run.next < n
                &&& outcomes@[run.next as int] == HandlerOutcome::Reject(reason)
                &&& forall|i: int| 0 <= i < run.next ==> !(outcomes@[i] is Reject)
            },
        decreases n - run.next + (if run.rejection is None { 1int } else { 0int }),
    {
        let i = run.next;
        run.record(&outcomes[i]);
        proof {
            assert(errors_before(outcomes@, i + 1) == match outcomes@[i as int] {
                HandlerOutcome::Error(detail) => errors_before(outcomes@, i as int).push(detail),
                _ => errors_before(outcomes@, i as int),
            });
        }
    }
    run
}

/// Law: once a handler has rejected, no handler is ever pending again — the
/// handlers after it never execute.
pub proof fn lemma_reject_short_circuits(run: ChainRun)
    requires
        run.spec_rejected(),
    ensures
        run.pending_index() is None,
{
}

} // verus!
