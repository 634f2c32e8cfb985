//! The configuration data model: a policy binds an inbound and an outbound
//! handler chain to an upstream target. Policies and handler configurations
//! are built once at load time and read-only afterwards.

use vstd::prelude::*;

verus! {

/// Configuration for one handler in a chain: the name of the plugin to
/// invoke and the parameters passed to it opaquely.
pub struct HandlerConfig {
    pub name: String,
    pub params: Vec<(String, String)>,
}

impl HandlerConfig {
    /// Parameter keys are unique within one handler configuration.
    pub open spec fn wf(&self) -> bool {
        forall|i: int, j: int|
            0 <= i < j < self.params@.len() ==> self.params@[i].0@ != self.params@[j].0@
    }
}

/// A named policy: an ordered inbound chain, an ordered outbound chain, an
/// upstream origin and a path suffix on it.
pub struct Policy {
    pub name: String,
    pub in_handlers: Vec<HandlerConfig>,
    pub out_handlers: Vec<HandlerConfig>,
    pub target: String,
    pub endpoint: String,
}

impl Policy {
    pub open spec fn wf(&self) -> bool {
        &&& forall|i: int| 0 <= i < self.in_handlers@.len() ==> self.in_handlers@[i].wf()
        &&& forall|i: int| 0 <= i < self.out_handlers@.len() ==> self.out_handlers@[i].wf()
    }
}

/// No two policies in the sequence share a name.
pub open spec fn unique_names(policies: Seq<Policy>) -> bool {
    forall|i: int, j: int|
        0 <= i < j < policies.len() ==> policies[i].name@ != policies[j].name@
}

/// Some policy in the sequence carries the given name.
pub open spec fn has_policy(policies: Seq<Policy>, name: Seq<char>) -> bool {
    exists|i: int| 0 <= i < policies.len() && policies[i].name@ == name
}

} // verus!
