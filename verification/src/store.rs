//! The policy store: an immutable table from policy name to policy, built
//! once at load time and atomically replaced on reload. Loading fails when
//! two policies share a name, and then no store is produced.

use vstd::prelude::*;
use crate::policy::{Policy, has_policy, unique_names};

verus! {

/// Why a policy set was refused at load time. A duplicate name is detected
/// here; an unreadable or malformed source is reported by the configuration
/// loader that feeds this store.
#[derive(Debug)]
pub enum ConfigError {
    /// The policy source could not be read.
    Unreadable,
    /// The policy source could not be parsed.
    Malformed,
    /// Two policies share this name.
    DuplicateName(String),
}

/// An immutable table of policies, queryable by exact name.
pub struct PolicyStore {
    pub policies: Vec<Policy>,
}

impl PolicyStore {
    /// All names in the store are unique and every policy is well formed.
    pub open spec fn wf(&self) -> bool {
        &&& unique_names(self.policies@)
        &&& forall|i: int| 0 <= i < self.policies@.len() ==> self.policies@[i].wf()
    }

    /// Builds a store from a policy set. Fails with a `ConfigError` exactly
    /// when two policies share a name, and then produces no store at all.
    pub fn load(policies: Vec<Policy>) -> (r: Result<PolicyStore, ConfigError>)
        requires
            forall|i: int| 0 <= i < policies@.len() ==> policies@[i].wf(),
        ensures
            r is Ok <==> unique_names(policies@),
            r matches Ok(s) ==> s.policies@ == policies@ && s.wf(),
            r matches Err(e) ==> e matches ConfigError::DuplicateName(n) && exists|i: int, j: int|
                0 <= i < j < policies@.len() && policies@[i].name@ == n@ && policies@[j].name@
                    == n@,
    {
        let n = policies.len();
        let mut i: usize = 0;
        while i < n
            invariant
                n == policies@.len(),
                i <= n,
                forall|a: int, b: int|
                    0 <= a < b < n && a < i ==> policies@[a].name@ != policies@[b].name@,
            decreases n - i,
        {
            let mut j: usize = i + 1;
            while j < n
                invariant
                    n == policies@.len(),
                    i < n,
                    i < j <= n,
                    forall|b: int| i < b < j ==> policies@[i as int].name@ != policies@[b].name@,
                decreases n - j,
            {
                if policies[i].name == policies[j].name {
                    return Err(ConfigError::DuplicateName(policies[i].name.clone()));
                }
                j = j + 1;
            }
            i = i + 1;
        }
        Ok(PolicyStore { policies })
    }

    /// Looks a policy up by exact name: `Some` holds a policy with that name
    /// exactly when the store has one, `None` comes exactly when it has none.
    pub fn lookup(&self, name: &str) -> (r: Option<&Policy>)
        ensures
            r is Some <==> has_policy(self.policies@, name@),
            r matches Some(p) ==> p.name@ == name@ && exists|i: int|
                0 <= i < self.policies@.len() && self.policies@[i] == *p,
    {
        let key: String = name.to_owned();
        let n = self.policies.len();
        let mut i: usize = 0;
        while i < n
            invariant
                n == self.policies@.len(),
                i <= n,
                key@ == name@,
                forall|a: int| 0 <= a < i ==> self.policies@[a].name@ != name@,
            decreases n - i,
        {
            if self.policies[i].name == key {
                return Some(&self.policies[i]);
            }
            i = i + 1;
        }
        None
    }

    /// Rebuilds the table from a new policy set and publishes it atomically:
    /// on failure the store is left exactly as it was, never partially built.
    pub fn reload(&mut self, policies: Vec<Policy>) -> (r: Result<(), ConfigError>)
        requires
            forall|i: int| 0 <= i < policies@.len() ==> policies@[i].wf(),
        ensures
            r is Ok <==> unique_names(policies@),
            r is Ok ==> final(self).policies@ == policies@ && final(self).wf(),
            r is Err ==> *final(self) == *old(self),
    {
        match Self::load(policies) {
            Ok(s) => {
                *self = s;
                Ok(())
            },
            Err(e) => Err(e),
        }
    }
}

/// Law: in a policy set with unique names, a policy found under a name is
/// the one policy bearing that name — every entry with that name is it.
pub proof fn lemma_lookup_exact(policies: Seq<Policy>, p: Policy, name: Seq<char>)
    requires
        unique_names(policies),
        exists|i: int| 0 <= i < policies.len() && policies[i] == p,
        p.name@ == name,
    ensures
        forall|i: int| 0 <= i < policies.len() && policies[i].name@ == name ==> policies[i] == p,
{
    let w = choose|w: int| 0 <= w < policies.len() && policies[w] == p;
    assert forall|i: int|
        0 <= i < policies.len() && policies[i].name@ == name implies policies[i] == p by {
        if i != w {
            assert(policies[w].name@ == name);
        }
    }
}

} // verus!
