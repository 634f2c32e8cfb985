//! The plugin registry: native handler code is loaded by logical handler
//! name and cached, so each distinct handler is loaded at most once for the
//! process lifetime. The registry verified here is the cache and the
//! name-to-entry-point mapping; the loading itself is native and lives with
//! the caller, which consults the cache before every load.

use vstd::prelude::*;
use vstd::string::*;

verus! {

/// Why a handler's plugin could not be resolved. Each carries the handler
/// name. Both fail only the current request, never the process.
pub enum PluginError {
    /// The native unit is missing or failed to initialize.
    LoadFailure(String),
    /// The unit loaded but its entry point is absent.
    SymbolNotFound(String),
}

/// The cache of loaded handler names. A name is recorded exactly once,
/// however many requests reference it.
pub struct PluginRegistry {
    pub loaded: Vec<String>,
}

impl PluginRegistry {
    /// No handler name occupies two cache slots.
    pub open spec fn wf(&self) -> bool {
        forall|i: int, j: int|
            0 <= i < j < self.loaded@.len() ==> self.loaded@[i]@ != self.loaded@[j]@
    }

    /// Whether this handler name has been loaded already.
    pub open spec fn is_loaded(&self, name: Seq<char>) -> bool {
        exists|i: int| 0 <= i < self.loaded@.len() && self.loaded@[i]@ == name
    }

    /// An empty cache: nothing has been loaded.
    pub fn new() -> (r: PluginRegistry)
        ensures
            r.wf(),
            r.loaded@.len() == 0,
            forall|name: Seq<char>| !r.is_loaded(name),
    {
        PluginRegistry { loaded: Vec::new() }
    }

    /// Whether the plugin behind this handler name is already cached: on a
    /// hit no load happens; only on a miss does the caller load and record.
    pub fn is_cached(&self, name: &str) -> (r: bool)
        ensures
            r == self.is_loaded(name@),
    {
        let key: String = name.to_owned();
        let n = self.loaded.len();
        let mut i: usize = 0;
        while i < n
            invariant
                n == self.loaded@.len(),
                i <= n,
                key@ == name@,
                forall|a: int| 0 <= a < i ==> self.loaded@[a]@ != name@,
            decreases n - i,
        {
            if self.loaded[i] == key {
                return true;
            }
            i = i + 1;
        }
        false
    }

    /// Records that the plugin behind this handler name is now loaded. The
    /// cache grows by exactly that one name; everything cached stays cached.
    pub fn record_load(&mut self, name: &str)
        requires
            old(self).wf(),
            !old(self).is_loaded(name@),
        ensures
            final(self).wf(),
            final(self).loaded@.len() == old(self).loaded@.len() + 1,
            final(self).loaded@.drop_last() == old(self).loaded@,
            final(self).loaded@.last()@ == name@,
            final(self).is_loaded(name@),
    {
        self.loaded.push(name.to_owned());
        proof {
            assert(final(self).loaded@.drop_last() =~= old(self).loaded@);
        }
    }
}

/// The entry-point symbol resolved for a handler name: the fixed, validated
/// mapping from logical handler name to the name of its native entry point.
pub fn symbol_name(handler: &str) -> (r: String)
    ensures
        r@ == "execute_"@ + handler@,
{
    let mut s = String::from_str("execute_");
    s.append(handler);
    s
}

/// Law: a plugin for a given handler name is loaded at most once — the name
/// never occupies two cache slots, however many requests reference it.
pub proof fn lemma_loaded_at_most_once(reg: PluginRegistry, name: Seq<char>, i: int, j: int)
    requires
        reg.wf(),
        0 <= i < reg.loaded@.len(),
        0 <= j < reg.loaded@.len(),
        reg.loaded@[i]@ == name,
        reg.loaded@[j]@ == name,
    ensures
        i == j,
{
}

/// Law: the load count equals the number of distinct handler names loaded —
/// the cache holds no name twice, so its length is the cardinality of the
/// set of loaded names.
pub proof fn lemma_load_count_is_distinct_names(reg: PluginRegistry)
    requires
        reg.wf(),
    ensures
        reg.loaded@.map_values(|s: String| s@).to_set().len() == reg.loaded@.len(),
{
    let names = reg.loaded@.map_values(|s: String| s@);
    assert(names.no_duplicates());
    names.unique_seq_to_set();
}

} // verus!
