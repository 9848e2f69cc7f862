use std::collections::BTreeMap;
use vstd::prelude::*;

verus! {

broadcast use vstd::std_specs::btree::group_btree_axioms;

/// A device context with its loaded kernel module, and the registry that maps
/// the identity of a kernel entry point to the symbol the module exports.
pub struct Runtime {
    context: u64,
    module: u64,
    function_names: BTreeMap<u64, String>,
}

impl Runtime {
    /// The device context handle this runtime owns.
    pub closed spec fn context_spec(&self) -> u64 {
        self.context
    }

    /// The loaded module handle this runtime owns.
    pub closed spec fn module_spec(&self) -> u64 {
        self.module
    }

    /// The registry: entry-point identity to kernel symbol name.
    pub closed spec fn names(&self) -> Map<u64, Seq<char>> {
        Map::new(
            |k: u64| self.function_names@.contains_key(k),
            |k: u64| self.function_names@[k]@,
        )
    }

    /// A runtime over a freshly created context and module, with no kernel
    /// entry point registered yet.
    pub fn from_handles(context: u64, module: u64) -> (r: Runtime)
        ensures
            r.context_spec() == context,
            r.module_spec() == module,
            r.names() == Map::<u64, Seq<char>>::empty(),
    {
        let r = Runtime { context, module, function_names: BTreeMap::new() };
        assert(r.names() =~= Map::<u64, Seq<char>>::empty());
        r
    }

    /// The device context handle, to be destroyed when the runtime is dropped.
    pub fn context(&self) -> (r: u64)
        ensures
            r == self.context_spec(),
    {
        self.context
    }

    /// The loaded module handle, from which kernel symbols are resolved.
    pub fn module(&self) -> (r: u64)
        ensures
            r == self.module_spec(),
    {
        self.module
    }

    /// Registers `name` as the symbol for the entry point whose identity is
    /// `f`, replacing any earlier name for the same identity.
    pub fn record_function_name(&mut self, f: u64, name: &str)
        ensures
            final(self).names() == old(self).names().insert(f, name@),
            final(self).context_spec() == old(self).context_spec(),
            final(self).module_spec() == old(self).module_spec(),
    {
        let s = name.to_string();
        self.function_names.insert(f, s);
        assert(self.names() =~= old(self).names().insert(f, name@));
    }

    /// Registers the symbol of an entry point that also takes a shared-memory
    /// region; it is keyed by identity exactly as any other entry point.
    pub fn record_function_with_shared_memory_name(&mut self, f: u64, name: &str)
        ensures
            final(self).names() == old(self).names().insert(f, name@),
            final(self).context_spec() == old(self).context_spec(),
            final(self).module_spec() == old(self).module_spec(),
    {
        self.record_function_name(f, name);
    }

    /// The symbol registered for the entry point `f`, if any.
    pub fn function_name(&self, f: u64) -> (r: Option<&String>)
        ensures
            match r {
                Some(s) => self.names().contains_key(f) && s@ == self.names()[f],
                None => !self.names().contains_key(f),
            },
    {
        self.function_names.get(&f)
    }
}

/// Registering one entry point twice, under `first` and then `second`,
/// leaves the registry as if only `second` had been registered, so a launch
/// of it resolves `second` alone.
pub proof fn lemma_registry_overwrite(
    names: Map<u64, Seq<char>>,
    f: u64,
    first: Seq<char>,
    second: Seq<char>,
)
    ensures
        names.insert(f, first).insert(f, second) == names.insert(f, second),
        names.insert(f, first).insert(f, second)[f] == second,
{
    assert(names.insert(f, first).insert(f, second) =~= names.insert(f, second));
}

} // verus!
