//! The registry of deferred hooks.
//!
//! A deferred hook names a module that may not be loaded yet and an offset
//! into it. When the loader finishes initialising a module, every entry
//! registered for that module's name turns into an install request at the
//! module's base address. Entries are never consumed: a module loaded again
//! under the same name gets its hooks again.

use vstd::prelude::*;
use crate::hooks::{absolute_address, resolve_address, HookKind, InstallRequest};

verus! {

/// The name that stands for a module whose name the loader cannot give.
pub const INVALID_MODULE_NAME: &'static str = "__invalid_name";

/// A hook waiting for its module.
#[derive(Clone, Debug)]
pub struct DeferredHookEntry {
    /// Byte offset of the symbol from the module's base.
    pub symbol_offset: u64,
    /// Address of the replacement function.
    pub replacement: u64,
    /// Address of the slot that receives the trampoline.
    pub out_trampoline: u64,
    /// Name of the module the hook is for, compared exactly.
    pub module_name: String,
    pub kind: HookKind,
}

/// Whether the hook on the loader's module initialisation is in place.
#[derive(Clone, Copy, Debug, PartialEq, Eq, Structural)]
pub enum InterceptorState {
    Uninstalled,
    Installed,
}

/// What a registry holds: its entries in registration order and the state of
/// the loader interceptor.
pub struct RegistryModel {
    pub entries: Seq<DeferredHookEntry>,
    pub interceptor: InterceptorState,
}

/// Whether entry `e` is for the module named `name`.
pub open spec fn targets_module(e: DeferredHookEntry, name: Seq<char>) -> bool {
    e.module_name@ == name
}

/// The request that applies entry `e` to a module loaded at `base`.
pub open spec fn request_for(e: DeferredHookEntry, base: u64) -> InstallRequest {
    InstallRequest {
        target: absolute_address(base, e.symbol_offset),
        replacement: e.replacement,
        out_trampoline: e.out_trampoline,
        kind: e.kind,
    }
}

/// The entries of `entries` that are for module `name`, in order.
pub open spec fn entries_for(entries: Seq<DeferredHookEntry>, name: Seq<char>) -> Seq<DeferredHookEntry>
    decreases entries.len(),
{
    if entries.len() == 0 {
        Seq::empty()
    } else if targets_module(entries.last(), name) {
        entries_for(entries.drop_last(), name).push(entries.last())
    } else {
        entries_for(entries.drop_last(), name)
    }
}

/// The requests that loading module `name` at `base` makes of `entries`: one
/// for each entry for that module, in registration order.
pub open spec fn install_plan(entries: Seq<DeferredHookEntry>, name: Seq<char>, base: u64) -> Seq<InstallRequest>
    decreases entries.len(),
{
    if entries.len() == 0 {
        Seq::empty()
    } else if targets_module(entries.last(), name) {
        install_plan(entries.drop_last(), name, base).push(request_for(entries.last(), base))
    } else {
        install_plan(entries.drop_last(), name, base)
    }
}

/// The registry once `e` has been registered: `e` is appended and the
/// interceptor is in place.
pub open spec fn after_register(m: RegistryModel, e: DeferredHookEntry) -> RegistryModel {
    RegistryModel { entries: m.entries.push(e), interceptor: InterceptorState::Installed }
}

/// The registry once each of `es` has been registered, in order.
pub open spec fn after_registering_all(m: RegistryModel, es: Seq<DeferredHookEntry>) -> RegistryModel
    decreases es.len(),
{
    if es.len() == 0 {
        m
    } else {
        after_register(after_registering_all(m, es.drop_last()), es.last())
    }
}

/// How many of the registrations of `es`, in order, asked for the interceptor
/// to be installed.
pub open spec fn interceptor_installs(m: RegistryModel, es: Seq<DeferredHookEntry>) -> nat
    decreases es.len(),
{
    if es.len() == 0 {
        0
    } else {
        interceptor_installs(m, es.drop_last()) + if after_registering_all(
            m,
            es.drop_last(),
        ).interceptor == InterceptorState::Uninstalled {
            1nat
        } else {
            0nat
        }
    }
}

/// The name under which a loaded module is matched: its own, or the stand-in
/// where the loader gives none.
pub open spec fn loaded_name(name: Option<Seq<char>>) -> Seq<char> {
    match name {
        Some(n) => n,
        None => INVALID_MODULE_NAME@,
    }
}

/// The deferred hooks of the process and the state of the loader interceptor.
pub struct HookRegistry {
    entries: Vec<DeferredHookEntry>,
    interceptor: InterceptorState,
}

impl View for HookRegistry {
    type V = RegistryModel;

    closed spec fn view(&self) -> RegistryModel {
        RegistryModel { entries: self.entries@, interceptor: self.interceptor }
    }
}

impl HookRegistry {
    /// An empty registry; the interceptor is not installed yet.
    pub fn new() -> (r: Self)
        ensures
            r@.entries == Seq::<DeferredHookEntry>::empty(),
            r@.interceptor == InterceptorState::Uninstalled,
    {
        HookRegistry { entries: Vec::new(), interceptor: InterceptorState::Uninstalled }
    }

    /// How many entries are registered.
    pub fn len(&self) -> (r: usize)
        ensures
            r == self@.entries.len(),
    {
        self.entries.len()
    }

    /// The entry registered in position `i`.
    pub fn entry(&self, i: usize) -> (r: &DeferredHookEntry)
        requires
            i < self@.entries.len(),
        ensures
            *r == self@.entries[i as int],
    {
        &self.entries[i]
    }

    /// Whether the loader interceptor is in place.
    pub fn interceptor_installed(&self) -> (r: bool)
        ensures
            r == (self@.interceptor == InterceptorState::Installed),
    {
        match self.interceptor {
            InterceptorState::Installed => true,
            InterceptorState::Uninstalled => false,
        }
    }

    /// Appends `entry`. The result is `true` exactly on the first
    /// registration, when the caller must install the loader interceptor
    /// before it lets go of the registry; from then on the registry counts it
    /// as installed.
    pub fn register_deferred(&mut self, entry: DeferredHookEntry) -> (install_interceptor: bool)
        ensures
            final(self)@ == after_register(old(self)@, entry),
            install_interceptor == (old(self)@.interceptor == InterceptorState::Uninstalled),
    {
        let first = match self.interceptor {
            InterceptorState::Uninstalled => true,
            InterceptorState::Installed => false,
        };
        self.interceptor = InterceptorState::Installed;
        self.entries.push(entry);
        first
    }

    /// The install requests for module `name`, loaded at `base`: one per entry
    /// registered for it, in registration order, each aimed at `base` plus
    /// the entry's offset. Entries for other modules give none, and no entry
    /// is consumed.
    pub fn apply_for_module(&self, name: &str, base: u64) -> (r: Vec<InstallRequest>)
        ensures
            r@ == install_plan(self@.entries, name@, base),
    {
        let wanted = name.to_owned();
        let mut r: Vec<InstallRequest> = Vec::new();
        let mut i: usize = 0;
        while i < self.entries.len()
            invariant
                i <= self.entries@.len(),
                wanted@ == name@,
                r@ == install_plan(self.entries@.subrange(0, i as int), name@, base),
            decreases self.entries@.len() - i,
        {
            let e = &self.entries[i];
            proof {
                assert(self.entries@.subrange(0, i + 1).drop_last() =~= self.entries@.subrange(0, i as int));
            }
            if e.module_name == wanted {
                r.push(
                    InstallRequest {
                        target: resolve_address(base, e.symbol_offset),
                        replacement: e.replacement,
                        out_trampoline: e.out_trampoline,
                        kind: e.kind,
                    },
                );
            }
            i = i + 1;
        }
        proof {
            assert(self.entries@.subrange(0, i as int) =~= self.entries@);
        }
        r
    }

    /// The requests to make once the loader has initialised a module at
    /// `base`. A module whose name the loader cannot give is matched under
    /// `INVALID_MODULE_NAME`.
    pub fn on_module_loaded(&self, name: Option<&str>, base: u64) -> (r: Vec<InstallRequest>)
        ensures
            r@ == install_plan(self@.entries, loaded_name(
                match name {
                    Some(n) => Some(n@),
                    None => None,
                },
            ), base),
    {
        match name {
            Some(n) => self.apply_for_module(n, base),
            None => self.apply_for_module(INVALID_MODULE_NAME, base),
        }
    }
}

/// The plan for a module is its entries, each turned into a request at the
/// module's base: every entry for the module is applied exactly once per
/// load, in registration order, and no other entry is.
pub proof fn lemma_plan_is_entries_for(entries: Seq<DeferredHookEntry>, name: Seq<char>, base: u64)
    ensures
        install_plan(entries, name, base).len() == entries_for(entries, name).len(),
        forall|k: int|
            0 <= k < install_plan(entries, name, base).len() ==> #[trigger] install_plan(
                entries,
                name,
                base,
            )[k] == request_for(entries_for(entries, name)[k], base),
        forall|k: int|
            0 <= k < entries_for(entries, name).len() ==> targets_module(
                #[trigger] entries_for(entries, name)[k],
                name,
            ),
    decreases entries.len(),
{
    if entries.len() > 0 {
        lemma_plan_is_entries_for(entries.drop_last(), name, base);
    }
}

/// Every request made when module `a` loads comes from an entry registered
/// for `a`; none comes from an entry for another module `b`.
pub proof fn lemma_no_cross_application(
    entries: Seq<DeferredHookEntry>,
    a: Seq<char>,
    b: Seq<char>,
    base: u64,
)
    requires
        a != b,
    ensures
        forall|k: int|
            0 <= k < install_plan(entries, a, base).len() ==> exists|i: int|
                0 <= i < entries.len() && targets_module(entries[i], a) && !targets_module(
                    entries[i],
                    b,
                ) && #[trigger] install_plan(entries, a, base)[k] == request_for(entries[i], base),
    decreases entries.len(),
{
    if entries.len() > 0 {
        let init = entries.drop_last();
        lemma_no_cross_application(init, a, b, base);
        assert forall|k: int| 0 <= k < install_plan(entries, a, base).len() implies exists|i: int|
            0 <= i < entries.len() && targets_module(entries[i], a) && !targets_module(entries[i], b)
                && #[trigger] install_plan(entries, a, base)[k] == request_for(entries[i], base) by {
            if k < install_plan(init, a, base).len() {
                let i = choose|i: int|
                    0 <= i < init.len() && targets_module(init[i], a) && !targets_module(init[i], b)
                        && #[trigger] install_plan(init, a, base)[k] == request_for(init[i], base);
                assert(entries[i] == init[i]);
            } else {
                assert(entries[entries.len() - 1] == entries.last());
            }
        }
    }
}

/// A hook registered for a module before it loads is applied when it loads:
/// the plan is the earlier plan followed by exactly one request for it, at
/// the module's base plus the hook's offset.
pub proof fn lemma_registered_hook_applied_once(
    m: RegistryModel,
    e: DeferredHookEntry,
    base: u64,
)
    ensures
        install_plan(after_register(m, e).entries, e.module_name@, base) == install_plan(
            m.entries,
            e.module_name@,
            base,
        ).push(request_for(e, base)),
        request_for(e, base).target == absolute_address(base, e.symbol_offset),
{
    assert(m.entries.push(e).drop_last() =~= m.entries);
}

/// Registrations, one after another, lose none: the table ends with all of
/// them appended in order, and the interceptor is asked for once at most,
/// exactly when the first registration finds it missing.
pub proof fn lemma_registrations_all_kept(m: RegistryModel, es: Seq<DeferredHookEntry>)
    ensures
        after_registering_all(m, es).entries == m.entries + es,
        after_registering_all(m, es).entries.len() == m.entries.len() + es.len(),
        interceptor_installs(m, es) == if es.len() > 0 && m.interceptor
            == InterceptorState::Uninstalled {
            1nat
        } else {
            0nat
        },
        es.len() > 0 ==> after_registering_all(m, es).interceptor == InterceptorState::Installed,
    decreases es.len(),
{
    if es.len() > 0 {
        lemma_registrations_all_kept(m, es.drop_last());
        assert(m.entries + es =~= (m.entries + es.drop_last()).push(es.last()));
    } else {
        assert(m.entries + es =~= m.entries);
    }
}

} // verus!
