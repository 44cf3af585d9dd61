//! Hook kinds, install requests and the table of installed hooks.
//!
//! The patching itself is done by the host's installer on raw memory; this
//! table records what was installed and hands out opaque handles for it.

use vstd::prelude::*;

verus! {

/// How a hook patches its target.
#[derive(Clone, Copy, Debug, PartialEq, Eq, Structural)]
pub enum HookKind {
    /// Redirects a function's entry and yields a trampoline to the original.
    Hook,
    /// Redirects an import slot and yields a trampoline to the original.
    Plt,
    /// Patches in place; the callback receives the full register context.
    LegacyInline,
    /// Redirects without producing a trampoline.
    Raw,
}

/// Whether hooks of kind `k` hand back a callable trampoline.
pub open spec fn yields_trampoline(k: HookKind) -> bool {
    k == HookKind::Hook || k == HookKind::Plt
}

impl HookKind {
    /// Whether hooks of this kind hand back a callable trampoline.
    pub fn produces_trampoline(&self) -> (r: bool)
        ensures
            r == yields_trampoline(*self),
    {
        match self {
            HookKind::Hook | HookKind::Plt => true,
            HookKind::LegacyInline | HookKind::Raw => false,
        }
    }
}

/// `base + offset` in the 64-bit address space, which wraps around.
pub open spec fn absolute_address(base: u64, offset: u64) -> u64 {
    if base + offset <= u64::MAX {
        (base + offset) as u64
    } else {
        (base + offset - 0x1_0000_0000_0000_0000int) as u64
    }
}

/// The absolute address of the symbol at `offset` in a module loaded at `base`.
pub fn resolve_address(base: u64, offset: u64) -> (r: u64)
    ensures
        r == absolute_address(base, offset),
{
    if offset <= u64::MAX - base {
        base + offset
    } else {
        offset - (u64::MAX - base) - 1
    }
}

/// One call that the installer is to make: patch `target` so that it reaches
/// `replacement`, and store the trampoline at `out_trampoline`.
#[derive(Clone, Copy, Debug, PartialEq, Eq, Structural)]
pub struct InstallRequest {
    pub target: u64,
    pub replacement: u64,
    pub out_trampoline: u64,
    pub kind: HookKind,
}

/// What the table knows of an installed hook.
#[derive(Clone, Copy, Debug, PartialEq, Eq, Structural)]
pub struct InstalledHook {
    pub target: u64,
    pub replacement: u64,
    pub trampoline: u64,
    pub kind: HookKind,
    pub enabled: bool,
}

/// An opaque handle to an installed hook.
#[derive(Clone, Copy, Debug, PartialEq, Eq, Structural)]
pub struct HookHandle {
    pub index: usize,
}

/// Why a request on an installed hook was not carried out.
#[derive(Clone, Copy, Debug, PartialEq, Eq, Structural)]
pub enum HookError {
    /// The handle names no installed hook.
    UnknownHandle,
    /// Hooks cannot be removed: they stay for the lifetime of the process.
    Unsupported,
}

/// Where a call to `target` lands, given the hooks `hooks` in installation
/// order: the replacement of the latest enabled hook on it, or nothing.
pub open spec fn redirect_of(hooks: Seq<InstalledHook>, target: u64) -> Option<u64>
    decreases hooks.len(),
{
    if hooks.len() == 0 {
        None
    } else if hooks.last().target == target && hooks.last().enabled {
        Some(hooks.last().replacement)
    } else {
        redirect_of(hooks.drop_last(), target)
    }
}

/// The installed hooks, addressed by handle.
pub struct HookTable {
    hooks: Vec<InstalledHook>,
}

impl View for HookTable {
    type V = Seq<InstalledHook>;

    closed spec fn view(&self) -> Seq<InstalledHook> {
        self.hooks@
    }
}

impl HookTable {
    /// A table with no hooks.
    pub fn new() -> (r: Self)
        ensures
            r@ == Seq::<InstalledHook>::empty(),
    {
        HookTable { hooks: Vec::new() }
    }

    /// How many hooks were recorded.
    pub fn len(&self) -> (r: usize)
        ensures
            r == self@.len(),
    {
        self.hooks.len()
    }

    /// The hook behind `h`, if `h` names one.
    pub fn get(&self, h: HookHandle) -> (r: Option<InstalledHook>)
        ensures
            r.is_some() <==> h.index < self@.len(),
            r.is_some() ==> r.unwrap() == self@[h.index as int],
    {
        if h.index < self.hooks.len() {
            Some(self.hooks[h.index])
        } else {
            None
        }
    }

    /// The handle of the first hook whose trampoline is `trampoline`.
    pub fn find_by_trampoline(&self, trampoline: u64) -> (r: Option<HookHandle>)
        ensures
            r.is_none() <==> (forall|i: int| 0 <= i < self@.len() ==> self@[i].trampoline != trampoline),
            r.is_some() ==> r.unwrap().index < self@.len() && self@[r.unwrap().index as int].trampoline
                == trampoline && forall|j: int|
                0 <= j < r.unwrap().index ==> self@[j].trampoline != trampoline,
    {
        let mut i: usize = 0;
        while i < self.hooks.len()
            invariant
                i <= self.hooks@.len(),
                forall|j: int| 0 <= j < i ==> self.hooks@[j].trampoline != trampoline,
            decreases self.hooks@.len() - i,
        {
            if self.hooks[i].trampoline == trampoline {
                return Some(HookHandle { index: i });
            }
            i = i + 1;
        }
        None
    }

    /// Records a hook that the installer has just put in place; it starts
    /// enabled.
    pub fn record(&mut self, target: u64, replacement: u64, trampoline: u64, kind: HookKind) -> (r:
        HookHandle)
        ensures
            r.index == old(self)@.len(),
            final(self)@ == old(self)@.push(
                InstalledHook { target, replacement, trampoline, kind, enabled: true },
            ),
    {
        let index = self.hooks.len();
        self.hooks.push(InstalledHook { target, replacement, trampoline, kind, enabled: true });
        HookHandle { index }
    }

    /// Turns the redirection of hook `h` on or off; the patch stays in place.
    pub fn set_enabled(&mut self, h: HookHandle, enabled: bool) -> (r: Result<(), HookError>)
        ensures
            r is Err <==> h.index >= old(self)@.len(),
            r is Err ==> r == Err::<(), HookError>(HookError::UnknownHandle) && final(self)@ == old(
                self,
            )@,
            r is Ok ==> final(self)@ == old(self)@.update(
                h.index as int,
                InstalledHook { enabled, ..old(self)@[h.index as int] },
            ),
    {
        if h.index >= self.hooks.len() {
            return Err(HookError::UnknownHandle);
        }
        let mut hook = self.hooks[h.index];
        hook.enabled = enabled;
        self.hooks.set(h.index, hook);
        Ok(())
    }

    /// Removal is not supported: the request is refused and every hook stays.
    pub fn uninstall(&self, h: HookHandle) -> (r: Result<(), HookError>)
        ensures
            r == Err::<(), HookError>(HookError::Unsupported),
    {
        Err(HookError::Unsupported)
    }

    /// Removal by target address is not supported either.
    pub fn uninstall_by_symbol(&self, target: u64) -> (r: Result<(), HookError>)
        ensures
            r == Err::<(), HookError>(HookError::Unsupported),
    {
        Err(HookError::Unsupported)
    }

    /// Where a call to `target` lands: the replacement of the latest enabled
    /// hook on it, or `None` where the original runs.
    pub fn redirect(&self, target: u64) -> (r: Option<u64>)
        ensures
            r == redirect_of(self@, target),
    {
        let mut i: usize = self.hooks.len();
        proof {
            assert(self.hooks@.subrange(0, i as int) =~= self.hooks@);
        }
        while i > 0
            invariant
                i <= self.hooks@.len(),
                redirect_of(self.hooks@, target) == redirect_of(self.hooks@.subrange(0, i as int), target),
            decreases i,
        {
            let h = self.hooks[i - 1];
            proof {
                assert(self.hooks@.subrange(0, i as int).drop_last() =~= self.hooks@.subrange(0, i - 1));
            }
            if h.target == target && h.enabled {
                return Some(h.replacement);
            }
            i = i - 1;
        }
        None
    }
}

/// Removal is refused, so a hook that was installed keeps firing: right
/// after `record` its target is redirected to its replacement, and since
/// `uninstall` leaves the table as it is, it still is afterwards.
pub proof fn lemma_installed_hook_fires(
    hooks: Seq<InstalledHook>,
    target: u64,
    replacement: u64,
    trampoline: u64,
    kind: HookKind,
)
    ensures
        redirect_of(
            hooks.push(InstalledHook { target, replacement, trampoline, kind, enabled: true }),
            target,
        ) == Some(replacement),
{
}

/// A hook that is disabled on every target behaves as if nothing were
/// patched: no call is redirected.
pub proof fn lemma_disabled_hooks_redirect_nothing(hooks: Seq<InstalledHook>, target: u64)
    requires
        forall|i: int| 0 <= i < hooks.len() ==> !(#[trigger] hooks[i]).enabled,
    ensures
        redirect_of(hooks, target) == None::<u64>,
    decreases hooks.len(),
{
    if hooks.len() > 0 {
        lemma_disabled_hooks_redirect_nothing(hooks.drop_last(), target);
    }
}

} // verus!
