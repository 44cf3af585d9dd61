use skyline_ex::hooks::{resolve_address, HookKind, InstallRequest};
use skyline_ex::registry::{DeferredHookEntry, HookRegistry, INVALID_MODULE_NAME};

fn entry(offset: u64, replacement: u64, slot: u64, module: &str, kind: HookKind) -> DeferredHookEntry {
    DeferredHookEntry {
        symbol_offset: offset,
        replacement,
        out_trampoline: slot,
        module_name: module.to_string(),
        kind,
    }
}

#[test]
fn deferred_hook_resolves_against_module_base() {
    let mut reg = HookRegistry::new();
    reg.register_deferred(entry(0x100, 0x5000, 0x6000, "game", HookKind::Hook));
    let requests = reg.apply_for_module("game", 0x8000_0000);
    assert_eq!(
        requests,
        vec![InstallRequest { target: 0x8000_0100, replacement: 0x5000, out_trampoline: 0x6000, kind: HookKind::Hook }]
    );
}

#[test]
fn registered_hook_applied_once_per_load() {
    let mut reg = HookRegistry::new();
    reg.register_deferred(entry(0x10, 1, 2, "m", HookKind::Plt));
    let first = reg.on_module_loaded(Some("m"), 0x1000);
    assert_eq!(first.len(), 1);
    assert_eq!(first[0].target, 0x1010);
    assert_eq!(first[0].out_trampoline, 2);
    // A second load of a module with the same name applies the hook again.
    let second = reg.on_module_loaded(Some("m"), 0x2000);
    assert_eq!(second.len(), 1);
    assert_eq!(second[0].target, 0x2010);
    assert_eq!(reg.len(), 1);
}

#[test]
fn no_cross_application_between_modules() {
    let mut reg = HookRegistry::new();
    reg.register_deferred(entry(0x10, 0xa, 0xaa, "A", HookKind::Hook));
    reg.register_deferred(entry(0x20, 0xb, 0xbb, "B", HookKind::Hook));
    reg.register_deferred(entry(0x30, 0xc, 0xcc, "A", HookKind::Raw));
    let a = reg.apply_for_module("A", 0x100);
    assert_eq!(a.len(), 2);
    assert_eq!(a[0], InstallRequest { target: 0x110, replacement: 0xa, out_trampoline: 0xaa, kind: HookKind::Hook });
    assert_eq!(a[1], InstallRequest { target: 0x130, replacement: 0xc, out_trampoline: 0xcc, kind: HookKind::Raw });
    let b = reg.apply_for_module("B", 0x100);
    assert_eq!(b, vec![InstallRequest { target: 0x120, replacement: 0xb, out_trampoline: 0xbb, kind: HookKind::Hook }]);
    assert!(reg.apply_for_module("C", 0x100).is_empty());
}

#[test]
fn module_names_match_exactly() {
    let mut reg = HookRegistry::new();
    reg.register_deferred(entry(0, 1, 2, "Game", HookKind::Hook));
    assert!(reg.apply_for_module("game", 0).is_empty());
    assert!(reg.apply_for_module("Game ", 0).is_empty());
    assert_eq!(reg.apply_for_module("Game", 0).len(), 1);
}

#[test]
fn interceptor_requested_only_by_first_registration() {
    let mut reg = HookRegistry::new();
    assert!(!reg.interceptor_installed());
    assert!(reg.register_deferred(entry(0, 1, 2, "a", HookKind::Hook)));
    assert!(reg.interceptor_installed());
    assert!(!reg.register_deferred(entry(0, 1, 2, "b", HookKind::Hook)));
    assert!(!reg.register_deferred(entry(0, 1, 2, "a", HookKind::Hook)));
}

#[test]
fn many_registrations_are_all_kept() {
    let mut reg = HookRegistry::new();
    let mut installs = 0;
    for i in 0..64u64 {
        if reg.register_deferred(entry(i, i, i, "m", HookKind::Hook)) {
            installs += 1;
        }
    }
    assert_eq!(installs, 1);
    assert_eq!(reg.len(), 64);
    for i in 0..64usize {
        assert_eq!(reg.entry(i).symbol_offset, i as u64);
    }
    let requests = reg.apply_for_module("m", 0);
    assert_eq!(requests.len(), 64);
    for (i, r) in requests.iter().enumerate() {
        assert_eq!(r.target, i as u64);
    }
}

#[test]
fn unnamed_module_matches_only_the_stand_in() {
    let mut reg = HookRegistry::new();
    reg.register_deferred(entry(4, 1, 2, "real", HookKind::Hook));
    reg.register_deferred(entry(8, 3, 4, INVALID_MODULE_NAME, HookKind::Hook));
    let r = reg.on_module_loaded(None, 0x100);
    assert_eq!(r, vec![InstallRequest { target: 0x108, replacement: 3, out_trampoline: 4, kind: HookKind::Hook }]);
    assert_eq!(INVALID_MODULE_NAME, "__invalid_name");
}

#[test]
fn resolve_address_adds_and_wraps() {
    assert_eq!(resolve_address(0x8000_0000, 0x100), 0x8000_0100);
    assert_eq!(resolve_address(0, 0), 0);
    assert_eq!(resolve_address(u64::MAX, 1), 0);
    assert_eq!(resolve_address(u64::MAX, u64::MAX), u64::MAX - 1);
    assert_eq!(resolve_address(u64::MAX - 1, 1), u64::MAX);
}

