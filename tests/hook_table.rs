use skyline_ex::hooks::{HookError, HookHandle, HookKind, HookTable, InstalledHook};

#[test]
fn recorded_hook_redirects_its_target() {
    let mut t = HookTable::new();
    let h = t.record(0x1000, 0x2000, 0x3000, HookKind::Hook);
    assert_eq!(h, HookHandle { index: 0 });
    assert_eq!(t.redirect(0x1000), Some(0x2000));
    assert_eq!(t.redirect(0x1004), None);
    assert_eq!(
        t.get(h),
        Some(InstalledHook { target: 0x1000, replacement: 0x2000, trampoline: 0x3000, kind: HookKind::Hook, enabled: true })
    );
    assert_eq!(t.len(), 1);
}

#[test]
fn uninstall_is_refused_and_hook_keeps_firing() {
    let mut t = HookTable::new();
    let h = t.record(0x1000, 0x2000, 0x3000, HookKind::Hook);
    assert_eq!(t.uninstall(h), Err(HookError::Unsupported));
    assert_eq!(t.uninstall_by_symbol(0x1000), Err(HookError::Unsupported));
    // Known limitation: the replacement still runs after an uninstall request.
    assert_eq!(t.redirect(0x1000), Some(0x2000));
}

#[test]
fn disabled_hook_behaves_as_unpatched() {
    let mut t = HookTable::new();
    let h = t.record(0x1000, 0x2000, 0x3000, HookKind::Plt);
    assert_eq!(t.set_enabled(h, false), Ok(()));
    assert_eq!(t.redirect(0x1000), None);
    assert_eq!(t.set_enabled(h, true), Ok(()));
    assert_eq!(t.redirect(0x1000), Some(0x2000));
}

#[test]
fn latest_enabled_hook_wins() {
    let mut t = HookTable::new();
    let a = t.record(0x1000, 0x2000, 0, HookKind::Hook);
    let b = t.record(0x1000, 0x4000, 0, HookKind::Hook);
    assert_eq!(t.redirect(0x1000), Some(0x4000));
    t.set_enabled(b, false).unwrap();
    assert_eq!(t.redirect(0x1000), Some(0x2000));
    t.set_enabled(a, false).unwrap();
    assert_eq!(t.redirect(0x1000), None);
}

#[test]
fn unknown_handle_is_reported() {
    let mut t = HookTable::new();
    assert_eq!(t.set_enabled(HookHandle { index: 0 }, true), Err(HookError::UnknownHandle));
    assert_eq!(t.get(HookHandle { index: 3 }), None);
}

#[test]
fn trampoline_kinds() {
    assert!(HookKind::Hook.produces_trampoline());
    assert!(HookKind::Plt.produces_trampoline());
    assert!(!HookKind::LegacyInline.produces_trampoline());
    assert!(!HookKind::Raw.produces_trampoline());
}

#[test]
fn hooks_found_by_trampoline() {
    let mut t = HookTable::new();
    t.record(0x10, 0x20, 0x30, HookKind::Hook);
    let b = t.record(0x40, 0x50, 0x60, HookKind::Plt);
    assert_eq!(t.find_by_trampoline(0x60), Some(b));
    assert_eq!(t.find_by_trampoline(0x30), Some(HookHandle { index: 0 }));
    assert_eq!(t.find_by_trampoline(0x20), None);
}
