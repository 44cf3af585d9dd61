use skyline_ex::memory::{KnownModule, ModuleDirectory, ModuleMemoryRegion, Span, HEAP_REGION};

fn module(name: Option<&str>, base: u64) -> ModuleMemoryRegion {
    ModuleMemoryRegion {
        name: name.map(|n| n.to_string()),
        text: Span { base, len: 0x100 },
        rodata: Span { base: base + 0x100, len: 0x80 },
        data: Span { base: base + 0x180, len: 0x40 },
        bss: Span { base: base + 0x1c0, len: 0x40 },
        module_object: base + 0x1000,
    }
}

fn directory() -> ModuleDirectory {
    let infos = vec![
        module(Some("rtld"), 0x1000),
        module(Some("main"), 0x2000),
        module(Some("skyline-ex"), 0x3000),
        module(None, 0x4000),
        module(Some("sdk"), 0x5000),
        module(Some("ghost"), 0x6000),
    ];
    ModuleDirectory::new(infos, 5, 2).unwrap()
}

#[test]
fn known_modules_by_role() {
    let d = directory();
    assert!(d.is_populated());
    assert_eq!(d.get_known_module(KnownModule::Rtld).text.base, 0x1000);
    assert_eq!(d.get_known_module(KnownModule::Main).text.base, 0x2000);
    assert_eq!(d.get_known_module(KnownModule::SkylineEx).text.base, 0x3000);
    assert_eq!(d.get_known_module(KnownModule::Sdk).text.base, 0x5000);
}

#[test]
fn lookup_by_name_finds_loaded_module() {
    let d = directory();
    assert_eq!(d.get_module_by_name("main").unwrap().text.base, 0x2000);
    assert_eq!(d.get_module_by_name("sdk").unwrap().module_object, 0x6000);
}

#[test]
fn lookup_by_name_misses_absent_module() {
    let d = directory();
    assert!(d.get_module_by_name("game").is_none());
    assert!(d.get_module_by_name("").is_none());
    assert!(d.get_module_by_name("Main").is_none());
}

#[test]
fn lookup_by_name_stops_at_module_count() {
    let d = directory();
    // The slot after the count holds a module named "ghost"; it is not loaded.
    assert!(d.get_module_by_name("ghost").is_none());
}

#[test]
fn lookup_by_name_returns_first_match() {
    let infos = vec![module(Some("a"), 0x1000), module(Some("dup"), 0x2000), module(Some("dup"), 0x3000)];
    let d = ModuleDirectory::new(infos, 3, 0).unwrap();
    assert_eq!(d.get_module_by_name("dup").unwrap().text.base, 0x2000);
}

#[test]
fn directory_shape_is_checked() {
    assert!(ModuleDirectory::new(vec![module(None, 0)], 1, 0).is_none());
    assert!(ModuleDirectory::new(vec![module(None, 0), module(None, 1)], 3, 0).is_none());
    assert!(ModuleDirectory::new(vec![module(None, 0), module(None, 1)], 0, 0).is_none());
    assert!(ModuleDirectory::new(vec![module(None, 0), module(None, 1)], 2, 2).is_none());
    let d = ModuleDirectory::unpopulated(vec![module(None, 0), module(None, 1)], 1).unwrap();
    assert!(!d.is_populated());
    assert_eq!(d.count, -1);
}

#[test]
fn legacy_region_addresses() {
    let m = module(Some("main"), 0x7100_0000);
    assert_eq!(m.region_address(0xdead_0000, 0), 0x7100_0000);
    assert_eq!(m.region_address(0xdead_0000, 1), 0x7100_0100);
    assert_eq!(m.region_address(0xdead_0000, 2), 0x7100_0180);
    assert_eq!(m.region_address(0xdead_0000, 3), 0x7100_01c0);
    assert_eq!(m.region_address(0xdead_0000, HEAP_REGION), 0xdead_0000);
    assert_eq!(m.region_address(0xdead_0000, 5), u64::MAX);
    assert_eq!(m.region_address(0xdead_0000, 255), u64::MAX);
}

#[test]
fn slots_by_role_and_name() {
    let d = directory();
    assert_eq!(d.known_module_index(KnownModule::Rtld), 0);
    assert_eq!(d.known_module_index(KnownModule::Main), 1);
    assert_eq!(d.known_module_index(KnownModule::SkylineEx), 2);
    assert_eq!(d.known_module_index(KnownModule::Sdk), 4);
    assert_eq!(d.module_index_by_name("sdk"), Some(4));
    assert_eq!(d.module_index_by_name("ghost"), None);
}
