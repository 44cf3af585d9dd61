use skyline_ex::building::{BuildError, BuildPaths, MODULE_LINK_ARGS};
use skyline_ex::env::{
    devkita64_path, exlaunch_root_path, scan_roots, gcc_compiler_path, gpp_compiler_path, repository_root_path,
    switch_specs_path, EntryKind, EnvironmentError, FsEntry, HostEnvironment,
};

fn entry(path: &str, kind: EntryKind) -> FsEntry {
    FsEntry { path: path.to_string(), kind }
}

fn dir(path: &str) -> FsEntry {
    entry(path, EntryKind::Directory)
}

fn file(path: &str) -> FsEntry {
    entry(path, EntryKind::File)
}

fn full_host() -> HostEnvironment {
    HostEnvironment {
        manifest_dir: Some("/repo/skyline-ex".to_string()),
        devkitpro: Some("/opt/devkitpro".to_string()),
        entries: vec![
            dir("/repo/exlaunch"),
            file("/repo/exlaunch/misc/specs/module.specs"),
            dir("/repo/exlaunch/source"),
            dir("/repo/exlaunch/source/lib"),
            file("/repo/exlaunch/source/lib/hook.cpp"),
            file("/repo/exlaunch/source/lib/util.hpp"),
            dir("/repo/exlaunch/source/lib/nested"),
            file("/repo/exlaunch/source/main.cpp"),
            file("/repo/exlaunch/source/crt0.s"),
            file("/repo/exlaunch/source/init.s"),
            file("/repo/exlaunch/source/libc.c"),
            dir("/repo/exlaunch/source/program"),
            file("/repo/exlaunch/source/program/setting.h"),
            file("/repo/exlaunch/source/README"),
            file("/repo/exlaunch/source/.hidden"),
            entry("/repo/exlaunch/source/link.cc", EntryKind::Other),
            file("/repo/exlaunch/other.cpp"),
            dir("/opt/devkitpro/devkitA64"),
            file("/opt/devkitpro/devkitA64/bin/aarch64-none-elf-g++"),
            file("/opt/devkitpro/devkitA64/bin/aarch64-none-elf-gcc"),
            dir("/opt/devkitpro/devkitA64/aarch64-none-elf/lib/pic"),
            dir("/opt/devkitpro/devkitA64/lib/gcc/aarch64-none-elf"),
            dir("/opt/devkitpro/devkitA64/lib/gcc/aarch64-none-elf/13.1.0"),
            dir("/opt/devkitpro/devkitA64/lib/gcc/aarch64-none-elf/14.1.0"),
            dir("/opt/devkitpro/devkitA64/lib/gcc/aarch64-none-elf/14.1.0/pic"),
        ],
    }
}

fn strings(v: &[&str]) -> Vec<String> {
    v.iter().map(|s| s.to_string()).collect()
}

#[test]
fn toolchain_locations() {
    let env = full_host();
    assert_eq!(repository_root_path(&env).unwrap(), "/repo");
    assert_eq!(exlaunch_root_path(&env).unwrap(), "/repo/exlaunch");
    assert_eq!(devkita64_path(&env).unwrap(), "/opt/devkitpro/devkitA64");
    assert_eq!(gpp_compiler_path(&env).unwrap(), "/opt/devkitpro/devkitA64/bin/aarch64-none-elf-g++");
    assert_eq!(gcc_compiler_path(&env).unwrap(), "/opt/devkitpro/devkitA64/bin/aarch64-none-elf-gcc");
    assert_eq!(switch_specs_path(&env).unwrap(), "/repo/exlaunch/misc/specs/module.specs");
}

#[test]
fn build_paths_from_full_host() {
    let b = BuildPaths::new(&full_host()).unwrap();
    assert_eq!(b.c_source_files, strings(&["/repo/exlaunch/source/libc.c"]));
    assert_eq!(
        b.source_files,
        strings(&["/repo/exlaunch/source/lib/hook.cpp", "/repo/exlaunch/source/init.s"])
    );
    assert_eq!(
        b.include_files,
        strings(&["/repo/exlaunch/source/lib/util.hpp", "/repo/exlaunch/source/program/setting.h"])
    );
    assert_eq!(
        b.include_directories,
        strings(&["/repo/exlaunch/source/lib", "/repo/exlaunch/source/program", "/repo/exlaunch/source"])
    );
    assert_eq!(
        b.link_directories,
        strings(&[
            "/opt/devkitpro/devkitA64/aarch64-none-elf/lib/pic",
            "/opt/devkitpro/devkitA64/lib/gcc/aarch64-none-elf/14.1.0/pic",
        ])
    );
}

#[test]
fn directives_for_build_paths() {
    let b = BuildPaths::new(&full_host()).unwrap();
    let d = b.cargo_directives();
    assert_eq!(
        d,
        strings(&[
            "cargo:rerun-if-changed=/repo/exlaunch/source/lib/util.hpp",
            "cargo:rerun-if-changed=/repo/exlaunch/source/program/setting.h",
            "cargo:rerun-if-changed=/repo/exlaunch/source/lib/hook.cpp",
            "cargo:rerun-if-changed=/repo/exlaunch/source/init.s",
            "cargo:rustc-link-search=/opt/devkitpro/devkitA64/aarch64-none-elf/lib/pic",
            "cargo:rustc-link-search=/opt/devkitpro/devkitA64/lib/gcc/aarch64-none-elf/14.1.0/pic",
            "cargo:rustc-link-lib=static=stdc++",
            "cargo:rustc-link-lib=static=gcc",
            MODULE_LINK_ARGS,
        ])
    );
}

#[test]
fn missing_manifest_dir() {
    let mut env = full_host();
    env.manifest_dir = None;
    assert!(matches!(repository_root_path(&env), Err(EnvironmentError::NoManifestDir)));
    assert!(matches!(
        BuildPaths::new(&env),
        Err(BuildError::Environment(EnvironmentError::NoManifestDir))
    ));
}

#[test]
fn manifest_dir_without_parent() {
    let mut env = full_host();
    env.manifest_dir = Some("/".to_string());
    match repository_root_path(&env) {
        Err(EnvironmentError::NoManifestParentDir(d)) => assert_eq!(d, "/"),
        other => panic!("unexpected {:?}", other),
    }
}

#[test]
fn exlaunch_missing_or_not_a_directory() {
    let mut env = full_host();
    env.entries.remove(0);
    assert!(matches!(exlaunch_root_path(&env), Err(EnvironmentError::MissingExlaunch)));
    let mut env = full_host();
    env.entries[0].kind = EntryKind::File;
    assert!(matches!(exlaunch_root_path(&env), Err(EnvironmentError::ExlaunchNotDirectory)));
    let mut env = full_host();
    env.entries[0].kind = EntryKind::Unreadable("permission denied".to_string());
    match exlaunch_root_path(&env) {
        Err(EnvironmentError::IO(m)) => assert_eq!(m, "permission denied"),
        other => panic!("unexpected {:?}", other),
    }
}

#[test]
fn devkit_errors() {
    let mut env = full_host();
    env.devkitpro = None;
    assert!(matches!(devkita64_path(&env), Err(EnvironmentError::DevkitproMissing)));
    let mut env = full_host();
    env.devkitpro = Some("/elsewhere".to_string());
    assert!(matches!(devkita64_path(&env), Err(EnvironmentError::DevkitA64Missing)));
    let mut env = full_host();
    env.entries.retain(|e| !e.path.ends_with("g++"));
    assert!(matches!(gpp_compiler_path(&env), Err(EnvironmentError::DevkitA64CompilerMissing)));
    assert!(gcc_compiler_path(&env).is_ok());
}

#[test]
fn specs_missing() {
    let mut env = full_host();
    env.entries.retain(|e| !e.path.ends_with("module.specs"));
    assert!(matches!(switch_specs_path(&env), Err(EnvironmentError::MissingModuleSpecs)));
}

#[test]
fn source_directory_missing() {
    let mut env = full_host();
    env.entries.retain(|e| e.path != "/repo/exlaunch/source");
    assert!(matches!(BuildPaths::new(&env), Err(BuildError::ExlaunchMissingSource)));
}

#[test]
fn link_directory_errors() {
    let mut env = full_host();
    env.entries.retain(|e| !e.path.ends_with("aarch64-none-elf/lib/pic"));
    assert!(matches!(BuildPaths::discover_link_directories(&env), Err(BuildError::MissingDefaultLibPath)));
    let mut env = full_host();
    env.entries.retain(|e| !e.path.contains("lib/gcc"));
    assert!(matches!(BuildPaths::discover_link_directories(&env), Err(BuildError::MissingGCCLibPath)));
    let mut env = full_host();
    env.entries.retain(|e| !e.path.ends_with("14.1.0/pic"));
    assert!(matches!(BuildPaths::new(&env), Err(BuildError::MissingGCCLibPath)));
}

#[test]
fn roots_to_scan() {
    let env = full_host();
    assert_eq!(scan_roots(&env), strings(&["/repo/exlaunch", "/opt/devkitpro/devkitA64"]));
    let bare = HostEnvironment { manifest_dir: None, devkitpro: Some("/dk/".to_string()), entries: Vec::new() };
    assert_eq!(scan_roots(&bare), strings(&["/dk/devkitA64"]));
    let none = HostEnvironment { manifest_dir: Some("/".to_string()), devkitpro: None, entries: Vec::new() };
    assert!(scan_roots(&none).is_empty());
}
