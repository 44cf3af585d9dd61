//! The files and directories that a build of exlaunch needs, chosen from the
//! entries found on disk.

use vstd::prelude::*;
use crate::env::{
    exlaunch_root_path, devkita64_path, path_exists, spec_exlaunch_root_path, spec_devkita64_path,
    path_result, EntryKind, EnvFault, EnvironmentError, FsEntry, HostEnvironment,
};
use crate::path::{
    extension, extension_of, file_name, file_name_of, is_child, is_under, join_path, joined,
    path_is_child, path_is_under,
};

verus! {

/// Why the build inputs could not be gathered.
#[derive(Clone, Debug)]
pub enum BuildError {
    /// The source directory of exlaunch is missing.
    ExlaunchMissingSource,
    /// The default position-independent library directory is missing.
    MissingDefaultLibPath,
    /// The GCC library directory is missing.
    MissingGCCLibPath,
    /// A toolchain location could not be found.
    Environment(EnvironmentError),
}

/// `BuildError` with its messages as character sequences.
pub enum BuildFault {
    ExlaunchMissingSource,
    MissingDefaultLibPath,
    MissingGCCLibPath,
    Environment(EnvFault),
}

impl View for BuildError {
    type V = BuildFault;

    open spec fn view(&self) -> BuildFault {
        match self {
            BuildError::ExlaunchMissingSource => BuildFault::ExlaunchMissingSource,
            BuildError::MissingDefaultLibPath => BuildFault::MissingDefaultLibPath,
            BuildError::MissingGCCLibPath => BuildFault::MissingGCCLibPath,
            BuildError::Environment(e) => BuildFault::Environment(e@),
        }
    }
}

/// The inputs of a build of exlaunch.
#[derive(Clone, Debug)]
pub struct BuildPaths {
    pub c_source_files: Vec<String>,
    pub source_files: Vec<String>,
    pub include_files: Vec<String>,
    pub include_directories: Vec<String>,
    pub link_directories: Vec<String>,
}

/// `BuildPaths` with its paths as character sequences.
pub struct BuildPathsModel {
    pub c_source_files: Seq<Seq<char>>,
    pub source_files: Seq<Seq<char>>,
    pub include_files: Seq<Seq<char>>,
    pub include_directories: Seq<Seq<char>>,
    pub link_directories: Seq<Seq<char>>,
}

/// The texts of `v`.
pub open spec fn texts(v: Seq<String>) -> Seq<Seq<char>> {
    v.map_values(|s: String| s@)
}

impl View for BuildPaths {
    type V = BuildPathsModel;

    open spec fn view(&self) -> BuildPathsModel {
        BuildPathsModel {
            c_source_files: texts(self.c_source_files@),
            source_files: texts(self.source_files@),
            include_files: texts(self.include_files@),
            include_directories: texts(self.include_directories@),
            link_directories: texts(self.link_directories@),
        }
    }
}

/// A path lookup's result, as the build reports it.
pub open spec fn lifted(r: Result<Seq<char>, EnvFault>) -> Result<Seq<char>, BuildFault> {
    match r {
        Ok(p) => Ok(p),
        Err(e) => Err(BuildFault::Environment(e)),
    }
}

/// A list lookup's result with its texts as character sequences.
pub open spec fn list_result(r: Result<Vec<String>, BuildError>) -> Result<Seq<Seq<char>>, BuildFault> {
    match r {
        Ok(v) => Ok(texts(v@)),
        Err(e) => Err(e@),
    }
}

/// Extensions of the C++ and assembly sources.
pub open spec fn source_extensions() -> Seq<Seq<char>> {
    seq!["cpp"@, "cc"@, "s"@]
}

/// Extensions of the C sources.
pub open spec fn c_source_extensions() -> Seq<Seq<char>> {
    seq!["c"@]
}

/// Extensions of the headers.
pub open spec fn header_extensions() -> Seq<Seq<char>> {
    seq!["h"@, "hpp"@]
}

/// Whether entry `e` is a file below `root` with one of the extensions `exts`.
pub open spec fn selected_file(e: FsEntry, root: Seq<char>, exts: Seq<Seq<char>>) -> bool {
    &&& e.kind is File
    &&& is_under(e.path@, root)
    &&& extension_of(e.path@).is_some()
    &&& exts.contains(extension_of(e.path@).unwrap())
}

/// The paths of the files below `root` with one of the extensions `exts`, in
/// walk order.
pub open spec fn files_with_extensions(entries: Seq<FsEntry>, root: Seq<char>, exts: Seq<Seq<char>>) -> Seq<Seq<char>>
    decreases entries.len(),
{
    if entries.len() == 0 {
        Seq::empty()
    } else if selected_file(entries.last(), root, exts) {
        files_with_extensions(entries.drop_last(), root, exts).push(entries.last().path@)
    } else {
        files_with_extensions(entries.drop_last(), root, exts)
    }
}

/// Whether `p` names one of the two startup sources that the host supplies.
pub open spec fn is_startup_source(p: Seq<char>) -> bool {
    file_name_of(p) == "main.cpp"@ || file_name_of(p) == "crt0.s"@
}

/// `ps` without the startup sources.
pub open spec fn without_startup_sources(ps: Seq<Seq<char>>) -> Seq<Seq<char>>
    decreases ps.len(),
{
    if ps.len() == 0 {
        Seq::empty()
    } else if is_startup_source(ps.last()) {
        without_startup_sources(ps.drop_last())
    } else {
        without_startup_sources(ps.drop_last()).push(ps.last())
    }
}

/// The directories directly in `root`, in walk order.
pub open spec fn child_directories(entries: Seq<FsEntry>, root: Seq<char>) -> Seq<Seq<char>>
    decreases entries.len(),
{
    if entries.len() == 0 {
        Seq::empty()
    } else if entries.last().kind is Directory && is_child(entries.last().path@, root) {
        child_directories(entries.drop_last(), root).push(entries.last().path@)
    } else {
        child_directories(entries.drop_last(), root)
    }
}

/// The `pic` folder of the first directory in `gcc`, from entry `i` on, that
/// has one.
pub open spec fn first_pic_root(entries: Seq<FsEntry>, gcc: Seq<char>, i: int) -> Option<Seq<char>>
    decreases entries.len() - i,
{
    if i < 0 || i >= entries.len() {
        None
    } else if entries[i].kind is Directory && is_child(entries[i].path@, gcc) && path_exists(
        entries,
        joined(entries[i].path@, "pic"@),
    ) {
        Some(joined(entries[i].path@, "pic"@))
    } else {
        first_pic_root(entries, gcc, i + 1)
    }
}

pub open spec fn spec_exlaunch_source_path(env: HostEnvironment) -> Result<Seq<char>, BuildFault> {
    match lifted(spec_exlaunch_root_path(env)) {
        Err(e) => Err(e),
        Ok(root) => if path_exists(env.entries@, joined(root, "source"@)) {
            Ok(joined(root, "source"@))
        } else {
            Err(BuildFault::ExlaunchMissingSource)
        },
    }
}

pub open spec fn spec_files_by_extensions(env: HostEnvironment, exts: Seq<Seq<char>>) -> Result<Seq<Seq<char>>, BuildFault> {
    match spec_exlaunch_source_path(env) {
        Err(e) => Err(e),
        Ok(src) => Ok(files_with_extensions(env.entries@, src, exts)),
    }
}

pub open spec fn spec_source_files(env: HostEnvironment) -> Result<Seq<Seq<char>>, BuildFault> {
    match spec_files_by_extensions(env, source_extensions()) {
        Err(e) => Err(e),
        Ok(fs) => Ok(without_startup_sources(fs)),
    }
}

pub open spec fn spec_include_directories(env: HostEnvironment) -> Result<Seq<Seq<char>>, BuildFault> {
    match spec_exlaunch_source_path(env) {
        Err(e) => Err(e),
        Ok(src) => Ok(child_directories(env.entries@, src).push(src)),
    }
}

pub open spec fn spec_link_directories(env: HostEnvironment) -> Result<Seq<Seq<char>>, BuildFault> {
    match lifted(spec_devkita64_path(env)) {
        Err(e) => Err(e),
        Ok(a64) => {
            let pic = joined(a64, "aarch64-none-elf/lib/pic"@);
            let gcc = joined(a64, "lib/gcc/aarch64-none-elf"@);
            if !path_exists(env.entries@, pic) {
                Err(BuildFault::MissingDefaultLibPath)
            } else if !path_exists(env.entries@, gcc) {
                Err(BuildFault::MissingGCCLibPath)
            } else {
                match first_pic_root(env.entries@, gcc, 0) {
                    None => Err(BuildFault::MissingGCCLibPath),
                    Some(root) => Ok(seq![pic, root]),
                }
            }
        },
    }
}

pub open spec fn spec_build_paths(env: HostEnvironment) -> Result<BuildPathsModel, BuildFault> {
    match spec_files_by_extensions(env, c_source_extensions()) {
        Err(e) => Err(e),
        Ok(c) => match spec_source_files(env) {
            Err(e) => Err(e),
            Ok(s) => match spec_files_by_extensions(env, header_extensions()) {
                Err(e) => Err(e),
                Ok(h) => match spec_include_directories(env) {
                    Err(e) => Err(e),
                    Ok(i) => match spec_link_directories(env) {
                        Err(e) => Err(e),
                        Ok(l) => Ok(
                            BuildPathsModel {
                                c_source_files: c,
                                source_files: s,
                                include_files: h,
                                include_directories: i,
                                link_directories: l,
                            },
                        ),
                    },
                },
            },
        },
    }
}

/// Each of `ps` behind `prefix`.
pub open spec fn prefixed(prefix: Seq<char>, ps: Seq<Seq<char>>) -> Seq<Seq<char>> {
    ps.map_values(|p: Seq<char>| prefix + p)
}

/// Link arguments of the plugin module.
pub const MODULE_LINK_ARGS: &'static str = "cargo:rustc-cdylib-link-args=--shared --export-dynamic --gc-sections --build-id=sha1 --nx-module-name -init=exl_module_init --exclude-libs=ALLb";

/// The lines a build script prints for the build inputs `b`: a rebuild
/// trigger for every header and every C++ or assembly source, a search path
/// for every link directory, then the two static libraries and the module's
/// link arguments.
pub open spec fn directives(b: BuildPathsModel) -> Seq<Seq<char>> {
    prefixed("cargo:rerun-if-changed="@, b.include_files) + prefixed(
        "cargo:rerun-if-changed="@,
        b.source_files,
    ) + prefixed("cargo:rustc-link-search="@, b.link_directories) + seq![
        "cargo:rustc-link-lib=static=stdc++"@,
        "cargo:rustc-link-lib=static=gcc"@,
        MODULE_LINK_ARGS@,
    ]
}

/// Appends each of `paths` behind `prefix` to `out`.
fn push_prefixed(out: &mut Vec<String>, prefix: &str, paths: &Vec<String>)
    ensures
        texts(final(out)@) == texts(old(out)@) + prefixed(prefix@, texts(paths@)),
{
    let ghost start = texts(out@);
    let mut i: usize = 0;
    while i < paths.len()
        invariant
            i <= paths@.len(),
            texts(out@) == start + prefixed(prefix@, texts(paths@).subrange(0, i as int)),
        decreases paths@.len() - i,
    {
        let mut line = prefix.to_owned();
        line.append(paths[i].as_str());
        let ghost before = out@;
        out.push(line);
        proof {
            assert(texts(out@) =~= texts(before).push(line@));
            assert(prefixed(prefix@, texts(paths@).subrange(0, i + 1)) =~= prefixed(
                prefix@,
                texts(paths@).subrange(0, i as int),
            ).push(prefix@ + paths@[i as int]@));
        }
        i = i + 1;
    }
    proof {
        assert(texts(paths@).subrange(0, i as int) =~= texts(paths@));
    }
}

/// The source directory of exlaunch, which must exist.
pub fn exlaunch_source_path(env: &HostEnvironment) -> (r: Result<String, BuildError>)
    ensures
        match r {
            Ok(p) => spec_exlaunch_source_path(*env) == Ok::<Seq<char>, BuildFault>(p@),
            Err(e) => spec_exlaunch_source_path(*env) == Err::<Seq<char>, BuildFault>(e@),
        },
{
    match exlaunch_root_path(env) {
        Err(e) => Err(BuildError::Environment(e)),
        Ok(root) => {
            let src = join_path(root.as_str(), "source");
            if env.has_path(src.as_str()) {
                Ok(src)
            } else {
                Err(BuildError::ExlaunchMissingSource)
            }
        },
    }
}

/// Whether `ext` is one of `exts`.
fn listed(exts: &Vec<String>, ext: &String) -> (r: bool)
    ensures
        r == texts(exts@).contains(ext@),
{
    let mut i: usize = 0;
    while i < exts.len()
        invariant
            i <= exts@.len(),
            forall|j: int| 0 <= j < i ==> exts@[j]@ != ext@,
        decreases exts@.len() - i,
    {
        if exts[i] == *ext {
            proof {
                assert(texts(exts@)[i as int] == ext@);
            }
            return true;
        }
        i = i + 1;
    }
    proof {
        if texts(exts@).contains(ext@) {
            let j = choose|j: int| 0 <= j < texts(exts@).len() && texts(exts@)[j] == ext@;
            assert(exts@[j]@ == ext@);
        }
    }
    false
}

impl BuildPaths {
    /// The files below the exlaunch source directory whose extension is one of
    /// `exts`, in walk order.
    pub fn discover_files_by_extensions(env: &HostEnvironment, exts: &Vec<String>) -> (r: Result<Vec<String>, BuildError>)
        ensures
            list_result(r) == spec_files_by_extensions(*env, texts(exts@)),
    {
        let src = match exlaunch_source_path(env) {
            Err(e) => {
                return Err(e);
            },
            Ok(s) => s,
        };
        let mut files: Vec<String> = Vec::new();
        let mut i: usize = 0;
        while i < env.entries.len()
            invariant
                i <= env.entries@.len(),
                texts(files@) == files_with_extensions(env.entries@.subrange(0, i as int), src@, texts(exts@)),
            decreases env.entries@.len() - i,
        {
            let e = &env.entries[i];
            proof {
                assert(env.entries@.subrange(0, i + 1).drop_last() =~= env.entries@.subrange(0, i as int));
            }
            let is_file = match e.kind {
                EntryKind::File => true,
                _ => false,
            };
            if is_file && path_is_under(e.path.as_str(), src.as_str()) {
                match extension(e.path.as_str()) {
                    Some(x) => {
                        if listed(exts, &x) {
                            let p = e.path.clone();
                            let ghost before = files@;
                            files.push(p);
                            proof {
                                assert(texts(files@) =~= texts(before).push(p@));
                            }
                        }
                    },
                    None => {},
                }
            }
            i = i + 1;
        }
        proof {
            assert(env.entries@.subrange(0, i as int) =~= env.entries@);
        }
        Ok(files)
    }

    /// The C++ and assembly sources of exlaunch, without the two startup
    /// sources `main.cpp` and `crt0.s`.
    pub fn discover_source_files(env: &HostEnvironment) -> (r: Result<Vec<String>, BuildError>)
        ensures
            list_result(r) == spec_source_files(*env),
    {
        let exts: Vec<String> = vec!["cpp".to_owned(), "cc".to_owned(), "s".to_owned()];
        proof {
            assert(texts(exts@) =~= source_extensions());
        }
        let all = match Self::discover_files_by_extensions(env, &exts) {
            Err(e) => {
                return Err(e);
            },
            Ok(v) => v,
        };
        let mut kept: Vec<String> = Vec::new();
        let mut i: usize = 0;
        while i < all.len()
            invariant
                i <= all@.len(),
                texts(kept@) == without_startup_sources(texts(all@).subrange(0, i as int)),
            decreases all@.len() - i,
        {
            proof {
                assert(texts(all@).subrange(0, i + 1).drop_last() =~= texts(all@).subrange(0, i as int));
                assert(texts(all@).subrange(0, i + 1).last() == all@[i as int]@);
            }
            let name = file_name(all[i].as_str());
            let main_cpp = "main.cpp".to_owned();
            let crt0 = "crt0.s".to_owned();
            if !(name == main_cpp || name == crt0) {
                let p = all[i].clone();
                let ghost before = kept@;
                kept.push(p);
                proof {
                    assert(texts(kept@) =~= texts(before).push(p@));
                }
            }
            i = i + 1;
        }
        proof {
            assert(texts(all@).subrange(0, i as int) =~= texts(all@));
        }
        Ok(kept)
    }

    /// The C sources of exlaunch.
    pub fn discover_c_source_files(env: &HostEnvironment) -> (r: Result<Vec<String>, BuildError>)
        ensures
            list_result(r) == spec_files_by_extensions(*env, c_source_extensions()),
    {
        let exts: Vec<String> = vec!["c".to_owned()];
        proof {
            assert(texts(exts@) =~= c_source_extensions());
        }
        Self::discover_files_by_extensions(env, &exts)
    }

    /// The headers of exlaunch.
    pub fn discover_header_files(env: &HostEnvironment) -> (r: Result<Vec<String>, BuildError>)
        ensures
            list_result(r) == spec_files_by_extensions(*env, header_extensions()),
    {
        let exts: Vec<String> = vec!["h".to_owned(), "hpp".to_owned()];
        proof {
            assert(texts(exts@) =~= header_extensions());
        }
        Self::discover_files_by_extensions(env, &exts)
    }

    /// The directories directly in the exlaunch source directory, followed by
    /// the source directory itself.
    pub fn discover_include_directories(env: &HostEnvironment) -> (r: Result<Vec<String>, BuildError>)
        ensures
            list_result(r) == spec_include_directories(*env),
    {
        let src = match exlaunch_source_path(env) {
            Err(e) => {
                return Err(e);
            },
            Ok(s) => s,
        };
        let mut dirs: Vec<String> = Vec::new();
        let mut i: usize = 0;
        while i < env.entries.len()
            invariant
                i <= env.entries@.len(),
                texts(dirs@) == child_directories(env.entries@.subrange(0, i as int), src@),
            decreases env.entries@.len() - i,
        {
            let e = &env.entries[i];
            proof {
                assert(env.entries@.subrange(0, i + 1).drop_last() =~= env.entries@.subrange(0, i as int));
            }
            let is_dir = match e.kind {
                EntryKind::Directory => true,
                _ => false,
            };
            if is_dir && path_is_child(e.path.as_str(), src.as_str()) {
                let p = e.path.clone();
                let ghost before = dirs@;
                dirs.push(p);
                proof {
                    assert(texts(dirs@) =~= texts(before).push(p@));
                }
            }
            i = i + 1;
        }
        proof {
            assert(env.entries@.subrange(0, i as int) =~= env.entries@);
        }
        let ghost before = dirs@;
        dirs.push(src);
        proof {
            assert(texts(dirs@) =~= texts(before).push(src@));
        }
        Ok(dirs)
    }

    /// The default `pic` library directory of devkitA64, followed by the `pic`
    /// folder of the first GCC version directory that has one.
    pub fn discover_link_directories(env: &HostEnvironment) -> (r: Result<Vec<String>, BuildError>)
        ensures
            list_result(r) == spec_link_directories(*env),
    {
        let a64 = match devkita64_path(env) {
            Err(e) => {
                return Err(BuildError::Environment(e));
            },
            Ok(p) => p,
        };
        let pic = join_path(a64.as_str(), "aarch64-none-elf/lib/pic");
        if !env.has_path(pic.as_str()) {
            return Err(BuildError::MissingDefaultLibPath);
        }
        let gcc = join_path(a64.as_str(), "lib/gcc/aarch64-none-elf");
        if !env.has_path(gcc.as_str()) {
            return Err(BuildError::MissingGCCLibPath);
        }
        let mut i: usize = 0;
        while i < env.entries.len()
            invariant
                i <= env.entries@.len(),
                first_pic_root(env.entries@, gcc@, 0) == first_pic_root(env.entries@, gcc@, i as int),
                lifted(spec_devkita64_path(*env)) == Ok::<Seq<char>, BuildFault>(a64@),
                pic@ == joined(a64@, "aarch64-none-elf/lib/pic"@),
                gcc@ == joined(a64@, "lib/gcc/aarch64-none-elf"@),
                path_exists(env.entries@, pic@),
                path_exists(env.entries@, gcc@),
            decreases env.entries@.len() - i,
        {
            let e = &env.entries[i];
            let is_dir = match e.kind {
                EntryKind::Directory => true,
                _ => false,
            };
            if is_dir && path_is_child(e.path.as_str(), gcc.as_str()) {
                let root = join_path(e.path.as_str(), "pic");
                if env.has_path(root.as_str()) {
                    let mut dirs: Vec<String> = Vec::new();
                    dirs.push(pic);
                    dirs.push(root);
                    proof {
                        assert(texts(dirs@) =~= seq![pic@, root@]);
                        assert(first_pic_root(env.entries@, gcc@, i as int) == Some(root@));
                    }
                    return Ok(dirs);
                }
            }
            i = i + 1;
        }
        Err(BuildError::MissingGCCLibPath)
    }

    /// The lines a build script prints for these inputs.
    pub fn cargo_directives(&self) -> (r: Vec<String>)
        ensures
            texts(r@) == directives(self@),
    {
        let mut out: Vec<String> = Vec::new();
        push_prefixed(&mut out, "cargo:rerun-if-changed=", &self.include_files);
        push_prefixed(&mut out, "cargo:rerun-if-changed=", &self.source_files);
        push_prefixed(&mut out, "cargo:rustc-link-search=", &self.link_directories);
        let ghost before = texts(out@);
        out.push("cargo:rustc-link-lib=static=stdc++".to_owned());
        out.push("cargo:rustc-link-lib=static=gcc".to_owned());
        out.push(MODULE_LINK_ARGS.to_owned());
        proof {
            assert(texts(out@) =~= before + seq![
                "cargo:rustc-link-lib=static=stdc++"@,
                "cargo:rustc-link-lib=static=gcc"@,
                MODULE_LINK_ARGS@,
            ]);
            assert(texts(out@) =~= directives(self@));
        }
        out
    }

    /// Gathers every input of the build; the first lookup that fails decides
    /// the error.
    pub fn new(env: &HostEnvironment) -> (r: Result<Self, BuildError>)
        ensures
            match r {
                Ok(b) => spec_build_paths(*env) == Ok::<BuildPathsModel, BuildFault>(b@),
                Err(e) => spec_build_paths(*env) == Err::<BuildPathsModel, BuildFault>(e@),
            },
    {
        let c_source_files = match Self::discover_c_source_files(env) {
            Err(e) => {
                return Err(e);
            },
            Ok(v) => v,
        };
        let source_files = match Self::discover_source_files(env) {
            Err(e) => {
                return Err(e);
            },
            Ok(v) => v,
        };
        let include_files = match Self::discover_header_files(env) {
            Err(e) => {
                return Err(e);
            },
            Ok(v) => v,
        };
        let include_directories = match Self::discover_include_directories(env) {
            Err(e) => {
                return Err(e);
            },
            Ok(v) => v,
        };
        let link_directories = match Self::discover_link_directories(env) {
            Err(e) => {
                return Err(e);
            },
            Ok(v) => v,
        };
        Ok(BuildPaths { c_source_files, source_files, include_files, include_directories, link_directories })
    }
}

} // verus!
