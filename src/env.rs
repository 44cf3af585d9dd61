//! The toolchain locations that a build of the plugin needs.
//!
//! Every lookup is a function of a `HostEnvironment`: the two environment
//! variables the build reads and the file-system entries found under the
//! places it looks, in the order the walk met them.

use vstd::prelude::*;
use crate::path::{joined, parent_of, join_path, parent_path};

verus! {

/// What a file-system entry turned out to be.
#[derive(Clone, Debug)]
pub enum EntryKind {
    File,
    Directory,
    /// Neither a regular file nor a directory (a link, a device).
    Other,
    /// The entry exists but its metadata could not be read; the message says why.
    Unreadable(String),
}

/// One entry found on disk.
#[derive(Clone, Debug)]
pub struct FsEntry {
    pub path: String,
    pub kind: EntryKind,
}

/// What the build knows of its host.
#[derive(Clone, Debug)]
pub struct HostEnvironment {
    /// The manifest directory of the package being built, if set.
    pub manifest_dir: Option<String>,
    /// The devkitPro installation root, if set.
    pub devkitpro: Option<String>,
    /// Entries found on disk, in walk order.
    pub entries: Vec<FsEntry>,
}

/// Why a toolchain location could not be found.
#[derive(Clone, Debug)]
pub enum EnvironmentError {
    /// The manifest directory is not set: the build does not run under cargo.
    NoManifestDir,
    /// The manifest directory has no parent directory.
    NoManifestParentDir(String),
    /// The exlaunch folder is missing from the repository.
    MissingExlaunch,
    /// The exlaunch path exists but is not a directory.
    ExlaunchNotDirectory,
    /// devkitPro is not installed.
    DevkitproMissing,
    /// devkitA64 is not installed.
    DevkitA64Missing,
    /// A compiler of devkitA64 is missing.
    DevkitA64CompilerMissing,
    /// The module specs file is missing.
    MissingModuleSpecs,
    /// Reading the file system failed; the message says why.
    IO(String),
}

/// `EnvironmentError` with its messages as character sequences.
pub enum EnvFault {
    NoManifestDir,
    NoManifestParentDir(Seq<char>),
    MissingExlaunch,
    ExlaunchNotDirectory,
    DevkitproMissing,
    DevkitA64Missing,
    DevkitA64CompilerMissing,
    MissingModuleSpecs,
    IO(Seq<char>),
}

impl View for EnvironmentError {
    type V = EnvFault;

    open spec fn view(&self) -> EnvFault {
        match self {
            EnvironmentError::NoManifestDir => EnvFault::NoManifestDir,
            EnvironmentError::NoManifestParentDir(d) => EnvFault::NoManifestParentDir(d@),
            EnvironmentError::MissingExlaunch => EnvFault::MissingExlaunch,
            EnvironmentError::ExlaunchNotDirectory => EnvFault::ExlaunchNotDirectory,
            EnvironmentError::DevkitproMissing => EnvFault::DevkitproMissing,
            EnvironmentError::DevkitA64Missing => EnvFault::DevkitA64Missing,
            EnvironmentError::DevkitA64CompilerMissing => EnvFault::DevkitA64CompilerMissing,
            EnvironmentError::MissingModuleSpecs => EnvFault::MissingModuleSpecs,
            EnvironmentError::IO(m) => EnvFault::IO(m@),
        }
    }
}

/// A path lookup's result with its texts as character sequences.
pub open spec fn path_result(r: Result<String, EnvironmentError>) -> Result<Seq<char>, EnvFault> {
    match r {
        Ok(p) => Ok(p@),
        Err(e) => Err(e@),
    }
}

/// Index of the first entry at or after `i` whose path is `p`, or -1.
pub open spec fn entry_from(entries: Seq<FsEntry>, p: Seq<char>, i: int) -> int
    decreases entries.len() - i,
{
    if i < 0 || i >= entries.len() {
        -1
    } else if entries[i].path@ == p {
        i
    } else {
        entry_from(entries, p, i + 1)
    }
}

/// The kind of the first entry whose path is `p`, if there is one.
pub open spec fn kind_at(entries: Seq<FsEntry>, p: Seq<char>) -> Option<EntryKind> {
    let k = entry_from(entries, p, 0);
    if k < 0 {
        None
    } else {
        Some(entries[k].kind)
    }
}

/// Whether some entry has path `p`.
pub open spec fn path_exists(entries: Seq<FsEntry>, p: Seq<char>) -> bool {
    entry_from(entries, p, 0) >= 0
}

/// `base` joined with `rel`, provided it exists; `missing` otherwise.
pub open spec fn existing_under(
    entries: Seq<FsEntry>,
    base: Result<Seq<char>, EnvFault>,
    rel: Seq<char>,
    missing: EnvFault,
) -> Result<Seq<char>, EnvFault> {
    match base {
        Err(e) => Err(e),
        Ok(b) => if path_exists(entries, joined(b, rel)) {
            Ok(joined(b, rel))
        } else {
            Err(missing)
        },
    }
}

pub open spec fn spec_manifest_root_path(env: HostEnvironment) -> Result<Seq<char>, EnvFault> {
    match env.manifest_dir {
        Some(d) => Ok(d@),
        None => Err(EnvFault::NoManifestDir),
    }
}

pub open spec fn spec_repository_root_path(env: HostEnvironment) -> Result<Seq<char>, EnvFault> {
    match spec_manifest_root_path(env) {
        Err(e) => Err(e),
        Ok(d) => match parent_of(d) {
            Some(p) => Ok(p),
            None => Err(EnvFault::NoManifestParentDir(d)),
        },
    }
}

pub open spec fn spec_exlaunch_root_path(env: HostEnvironment) -> Result<Seq<char>, EnvFault> {
    match spec_repository_root_path(env) {
        Err(e) => Err(e),
        Ok(repo) => {
            let root = joined(repo, "exlaunch"@);
            match kind_at(env.entries@, root) {
                None => Err(EnvFault::MissingExlaunch),
                Some(EntryKind::Directory) => Ok(root),
                Some(EntryKind::Unreadable(m)) => Err(EnvFault::IO(m@)),
                Some(_) => Err(EnvFault::ExlaunchNotDirectory),
            }
        },
    }
}

pub open spec fn spec_devkitpro_path(env: HostEnvironment) -> Result<Seq<char>, EnvFault> {
    match env.devkitpro {
        Some(d) => Ok(d@),
        None => Err(EnvFault::DevkitproMissing),
    }
}

pub open spec fn spec_devkita64_path(env: HostEnvironment) -> Result<Seq<char>, EnvFault> {
    existing_under(env.entries@, spec_devkitpro_path(env), "devkitA64"@, EnvFault::DevkitA64Missing)
}

pub open spec fn spec_gpp_compiler_path(env: HostEnvironment) -> Result<Seq<char>, EnvFault> {
    existing_under(
        env.entries@,
        spec_devkita64_path(env),
        "bin/aarch64-none-elf-g++"@,
        EnvFault::DevkitA64CompilerMissing,
    )
}

pub open spec fn spec_gcc_compiler_path(env: HostEnvironment) -> Result<Seq<char>, EnvFault> {
    existing_under(
        env.entries@,
        spec_devkita64_path(env),
        "bin/aarch64-none-elf-gcc"@,
        EnvFault::DevkitA64CompilerMissing,
    )
}

pub open spec fn spec_switch_specs_path(env: HostEnvironment) -> Result<Seq<char>, EnvFault> {
    existing_under(
        env.entries@,
        spec_exlaunch_root_path(env),
        "misc/specs/module.specs"@,
        EnvFault::MissingModuleSpecs,
    )
}

impl HostEnvironment {
    /// Index of the first entry whose path is `p`.
    pub fn find_entry(&self, p: &str) -> (r: Option<usize>)
        ensures
            match r {
                None => entry_from(self.entries@, p@, 0) == -1,
                Some(i) => entry_from(self.entries@, p@, 0) == i && i < self.entries@.len(),
            },
    {
        let wanted = p.to_owned();
        let mut i: usize = 0;
        while i < self.entries.len()
            invariant
                i <= self.entries@.len(),
                wanted@ == p@,
                entry_from(self.entries@, p@, 0) == entry_from(self.entries@, p@, i as int),
            decreases self.entries@.len() - i,
        {
            if self.entries[i].path == wanted {
                return Some(i);
            }
            i = i + 1;
        }
        None
    }

    /// Whether an entry with path `p` was found.
    pub fn has_path(&self, p: &str) -> (r: bool)
        ensures
            r == path_exists(self.entries@, p@),
    {
        self.find_entry(p).is_some()
    }

    /// `base` joined with `rel` where that path exists, `missing` otherwise.
    fn existing_under(
        &self,
        base: Result<String, EnvironmentError>,
        rel: &str,
        missing: EnvironmentError,
    ) -> (r: Result<String, EnvironmentError>)
        ensures
            path_result(r) == existing_under(self.entries@, path_result(base), rel@, missing@),
    {
        match base {
            Err(e) => Err(e),
            Ok(b) => {
                let p = join_path(b.as_str(), rel);
                if self.has_path(p.as_str()) {
                    Ok(p)
                } else {
                    Err(missing)
                }
            },
        }
    }
}

/// The directories whose entries the lookups read: the exlaunch folder of
/// the repository and the devkitA64 folder of devkitPro, where those can be
/// named.
pub fn scan_roots(env: &HostEnvironment) -> (r: Vec<String>)
    ensures
        r@.map_values(|s: String| s@) == (match spec_repository_root_path(*env) {
            Ok(repo) => seq![joined(repo, "exlaunch"@)],
            Err(_) => Seq::empty(),
        }) + (match spec_devkitpro_path(*env) {
            Ok(pro) => seq![joined(pro, "devkitA64"@)],
            Err(_) => Seq::empty(),
        }),
{
    let mut roots: Vec<String> = Vec::new();
    match repository_root_path(env) {
        Ok(repo) => {
            roots.push(join_path(repo.as_str(), "exlaunch"));
        },
        Err(_) => {},
    }
    let ghost first = roots@.map_values(|s: String| s@);
    match devkitpro_path(env) {
        Ok(pro) => {
            roots.push(join_path(pro.as_str(), "devkitA64"));
        },
        Err(_) => {},
    }
    proof {
        assert(roots@.map_values(|s: String| s@) =~= first + (match spec_devkitpro_path(*env) {
            Ok(pro) => seq![joined(pro, "devkitA64"@)],
            Err(_) => Seq::empty(),
        }));
    }
    roots
}

/// The manifest directory of the package being built.
pub fn manifest_root_path(env: &HostEnvironment) -> (r: Result<String, EnvironmentError>)
    ensures
        path_result(r) == spec_manifest_root_path(*env),
{
    match &env.manifest_dir {
        Some(d) => Ok(d.clone()),
        None => Err(EnvironmentError::NoManifestDir),
    }
}

/// The root of the repository: the parent of the manifest directory.
pub fn repository_root_path(env: &HostEnvironment) -> (r: Result<String, EnvironmentError>)
    ensures
        path_result(r) == spec_repository_root_path(*env),
{
    match manifest_root_path(env) {
        Err(e) => Err(e),
        Ok(dir) => match parent_path(dir.as_str()) {
            Some(p) => Ok(p),
            None => Err(EnvironmentError::NoManifestParentDir(dir)),
        },
    }
}

/// The exlaunch folder at the root of the repository, which must be a
/// directory.
pub fn exlaunch_root_path(env: &HostEnvironment) -> (r: Result<String, EnvironmentError>)
    ensures
        path_result(r) == spec_exlaunch_root_path(*env),
{
    match repository_root_path(env) {
        Err(e) => Err(e),
        Ok(repo) => {
            let root = join_path(repo.as_str(), "exlaunch");
            match env.find_entry(root.as_str()) {
                None => Err(EnvironmentError::MissingExlaunch),
                Some(i) => match &env.entries[i].kind {
                    EntryKind::Directory => Ok(root),
                    EntryKind::Unreadable(m) => Err(EnvironmentError::IO(m.clone())),
                    _ => Err(EnvironmentError::ExlaunchNotDirectory),
                },
            }
        },
    }
}

/// The devkitPro installation root.
pub fn devkitpro_path(env: &HostEnvironment) -> (r: Result<String, EnvironmentError>)
    ensures
        path_result(r) == spec_devkitpro_path(*env),
{
    match &env.devkitpro {
        Some(d) => Ok(d.clone()),
        None => Err(EnvironmentError::DevkitproMissing),
    }
}

/// The devkitA64 folder of devkitPro, which must exist.
pub fn devkita64_path(env: &HostEnvironment) -> (r: Result<String, EnvironmentError>)
    ensures
        path_result(r) == spec_devkita64_path(*env),
{
    env.existing_under(devkitpro_path(env), "devkitA64", EnvironmentError::DevkitA64Missing)
}

/// The g++ compiler of devkitA64.
pub fn gpp_compiler_path(env: &HostEnvironment) -> (r: Result<String, EnvironmentError>)
    ensures
        path_result(r) == spec_gpp_compiler_path(*env),
{
    env.existing_under(
        devkita64_path(env),
        "bin/aarch64-none-elf-g++",
        EnvironmentError::DevkitA64CompilerMissing,
    )
}

/// The gcc compiler of devkitA64.
pub fn gcc_compiler_path(env: &HostEnvironment) -> (r: Result<String, EnvironmentError>)
    ensures
        path_result(r) == spec_gcc_compiler_path(*env),
{
    env.existing_under(
        devkita64_path(env),
        "bin/aarch64-none-elf-gcc",
        EnvironmentError::DevkitA64CompilerMissing,
    )
}

/// The module specs file of exlaunch.
pub fn switch_specs_path(env: &HostEnvironment) -> (r: Result<String, EnvironmentError>)
    ensures
        path_result(r) == spec_switch_specs_path(*env),
{
    env.existing_under(
        exlaunch_root_path(env),
        "misc/specs/module.specs",
        EnvironmentError::MissingModuleSpecs,
    )
}

} // verus!
