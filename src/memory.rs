//! The directory of loaded modules and their memory regions.
//!
//! The host fills the directory; this library only reads it. A directory is
//! populated once its module count is set; before that it holds the sentinel
//! count `-1`.

use vstd::prelude::*;

verus! {

/// A span of memory: where it starts and how many bytes it covers.
#[derive(Clone, Copy, Debug, PartialEq, Eq, Structural)]
pub struct Span {
    pub base: u64,
    pub len: u64,
}

/// One loaded module as the directory describes it.
#[derive(Clone, Debug)]
pub struct ModuleMemoryRegion {
    /// The module's name, where the loader could give one.
    pub name: Option<String>,
    /// Executable code.
    pub text: Span,
    /// Read-only data.
    pub rodata: Span,
    /// Mutable data.
    pub data: Span,
    /// Zero-initialised data.
    pub bss: Span,
    /// The loader's handle for the module object.
    pub module_object: u64,
}

/// The modules that every process knows by role.
#[derive(Clone, Copy, Debug, PartialEq, Eq, Structural)]
pub enum KnownModule {
    /// The dynamic loader.
    Rtld,
    /// The main executable.
    Main,
    /// This engine's own module.
    SkylineEx,
    /// The system library, loaded last.
    Sdk,
}

/// The catalogue of loaded modules.
#[derive(Clone, Debug)]
pub struct ModuleDirectory {
    /// Slots for module descriptions; only the first `count` are loaded modules.
    pub infos: Vec<ModuleMemoryRegion>,
    /// How many slots are in use, or `-1` before the host populated the directory.
    pub count: i32,
    /// The slot of this engine's own module.
    pub self_index: i32,
}

/// Index of the legacy region number that selects the heap.
pub const HEAP_REGION: u8 = 4;

/// Whether `m` carries the name `name`, compared character by character.
pub open spec fn has_name(m: ModuleMemoryRegion, name: Seq<char>) -> bool {
    m.name.is_some() && m.name.unwrap()@ == name
}

/// The address that the legacy region number `region` stands for in module
/// `m`, with `heap_base` for the heap; `u64::MAX` for an unknown number.
pub open spec fn region_address_of(m: ModuleMemoryRegion, heap_base: u64, region: u8) -> u64 {
    if region == 0 {
        m.text.base
    } else if region == 1 {
        m.rodata.base
    } else if region == 2 {
        m.data.base
    } else if region == 3 {
        m.bss.base
    } else if region == HEAP_REGION {
        heap_base
    } else {
        u64::MAX
    }
}

impl ModuleMemoryRegion {
    /// The start of the region that `region` numbers: 0 code, 1 read-only
    /// data, 2 data, 3 zero-initialised data, 4 the heap at `heap_base`;
    /// `u64::MAX` for any other number.
    pub fn region_address(&self, heap_base: u64, region: u8) -> (r: u64)
        ensures
            r == region_address_of(*self, heap_base, region),
    {
        match region {
            0 => self.text.base,
            1 => self.rodata.base,
            2 => self.data.base,
            3 => self.bss.base,
            HEAP_REGION => heap_base,
            _ => u64::MAX,
        }
    }
}

impl ModuleDirectory {
    /// The directory's shape: at least the loader's and the main executable's
    /// slots, a count that is the sentinel or within the slots, and a self
    /// index within the slots.
    pub open spec fn wf(&self) -> bool {
        &&& 2 <= self.infos@.len() <= i32::MAX
        &&& (self.count == -1 || 1 <= self.count <= self.infos@.len())
        &&& 0 <= self.self_index < self.infos@.len()
    }

    /// Whether the host has filled the directory.
    pub open spec fn populated(&self) -> bool {
        self.count != -1
    }

    /// The slot that holds the module of role `role`.
    pub open spec fn known_index(&self, role: KnownModule) -> int {
        match role {
            KnownModule::Rtld => 0,
            KnownModule::Main => 1,
            KnownModule::SkylineEx => self.self_index as int,
            KnownModule::Sdk => self.count - 1,
        }
    }

    /// A directory over `infos` that the host has not populated yet.
    pub fn unpopulated(infos: Vec<ModuleMemoryRegion>, self_index: i32) -> (r: Option<Self>)
        ensures
            r.is_some() <==> (2 <= infos@.len() <= i32::MAX && 0 <= self_index
                < infos@.len()),
            r.is_some() ==> r.unwrap().infos@ == infos@ && r.unwrap().count == -1
                && r.unwrap().self_index == self_index,
            r.is_some() ==> r.unwrap().wf() && !r.unwrap().populated(),
    {
        let n = infos.len();
        if 2 <= n && n <= i32::MAX as usize && 0 <= self_index && (self_index as usize) < n {
            Some(ModuleDirectory { infos, count: -1, self_index })
        } else {
            None
        }
    }

    /// A populated directory whose first `count` slots hold loaded modules.
    pub fn new(infos: Vec<ModuleMemoryRegion>, count: i32, self_index: i32) -> (r: Option<Self>)
        ensures
            r.is_some() <==> (2 <= infos@.len() <= i32::MAX && 1 <= count <= infos@.len() && 0
                <= self_index < infos@.len()),
            r.is_some() ==> r.unwrap().infos@ == infos@ && r.unwrap().count == count
                && r.unwrap().self_index == self_index,
            r.is_some() ==> r.unwrap().wf() && r.unwrap().populated(),
    {
        let n = infos.len();
        if 2 <= n && n <= i32::MAX as usize && 1 <= count && (count as usize) <= n && 0
            <= self_index && (self_index as usize) < n {
            Some(ModuleDirectory { infos, count, self_index })
        } else {
            None
        }
    }

    /// Whether the host has filled the directory.
    pub fn is_populated(&self) -> (r: bool)
        ensures
            r == self.populated(),
    {
        self.count != -1
    }

    /// The slot of the module of role `role`. Consulting the directory
    /// before the host populated it is an ordering error, so callers must not
    /// do it.
    pub fn known_module_index(&self, role: KnownModule) -> (r: usize)
        requires
            self.wf(),
            self.populated(),
        ensures
            r == self.known_index(role),
            r < self.infos@.len(),
    {
        match role {
            KnownModule::Rtld => 0,
            KnownModule::Main => 1,
            KnownModule::SkylineEx => self.self_index as usize,
            KnownModule::Sdk => (self.count - 1) as usize,
        }
    }

    /// The module of role `role`. Consulting the directory before the host
    /// populated it is an ordering error, so callers must not do it.
    pub fn get_known_module(&self, role: KnownModule) -> (r: &ModuleMemoryRegion)
        requires
            self.wf(),
            self.populated(),
        ensures
            0 <= self.known_index(role) < self.infos@.len(),
            *r == self.infos@[self.known_index(role)],
    {
        &self.infos[self.known_module_index(role)]
    }

    /// The slot of the first loaded module named `name`. Only the first
    /// `count` slots are looked at; a name found nowhere among them gives
    /// `None`.
    pub fn module_index_by_name(&self, name: &str) -> (r: Option<usize>)
        requires
            self.wf(),
            self.populated(),
        ensures
            r.is_none() <==> (forall|i: int| 0 <= i < self.count ==> !has_name(self.infos@[i], name@)),
            r.is_some() ==> r.unwrap() < self.count && has_name(self.infos@[r.unwrap() as int], name@)
                && forall|j: int| 0 <= j < r.unwrap() ==> !has_name(self.infos@[j], name@),
    {
        let wanted = name.to_owned();
        let n = self.count as usize;
        let mut i: usize = 0;
        while i < n
            invariant
                self.wf(),
                self.populated(),
                n == self.count,
                i <= n,
                wanted@ == name@,
                forall|j: int| 0 <= j < i ==> !has_name(self.infos@[j], name@),
            decreases n - i,
        {
            match &self.infos[i].name {
                Some(s) => {
                    if *s == wanted {
                        return Some(i);
                    }
                },
                None => {},
            }
            i = i + 1;
        }
        None
    }

    /// The first loaded module named `name`. Only the first `count` slots are
    /// looked at; a name found nowhere among them gives `None`.
    pub fn get_module_by_name(&self, name: &str) -> (r: Option<&ModuleMemoryRegion>)
        requires
            self.wf(),
            self.populated(),
        ensures
            r.is_none() <==> (forall|i: int| 0 <= i < self.count ==> !has_name(self.infos@[i], name@)),
            r.is_some() ==> exists|i: int|
                0 <= i < self.count && *r.unwrap() == self.infos@[i] && has_name(self.infos@[i], name@)
                    && forall|j: int| 0 <= j < i ==> !has_name(self.infos@[j], name@),
    {
        match self.module_index_by_name(name) {
            Some(i) => Some(&self.infos[i]),
            None => None,
        }
    }
}

} // verus!
