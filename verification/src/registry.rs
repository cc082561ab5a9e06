//! The process-wide registration table.
//!
//! The host keeps one global table of everything registered at load time:
//! extensions, configuration plugins, component types and resource types.
//! That table is inherent to the host's calling convention, so the bridge
//! models it as a single explicit registry object with one entry per
//! registration, rather than as scattered statics.

use vstd::prelude::*;
use vstd::string::StringSliceAdditionalSpecFns;
use vstd::utf8::encode_utf8;

verus! {

/// What kind of registration an entry records. Extension and plugin entries
/// also record which callback slots the user filled; the trampolines handed
/// to the host are always present regardless.
#[derive(Clone, Copy, Debug, PartialEq, Eq, Structural)]
pub enum RegKind {
    Extension(crate::dmextension::Slots),
    ConfigPlugin(crate::dmconfigfile::PluginSlots),
    ComponentType,
    ResourceType,
}

/// The descriptor size the host expects for a registration kind. A mismatch
/// corrupts the host's bookkeeping, so every register call fixes the size by
/// the descriptor's type.
pub open spec fn kind_desc_size(kind: RegKind) -> usize {
    match kind {
        RegKind::Extension(_) => crate::dmextension::DESC_BUFFER_SIZE,
        RegKind::ConfigPlugin(_) => crate::dmconfigfile::DESC_BUFFER_SIZE,
        RegKind::ComponentType => crate::dmgameobject::DESC_BUFFER_SIZE,
        RegKind::ResourceType => crate::dmresource::DESC_BUFFER_SIZE,
    }
}

/// True when no byte of the sequence is a null byte. The host consumes
/// registration names as null-terminated strings, so an embedded null would
/// silently truncate the name.
pub open spec fn nul_free(bytes: Seq<u8>) -> bool {
    forall|i: int| 0 <= i < bytes.len() ==> bytes[i] != 0
}

/// Whether the string's bytes embed a null byte, which would make the name
/// unrepresentable in the host's string encoding. Registration demands a
/// name free of them; an unverified caller tests this first and treats a hit
/// as fatal.
pub fn has_nul_byte(s: &str) -> (found: bool)
    ensures
        found == !nul_free(s.spec_bytes()),
{
    let bytes = s.as_bytes();
    let n = bytes.len();
    let mut i: usize = 0;
    while i < n
        invariant
            bytes@ == s.spec_bytes(),
            n == bytes@.len(),
            0 <= i <= n,
            forall|j: int| 0 <= j < i ==> bytes@[j] != 0,
        decreases n - i,
    {
        if bytes[i] == 0 {
            proof {
                assert(s.spec_bytes()[i as int] == 0);
            }
            return true;
        }
        i += 1;
    }
    false
}

/// One descriptor entry in the host's registration table.
pub struct Entry {
    /// The registered name, as the host will see it (minus the terminator).
    pub name: String,
    /// What was registered, and which of its callback slots the user filled.
    pub kind: RegKind,
    /// The byte size of the descriptor block handed to the host.
    pub desc_size: usize,
}

/// A well-formed entry: its name can be null-terminated without truncation
/// and its descriptor block has exactly the size its kind demands.
pub open spec fn entry_wf(e: Entry) -> bool {
    &&& nul_free(encode_utf8(e.name@))
    &&& e.desc_size == kind_desc_size(e.kind)
}

/// The host's registration table: every descriptor entry registered in this
/// process, in registration order.
pub struct Registry {
    /// The registered entries, oldest first.
    pub entries: Vec<Entry>,
}

impl Registry {
    /// A well-formed table: every entry is well formed and no two entries
    /// share a name (registration happens at most once per distinct name).
    pub open spec fn wf(&self) -> bool {
        &&& forall|i: int|
            0 <= i < self.entries@.len() ==> entry_wf(#[trigger] self.entries@[i])
        &&& forall|i: int, j: int|
            0 <= i < j < self.entries@.len() ==> self.entries@[i].name@ != self.entries@[j].name@
    }

    /// True when some entry carries the given name.
    pub open spec fn spec_has_name(&self, name: Seq<char>) -> bool {
        exists|i: int| 0 <= i < self.entries@.len() && (#[trigger] self.entries@[i].name@) == name
    }

    /// An empty table, as the process starts before any load-time
    /// registration has run.
    pub fn new() -> (reg: Registry)
        ensures
            reg.entries@.len() == 0,
            reg.wf(),
    {
        Registry { entries: Vec::new() }
    }

    /// The number of descriptor entries registered so far.
    pub fn len(&self) -> (n: usize)
        ensures
            n == self.entries@.len(),
    {
        self.entries.len()
    }

    /// Whether the given name is already registered.
    pub fn has_name(&self, name: &str) -> (found: bool)
        ensures
            found == self.spec_has_name(name@),
    {
        let target: String = name.to_owned();
        let n = self.entries.len();
        let mut i: usize = 0;
        while i < n
            invariant
                n == self.entries@.len(),
                0 <= i <= n,
                target@ == name@,
                forall|j: int| 0 <= j < i ==> self.entries@[j].name@ != name@,
            decreases n - i,
        {
            if self.entries[i].name == target {
                return true;
            }
            i += 1;
        }
        false
    }

    /// Appends one well-formed entry under a name that is not yet taken.
    /// This is the shared tail of every kind-specific register call.
    pub fn push_entry(&mut self, name: &str, kind: RegKind, desc_size: usize)
        requires
            nul_free(name.spec_bytes()),
            !old(self).spec_has_name(name@),
            desc_size == kind_desc_size(kind),
            old(self).wf(),
        ensures
            final(self).wf(),
            final(self).entries@.len() == old(self).entries@.len() + 1,
            final(self).entries@.subrange(0, old(self).entries@.len() as int) == old(
                self,
            ).entries@,
            final(self).entries@.last().name@ == name@,
            final(self).entries@.last().kind == kind,
            final(self).entries@.last().desc_size == desc_size,
    {
        let entry = Entry { name: name.to_owned(), kind, desc_size };
        self.entries.push(entry);
        proof {
            assert(self.entries@.subrange(0, old(self).entries@.len() as int) =~= old(
                self,
            ).entries@);
        }
    }
}

} // verus!
