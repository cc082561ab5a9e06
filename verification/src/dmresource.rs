//! Resource-type registration.
//!
//! Resource data lives in the host's factory; this module models the
//! load-time registration of a resource-type creator.

use vstd::prelude::*;
use vstd::string::StringSliceAdditionalSpecFns;

verus! {

/// Byte size of the opaque descriptor block the host keeps per registered
/// resource-type creator.
pub const DESC_BUFFER_SIZE: usize = 128;

/// The opaque, host-sized memory block backing one resource-type
/// registration. The host owns its contents from registration on.
pub type TypeCreatorDesc = [u8; DESC_BUFFER_SIZE];

/// Registers one resource-type creator with the host: hands it the name, the
/// descriptor block, and the register and deregister callbacks. Runs once at
/// load time; the same name and null-byte rules apply as for extension
/// registration, and exactly one descriptor entry is produced.
pub fn register_type_creator(
    reg: &mut crate::registry::Registry,
    desc: &mut TypeCreatorDesc,
    name: &str,
)
    requires
        crate::registry::nul_free(name.spec_bytes()),
        !old(reg).spec_has_name(name@),
        old(reg).wf(),
    ensures
        final(reg).wf(),
        final(reg).entries@.len() == old(reg).entries@.len() + 1,
        final(reg).entries@.subrange(0, old(reg).entries@.len() as int) == old(reg).entries@,
        final(reg).entries@.last().name@ == name@,
        final(reg).entries@.last().kind == crate::registry::RegKind::ResourceType,
        final(reg).entries@.last().desc_size == DESC_BUFFER_SIZE,
{
    reg.push_entry(name, crate::registry::RegKind::ResourceType, DESC_BUFFER_SIZE);
}

} // verus!
