//! Game-object error codes and component-type registration.
//!
//! Game objects themselves live in the host; this module decodes the host's
//! integer conventions for them and models the component-type half of the
//! registration bridge.

use vstd::prelude::*;
use vstd::string::StringSliceAdditionalSpecFns;

verus! {

/// Byte size of the opaque descriptor block the host keeps per registered
/// component type.
pub const DESC_BUFFER_SIZE: usize = 128;

/// The opaque, host-sized memory block backing one component-type
/// registration. The host owns its contents from registration on.
pub type ComponentDesc = [u8; DESC_BUFFER_SIZE];

/// A game-object operation error.
#[derive(Clone, Copy, Debug, PartialEq, Eq, Structural)]
pub enum Error {
    OutOfResources,
    AlreadyRegistered,
    IdentifierInUse,
    IdentifierAlreadySet,
    ComponentNotFound,
    MaximumHierarchicalDepth,
    InvalidOperation,
    ResourceTypeNotFound,
    BufferOverflow,
    Unknown,
}

/// The error that a host result code stands for: `-1` through `-9` name the
/// known errors, every other code is unknown.
pub open spec fn go_error_from_code(code: i32) -> Error {
    if code == -1 {
        Error::OutOfResources
    } else if code == -2 {
        Error::AlreadyRegistered
    } else if code == -3 {
        Error::IdentifierInUse
    } else if code == -4 {
        Error::IdentifierAlreadySet
    } else if code == -5 {
        Error::ComponentNotFound
    } else if code == -6 {
        Error::MaximumHierarchicalDepth
    } else if code == -7 {
        Error::InvalidOperation
    } else if code == -8 {
        Error::ResourceTypeNotFound
    } else if code == -9 {
        Error::BufferOverflow
    } else {
        Error::Unknown
    }
}

impl Error {
    /// Decodes a host game-object result code.
    pub fn from_code(code: i32) -> (e: Error)
        ensures
            e == go_error_from_code(code),
    {
        match code {
            -1 => Error::OutOfResources,
            -2 => Error::AlreadyRegistered,
            -3 => Error::IdentifierInUse,
            -4 => Error::IdentifierAlreadySet,
            -5 => Error::ComponentNotFound,
            -6 => Error::MaximumHierarchicalDepth,
            -7 => Error::InvalidOperation,
            -8 => Error::ResourceTypeNotFound,
            -9 => Error::BufferOverflow,
            _ => Error::Unknown,
        }
    }
}

/// The hash value the host reports for a game object that was never given an
/// identifier.
pub const UNNAMED_IDENTIFIER: u64 = 12415623704795185700;

/// Decodes the host's identifier convention: the sentinel hash of an unnamed
/// object becomes `None`, every other hash is the object's identifier.
pub fn identifier_from_hash(hash: u64) -> (id: Option<u64>)
    ensures
        hash == UNNAMED_IDENTIFIER ==> id is None,
        hash != UNNAMED_IDENTIFIER ==> id == Some(hash),
{
    if hash == UNNAMED_IDENTIFIER {
        None
    } else {
        Some(hash)
    }
}

/// Outcome of a component factory callback, reported to the host as `0` for
/// success and `-1000` for failure.
#[derive(Clone, Copy, Debug, PartialEq, Eq, Structural)]
pub enum CreateResult {
    Success,
    Failure,
}

/// The host integer that stands for a factory outcome.
pub open spec fn create_result_code(r: CreateResult) -> i32 {
    match r {
        CreateResult::Success => 0i32,
        CreateResult::Failure => -1000i32,
    }
}

impl CreateResult {
    /// Encodes this outcome in the host's integer convention.
    pub fn to_host(self) -> (code: i32)
        ensures
            code == create_result_code(self),
    {
        match self {
            CreateResult::Success => 0,
            CreateResult::Failure => -1000,
        }
    }
}

/// The property set attached to a component instance. The host does not yet
/// expose its contents through this boundary.
#[derive(Clone, Copy, Debug, PartialEq, Eq, Structural)]
pub struct PropertySet {}

/// A component type being configured during its type-create callback. The
/// host object is opaque; the bridge tracks what has been installed on it.
pub struct ComponentType {
    /// Raw handle of the host-owned component-type object.
    pub raw: u64,
    /// Whether a factory function has been installed for this type.
    pub create_fn_set: bool,
}

impl ComponentType {
    /// Wraps a raw host component-type handle, with no factory installed yet.
    pub fn new(raw: u64) -> (c: ComponentType)
        ensures
            c.raw == raw,
            !c.create_fn_set,
    {
        ComponentType { raw, create_fn_set: false }
    }

    /// Installs the factory function for this component type.
    pub fn set_create_fn(&mut self)
        ensures
            final(self).raw == old(self).raw,
            final(self).create_fn_set,
    {
        self.create_fn_set = true;
    }
}

/// Trampoline for the optional type-destroy slot of a registered component
/// type: forwards to the user handler when one is set, else reports the
/// slot's default result (success, `0`).
pub fn destroy_tramp<D: Fn(u64, u64) -> i32>(slot: &Option<D>, ctx: u64, component: u64) -> (code:
    i32)
    requires
        slot matches Some(f) ==> call_requires(f, (ctx, component)),
    ensures
        slot is None ==> code == 0,
        slot matches Some(f) ==> call_ensures(f, (ctx, component), code),
{
    match slot {
        Some(f) => f(ctx, component),
        None => 0,
    }
}

/// Registers one component type with the host: hands it the name, the
/// descriptor block, and the type-create and type-destroy trampolines. Runs
/// once at load time; the same name and null-byte rules apply as for
/// extension registration, and exactly one descriptor entry is produced.
pub fn register_component_type(
    reg: &mut crate::registry::Registry,
    name: &str,
    desc: &mut ComponentDesc,
)
    requires
        crate::registry::nul_free(name.spec_bytes()),
        !old(reg).spec_has_name(name@),
        old(reg).wf(),
    ensures
        final(reg).wf(),
        final(reg).entries@.len() == old(reg).entries@.len() + 1,
        final(reg).entries@.subrange(0, old(reg).entries@.len() as int) == old(reg).entries@,
        final(reg).entries@.last().name@ == name@,
        final(reg).entries@.last().kind == crate::registry::RegKind::ComponentType,
        final(reg).entries@.last().desc_size == DESC_BUFFER_SIZE,
{
    reg.push_entry(name, crate::registry::RegKind::ComponentType, DESC_BUFFER_SIZE);
}

} // verus!
