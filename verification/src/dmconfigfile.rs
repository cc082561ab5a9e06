//! Configuration access and configuration-plugin callbacks.
//!
//! The compiled project configuration is owned by the host; the bridge sees it
//! only as an opaque handle, modeled here as a plain integer. This module
//! holds the plugin side of the bridge: the optional getter handlers a user
//! may register, and the trampolines that validate the host's raw byte-string
//! keys before the handlers ever see them.

use vstd::prelude::*;
use vstd::string::StringSliceAdditionalSpecFns;
use vstd::utf8::decode_utf8;
use vstd::utf8::valid_utf8;

verus! {

/// A handle to a host-owned project configuration.
pub type ConfigFile = u64;

/// Marker for the configuration subsystem.
pub struct Config {}

/// Byte size of the opaque descriptor block the host keeps per registered
/// configuration plugin.
pub const DESC_BUFFER_SIZE: usize = 64;

/// The opaque, host-sized memory block backing one plugin registration. The
/// host owns its contents from registration on.
pub type Desc = [u8; DESC_BUFFER_SIZE];

/// Which callback slots of a [`PluginCallbacks`] bundle hold a user handler.
#[derive(Clone, Copy, Debug, PartialEq, Eq, Structural)]
pub struct PluginSlots {
    pub create: bool,
    pub destroy: bool,
    pub get_string: bool,
    pub get_int: bool,
}

/// Relies on `core::str::from_utf8`: it returns `Ok` exactly when the bytes
/// are valid UTF-8, and the resulting string is those bytes decoded.
#[verifier::external_body]
fn bytes_to_str(bytes: &[u8]) -> (r: Option<&str>)
    ensures
        r is Some <==> valid_utf8(bytes@),
        r matches Some(s) ==> s@ == decode_utf8(bytes@) && s.spec_bytes() == bytes@,
{
    core::str::from_utf8(bytes).ok()
}

/// The named group of optional configuration-plugin handlers. As with
/// extensions, every slot gets an always-present trampoline; the host's raw
/// byte strings are validated here, before any user handler sees them.
///
/// The host also offers a floating-point getter slot; its values cannot be
/// carried through this model and its trampoline lives with the unverified
/// host boundary.
pub struct PluginCallbacks<C, D, GS, GI> {
    /// Runs when the host has loaded the configuration.
    pub create: Option<C>,
    /// Runs when the host tears the plugin down.
    pub destroy: Option<D>,
    /// Looks a key up as a string value.
    pub get_string: Option<GS>,
    /// Looks a key up as an integer value.
    pub get_int: Option<GI>,
}

impl<C, D, GS, GI> PluginCallbacks<C, D, GS, GI> where
    C: Fn(ConfigFile),
    D: Fn(ConfigFile),
    GS: Fn(ConfigFile, String, String) -> Option<String>,
    GI: Fn(ConfigFile, String, i32) -> Option<i32>,
 {
    /// Bundles a structured set of named plugin handlers, each slot optional,
    /// into a ready-to-register callback set.
    pub fn new(
        create: Option<C>,
        destroy: Option<D>,
        get_string: Option<GS>,
        get_int: Option<GI>,
    ) -> (cb: Self)
        ensures
            cb.create == create,
            cb.destroy == destroy,
            cb.get_string == get_string,
            cb.get_int == get_int,
    {
        PluginCallbacks { create, destroy, get_string, get_int }
    }

    /// Which slots hold a user handler.
    pub open spec fn spec_slots(&self) -> PluginSlots {
        PluginSlots {
            create: self.create is Some,
            destroy: self.destroy is Some,
            get_string: self.get_string is Some,
            get_int: self.get_int is Some,
        }
    }

    /// Reports which slots hold a user handler.
    pub fn slots(&self) -> (s: PluginSlots)
        ensures
            s == self.spec_slots(),
    {
        PluginSlots {
            create: self.create.is_some(),
            destroy: self.destroy.is_some(),
            get_string: self.get_string.is_some(),
            get_int: self.get_int.is_some(),
        }
    }

    /// Trampoline for the create slot: forwards to the user handler when one
    /// is set, else does nothing.
    pub fn create_tramp(&self, config: ConfigFile)
        requires
            self.create matches Some(f) ==> call_requires(f, (config,)),
        ensures
            self.create matches Some(f) ==> call_ensures(f, (config,), ()),
    {
        match &self.create {
            Some(f) => f(config),
            None => {},
        }
    }

    /// Trampoline for the destroy slot: forwards to the user handler when one
    /// is set, else does nothing.
    pub fn destroy_tramp(&self, config: ConfigFile)
        requires
            self.destroy matches Some(f) ==> call_requires(f, (config,)),
        ensures
            self.destroy matches Some(f) ==> call_ensures(f, (config,), ()),
    {
        match &self.destroy {
            Some(f) => f(config),
            None => {},
        }
    }

    /// Trampoline for the string getter slot. The host hands raw byte
    /// strings; both are validated as UTF-8 and decoded before the user
    /// handler sees them, and the handler receives the decoded key unchanged.
    /// Invalid bytes, like an absent handler, mean "not handled" (`None`) —
    /// never a crash. A `Some` result is what the host writes through its
    /// out-pointer; `None` leaves the out-pointer untouched.
    pub fn get_string_tramp(&self, config: ConfigFile, key: &[u8], default_value: &[u8]) -> (r:
        Option<String>)
        requires
            self.get_string matches Some(g) ==> forall|k: String, d: String|
                k@ == decode_utf8(key@) && d@ == decode_utf8(default_value@)
                    ==> #[trigger] call_requires(g, (config, k, d)),
        ensures
            self.get_string is None ==> r is None,
            !(valid_utf8(key@) && valid_utf8(default_value@)) ==> r is None,
            self.get_string matches Some(g) ==> ((valid_utf8(key@) && valid_utf8(default_value@))
                ==> exists|k: String, d: String|
                k@ == decode_utf8(key@) && d@ == decode_utf8(default_value@)
                    && #[trigger] call_ensures(g, (config, k, d), r)),
    {
        match &self.get_string {
            Some(g) => {
                let key_str = match bytes_to_str(key) {
                    Some(s) => s,
                    None => {
                        return None;
                    },
                };
                let default_str = match bytes_to_str(default_value) {
                    Some(s) => s,
                    None => {
                        return None;
                    },
                };
                g(config, key_str.to_owned(), default_str.to_owned())
            },
            None => None,
        }
    }

    /// Trampoline for the integer getter slot. The key is validated as UTF-8
    /// and decoded before the user handler sees it; invalid bytes, like an
    /// absent handler, mean "not handled" (`None`) — never a crash.
    pub fn get_int_tramp(&self, config: ConfigFile, key: &[u8], default_value: i32) -> (r: Option<
        i32,
    >)
        requires
            self.get_int matches Some(g) ==> forall|k: String|
                k@ == decode_utf8(key@) ==> #[trigger] call_requires(g, (config, k, default_value)),
        ensures
            self.get_int is None ==> r is None,
            !valid_utf8(key@) ==> r is None,
            self.get_int matches Some(g) ==> (valid_utf8(key@) ==> exists|k: String|
                k@ == decode_utf8(key@) && #[trigger] call_ensures(
                    g,
                    (config, k, default_value),
                    r,
                )),
    {
        match &self.get_int {
            Some(g) => {
                let key_str = match bytes_to_str(key) {
                    Some(s) => s,
                    None => {
                        return None;
                    },
                };
                g(config, key_str.to_owned(), default_value)
            },
            None => None,
        }
    }
}

/// Registers one configuration plugin with the host: hands it the name, the
/// descriptor block, and the always-present trampolines of the bundle. Runs
/// once at load time; the same name and null-byte rules apply as for
/// extension registration, and exactly one descriptor entry is produced.
pub fn register<C, D, GS, GI>(
    reg: &mut crate::registry::Registry,
    desc: &mut Desc,
    name: &str,
    callbacks: &PluginCallbacks<C, D, GS, GI>,
) where
    C: Fn(ConfigFile),
    D: Fn(ConfigFile),
    GS: Fn(ConfigFile, String, String) -> Option<String>,
    GI: Fn(ConfigFile, String, i32) -> Option<i32>,

    requires
        crate::registry::nul_free(name.spec_bytes()),
        !old(reg).spec_has_name(name@),
        old(reg).wf(),
    ensures
        final(reg).wf(),
        final(reg).entries@.len() == old(reg).entries@.len() + 1,
        final(reg).entries@.subrange(0, old(reg).entries@.len() as int) == old(reg).entries@,
        final(reg).entries@.last().name@ == name@,
        final(reg).entries@.last().kind == crate::registry::RegKind::ConfigPlugin(
            callbacks.spec_slots(),
        ),
        final(reg).entries@.last().desc_size == DESC_BUFFER_SIZE,
{
    let slots = callbacks.slots();
    reg.push_entry(name, crate::registry::RegKind::ConfigPlugin(slots), DESC_BUFFER_SIZE);
}

} // verus!
