//! Extension lifecycle callbacks: the typed results and events exchanged with
//! the host, and the trampolines that adapt optional user handlers to the
//! host's raw calling convention.

use vstd::prelude::*;
use vstd::string::StringSliceAdditionalSpecFns;

verus! {

/// Byte size of the opaque descriptor block the host keeps per registered
/// extension.
pub const DESC_BUFFER_SIZE: usize = 128;

/// The opaque, host-sized memory block backing one extension registration.
/// The host owns its contents from registration on.
pub type Desc = [u8; DESC_BUFFER_SIZE];

/// Result of a lifecycle callback, reported to the host as a signed integer:
/// `0` for success, `-1` for an initialization error.
#[derive(Clone, Copy, Debug, PartialEq, Eq, Structural)]
pub enum ExtResult {
    Success,
    InitError,
}

/// The host integer that stands for a callback result.
pub open spec fn result_code(r: ExtResult) -> i32 {
    match r {
        ExtResult::Success => 0i32,
        ExtResult::InitError => -1i32,
    }
}

/// The callback result that a host integer stands for: `0` is success, any
/// other value is an initialization error.
pub open spec fn result_from_code(code: i32) -> ExtResult {
    if code == 0 {
        ExtResult::Success
    } else {
        ExtResult::InitError
    }
}

impl ExtResult {
    /// Encodes this result in the host's integer convention.
    pub fn to_host(self) -> (code: i32)
        ensures
            code == result_code(self),
    {
        match self {
            ExtResult::Success => 0,
            ExtResult::InitError => -1,
        }
    }

    /// Decodes a host integer back into a result.
    pub fn from_host(code: i32) -> (r: ExtResult)
        ensures
            r == result_from_code(code),
    {
        if code == 0 {
            ExtResult::Success
        } else {
            ExtResult::InitError
        }
    }
}

/// Encoding a result as the host integer and decoding that integer again
/// recovers the original variant.
pub proof fn lemma_result_round_trip(r: ExtResult)
    ensures
        result_from_code(result_code(r)) == r,
{
}

/// A host-signaled lifecycle event. Event codes the bridge does not know are
/// decoded to [`Event::Unknown`] for forward compatibility, never rejected.
#[derive(Clone, Copy, Debug, PartialEq, Eq, Structural)]
pub enum Event {
    ActivateApp,
    DeactivateApp,
    IconifyApp,
    DeiconifyApp,
    Unknown,
}

/// The event that a host event code stands for: `0` through `3` name the four
/// known events, every other code is [`Event::Unknown`].
pub open spec fn event_from_code(code: u32) -> Event {
    if code == 0 {
        Event::ActivateApp
    } else if code == 1 {
        Event::DeactivateApp
    } else if code == 2 {
        Event::IconifyApp
    } else if code == 3 {
        Event::DeiconifyApp
    } else {
        Event::Unknown
    }
}

impl Event {
    /// Decodes a host event code. Never fails: unrecognized codes become
    /// [`Event::Unknown`].
    pub fn from_code(code: u32) -> (e: Event)
        ensures
            e == event_from_code(code),
    {
        match code {
            0 => Event::ActivateApp,
            1 => Event::DeactivateApp,
            2 => Event::IconifyApp,
            3 => Event::DeiconifyApp,
            _ => Event::Unknown,
        }
    }
}

/// Parameters handed to the app-level lifecycle callbacks: the handle of the
/// project configuration that the host opened for this process.
#[derive(Clone, Copy, Debug, PartialEq, Eq, Structural)]
pub struct AppParams {
    /// Project config file handle.
    pub config: crate::dmconfigfile::ConfigFile,
}

/// Parameters handed to the extension-level callbacks: the project
/// configuration handle and the handle of the host's script interpreter state.
#[derive(Clone, Copy, Debug, PartialEq, Eq, Structural)]
pub struct Params {
    /// Project config file handle.
    pub config: crate::dmconfigfile::ConfigFile,
    /// Script interpreter state.
    pub l: crate::lua::State,
}

/// The named group of optional lifecycle handlers for one extension. Each
/// slot is independently optional; the trampolines below are always present,
/// so an absent handler never leaves a hole in the host's callback table.
pub struct Callbacks<AI, AF, EI, EF, UP, EV> {
    /// Runs once when the whole application initializes.
    pub app_init: Option<AI>,
    /// Runs once when the whole application finalizes.
    pub app_final: Option<AF>,
    /// Runs when this extension initializes.
    pub ext_init: Option<EI>,
    /// Runs when this extension finalizes.
    pub ext_final: Option<EF>,
    /// Runs once per frame.
    pub on_update: Option<UP>,
    /// Runs on a host lifecycle event.
    pub on_event: Option<EV>,
}

/// Which callback slots of a [`Callbacks`] bundle hold a user handler.
#[derive(Clone, Copy, Debug, PartialEq, Eq, Structural)]
pub struct Slots {
    pub app_init: bool,
    pub app_final: bool,
    pub ext_init: bool,
    pub ext_final: bool,
    pub on_update: bool,
    pub on_event: bool,
}

impl<AI, AF, EI, EF, UP, EV> Callbacks<AI, AF, EI, EF, UP, EV> where
    AI: Fn(AppParams) -> ExtResult,
    AF: Fn(AppParams) -> ExtResult,
    EI: Fn(Params) -> ExtResult,
    EF: Fn(Params) -> ExtResult,
    UP: Fn(Params) -> ExtResult,
    EV: Fn(Params, Event),
 {
    /// Bundles a structured set of named handlers, each slot optional, into a
    /// ready-to-register callback set.
    pub fn new(
        app_init: Option<AI>,
        app_final: Option<AF>,
        ext_init: Option<EI>,
        ext_final: Option<EF>,
        on_update: Option<UP>,
        on_event: Option<EV>,
    ) -> (cb: Self)
        ensures
            cb.app_init == app_init,
            cb.app_final == app_final,
            cb.ext_init == ext_init,
            cb.ext_final == ext_final,
            cb.on_update == on_update,
            cb.on_event == on_event,
    {
        Callbacks { app_init, app_final, ext_init, ext_final, on_update, on_event }
    }

    /// Which slots hold a user handler.
    pub open spec fn spec_slots(&self) -> Slots {
        Slots {
            app_init: self.app_init is Some,
            app_final: self.app_final is Some,
            ext_init: self.ext_init is Some,
            ext_final: self.ext_final is Some,
            on_update: self.on_update is Some,
            on_event: self.on_event is Some,
        }
    }

    /// Reports which slots hold a user handler.
    pub fn slots(&self) -> (s: Slots)
        ensures
            s == self.spec_slots(),
    {
        Slots {
            app_init: self.app_init.is_some(),
            app_final: self.app_final.is_some(),
            ext_init: self.ext_init.is_some(),
            ext_final: self.ext_final.is_some(),
            on_update: self.on_update.is_some(),
            on_event: self.on_event.is_some(),
        }
    }

    /// Trampoline for the app-level init slot: forwards to the user handler
    /// when one is set, else reports the slot's default result (success).
    pub fn app_init_tramp(&self, params: AppParams) -> (code: i32)
        requires
            self.app_init matches Some(f) ==> call_requires(f, (params,)),
        ensures
            self.app_init is None ==> code == 0,
            self.app_init matches Some(f) ==> exists|res: ExtResult|
                #[trigger] call_ensures(f, (params,), res) && code == result_code(res),
    {
        match &self.app_init {
            Some(f) => f(params).to_host(),
            None => 0,
        }
    }

    /// Trampoline for the app-level final slot: forwards to the user handler
    /// when one is set, else reports the slot's default result (success).
    pub fn app_final_tramp(&self, params: AppParams) -> (code: i32)
        requires
            self.app_final matches Some(f) ==> call_requires(f, (params,)),
        ensures
            self.app_final is None ==> code == 0,
            self.app_final matches Some(f) ==> exists|res: ExtResult|
                #[trigger] call_ensures(f, (params,), res) && code == result_code(res),
    {
        match &self.app_final {
            Some(f) => f(params).to_host(),
            None => 0,
        }
    }

    /// Trampoline for the extension init slot: forwards to the user handler
    /// when one is set, else reports the slot's default result (success).
    pub fn ext_init_tramp(&self, params: Params) -> (code: i32)
        requires
            self.ext_init matches Some(f) ==> call_requires(f, (params,)),
        ensures
            self.ext_init is None ==> code == 0,
            self.ext_init matches Some(f) ==> exists|res: ExtResult|
                #[trigger] call_ensures(f, (params,), res) && code == result_code(res),
    {
        match &self.ext_init {
            Some(f) => f(params).to_host(),
            None => 0,
        }
    }

    /// Trampoline for the extension final slot: forwards to the user handler
    /// when one is set, else reports the slot's default result (success).
    pub fn ext_final_tramp(&self, params: Params) -> (code: i32)
        requires
            self.ext_final matches Some(f) ==> call_requires(f, (params,)),
        ensures
            self.ext_final is None ==> code == 0,
            self.ext_final matches Some(f) ==> exists|res: ExtResult|
                #[trigger] call_ensures(f, (params,), res) && code == result_code(res),
    {
        match &self.ext_final {
            Some(f) => f(params).to_host(),
            None => 0,
        }
    }

    /// Trampoline for the per-frame update slot: forwards to the user handler
    /// when one is set, else reports the slot's default result (success).
    pub fn on_update_tramp(&self, params: Params) -> (code: i32)
        requires
            self.on_update matches Some(f) ==> call_requires(f, (params,)),
        ensures
            self.on_update is None ==> code == 0,
            self.on_update matches Some(f) ==> exists|res: ExtResult|
                #[trigger] call_ensures(f, (params,), res) && code == result_code(res),
    {
        match &self.on_update {
            Some(f) => f(params).to_host(),
            None => 0,
        }
    }

    /// Trampoline for the event slot: decodes the host's raw event code into
    /// the closed [`Event`] enumeration, then hands the decoded event to the
    /// user handler when one is set; with no handler set it is a no-op.
    pub fn on_event_tramp(&self, params: Params, code: u32)
        requires
            self.on_event matches Some(f) ==> call_requires(f, (params, event_from_code(code))),
        ensures
            self.on_event matches Some(f) ==> call_ensures(
                f,
                (params, event_from_code(code)),
                (),
            ),
    {
        match &self.on_event {
            Some(f) => {
                let event = Event::from_code(code);
                f(params, event);
            },
            None => {},
        }
    }
}

/// Registers one extension with the host: hands it the name, the descriptor
/// block, and the six always-present trampolines of the bundle. Runs once at
/// load time, before the host dispatches anything; a name that embeds a null
/// byte cannot be represented in the host's string encoding, and registering
/// a name twice corrupts the host table, so both are ruled out up front.
/// Exactly one descriptor entry is produced.
pub fn register<AI, AF, EI, EF, UP, EV>(
    reg: &mut crate::registry::Registry,
    name: &str,
    desc: &mut Desc,
    callbacks: &Callbacks<AI, AF, EI, EF, UP, EV>,
) where
    AI: Fn(AppParams) -> ExtResult,
    AF: Fn(AppParams) -> ExtResult,
    EI: Fn(Params) -> ExtResult,
    EF: Fn(Params) -> ExtResult,
    UP: Fn(Params) -> ExtResult,
    EV: Fn(Params, Event),

    requires
        crate::registry::nul_free(name.spec_bytes()),
        !old(reg).spec_has_name(name@),
        old(reg).wf(),
    ensures
        final(reg).wf(),
        final(reg).entries@.len() == old(reg).entries@.len() + 1,
        final(reg).entries@.subrange(0, old(reg).entries@.len() as int) == old(reg).entries@,
        final(reg).entries@.last().name@ == name@,
        final(reg).entries@.last().kind == crate::registry::RegKind::Extension(
            callbacks.spec_slots(),
        ),
        final(reg).entries@.last().desc_size == DESC_BUFFER_SIZE,
{
    let slots = callbacks.slots();
    reg.push_entry(name, crate::registry::RegKind::Extension(slots), DESC_BUFFER_SIZE);
}

} // verus!
