//! Registration and dispatch behavior of the bridge.

use std::cell::Cell;

use dmsdk::config_extension;
use dmsdk::dmconfigfile;
use dmsdk::dmconfigfile::PluginCallbacks;
use dmsdk::dmconfigfile::PluginSlots;
use dmsdk::dmextension;
use dmsdk::dmextension::AppParams;
use dmsdk::dmextension::Callbacks;
use dmsdk::dmextension::Event;
use dmsdk::dmextension::ExtResult;
use dmsdk::dmextension::Params;
use dmsdk::dmextension::Slots;
use dmsdk::lua::State;
use dmsdk::registry::RegKind;
use dmsdk::registry::Registry;

type NoAppHandler = fn(AppParams) -> ExtResult;
type NoExtHandler = fn(Params) -> ExtResult;
type NoEventHandler = fn(Params, Event);
type NoLifecycle = fn(u64);
type NoStringGetter = fn(u64, String, String) -> Option<String>;
type NoIntGetter = fn(u64, String, i32) -> Option<i32>;

fn params() -> Params {
    Params {
        config: 7,
        l: State::new(1),
    }
}

#[test]
fn result_round_trip() {
    assert_eq!(ExtResult::Success.to_host(), 0);
    assert_eq!(ExtResult::InitError.to_host(), -1);
    assert_eq!(ExtResult::from_host(ExtResult::Success.to_host()), ExtResult::Success);
    assert_eq!(
        ExtResult::from_host(ExtResult::InitError.to_host()),
        ExtResult::InitError
    );
}

#[test]
fn event_decoder_known_codes() {
    assert_eq!(Event::from_code(0), Event::ActivateApp);
    assert_eq!(Event::from_code(1), Event::DeactivateApp);
    assert_eq!(Event::from_code(2), Event::IconifyApp);
    assert_eq!(Event::from_code(3), Event::DeiconifyApp);
}

#[test]
fn event_decoder_unknown_codes() {
    assert_eq!(Event::from_code(4), Event::Unknown);
    assert_eq!(Event::from_code(42), Event::Unknown);
    assert_eq!(Event::from_code(u32::MAX), Event::Unknown);
}

#[test]
fn unset_slots_return_defaults() {
    let cb = Callbacks::new(
        None::<NoAppHandler>,
        None::<NoAppHandler>,
        None::<NoExtHandler>,
        None::<NoExtHandler>,
        None::<NoExtHandler>,
        None::<NoEventHandler>,
    );
    let ap = AppParams { config: 7 };
    assert_eq!(cb.app_init_tramp(ap), 0);
    assert_eq!(cb.app_final_tramp(ap), 0);
    assert_eq!(cb.ext_init_tramp(params()), 0);
    assert_eq!(cb.ext_final_tramp(params()), 0);
    assert_eq!(cb.on_update_tramp(params()), 0);
    cb.on_event_tramp(params(), 2);
    let slots = cb.slots();
    assert_eq!(
        slots,
        Slots {
            app_init: false,
            app_final: false,
            ext_init: false,
            ext_final: false,
            on_update: false,
            on_event: false,
        }
    );
}

#[test]
fn set_slots_forward_handler_results() {
    let seen_event = Cell::new(Event::Unknown);
    let cb = Callbacks::new(
        Some(|_p: AppParams| ExtResult::Success),
        Some(|_p: AppParams| ExtResult::InitError),
        Some(|_p: Params| ExtResult::InitError),
        Some(|_p: Params| ExtResult::Success),
        Some(|_p: Params| ExtResult::InitError),
        Some(|_p: Params, e: Event| seen_event.set(e)),
    );
    let ap = AppParams { config: 7 };
    assert_eq!(cb.app_init_tramp(ap), 0);
    assert_eq!(cb.app_final_tramp(ap), -1);
    assert_eq!(cb.ext_init_tramp(params()), -1);
    assert_eq!(cb.ext_final_tramp(params()), 0);
    assert_eq!(cb.on_update_tramp(params()), -1);
    cb.on_event_tramp(params(), 3);
    assert_eq!(seen_event.get(), Event::DeiconifyApp);
    cb.on_event_tramp(params(), 9);
    assert_eq!(seen_event.get(), Event::Unknown);
}

#[test]
fn register_extension_adds_one_entry() {
    let mut reg = Registry::new();
    let mut desc = [0u8; dmsdk::dmextension::DESC_BUFFER_SIZE];
    let cb = Callbacks::new(
        None::<NoAppHandler>,
        None::<NoAppHandler>,
        None::<NoExtHandler>,
        None::<NoExtHandler>,
        None::<NoExtHandler>,
        None::<NoEventHandler>,
    );
    assert_eq!(reg.len(), 0);
    assert!(!reg.has_name("RUST"));
    dmextension::register(&mut reg, "RUST", &mut desc, &cb);
    assert_eq!(reg.len(), 1);
    assert!(reg.has_name("RUST"));
    assert_eq!(reg.entries[0].name, "RUST");
    assert_eq!(reg.entries[0].desc_size, dmsdk::dmextension::DESC_BUFFER_SIZE);

    let mut desc2 = [0u8; dmsdk::dmextension::DESC_BUFFER_SIZE];
    dmextension::register(&mut reg, "OTHER", &mut desc2, &cb);
    assert_eq!(reg.len(), 2);
    assert_eq!(reg.entries[1].name, "OTHER");
}

#[test]
fn register_rust_with_only_ext_init() {
    let mut reg = Registry::new();
    let mut desc = [0u8; dmsdk::dmextension::DESC_BUFFER_SIZE];
    let cb = Callbacks::new(
        None::<NoAppHandler>,
        None::<NoAppHandler>,
        Some(|_p: Params| ExtResult::InitError),
        None::<NoExtHandler>,
        None::<NoExtHandler>,
        None::<NoEventHandler>,
    );
    dmextension::register(&mut reg, "RUST", &mut desc, &cb);
    assert_eq!(reg.len(), 1);
    assert_eq!(
        reg.entries[0].kind,
        RegKind::Extension(Slots {
            app_init: false,
            app_final: false,
            ext_init: true,
            ext_final: false,
            on_update: false,
            on_event: false,
        })
    );
    // Every trampoline is present and callable; the unset slots answer with
    // their default result while ext_init forwards the handler's result.
    let ap = AppParams { config: 7 };
    assert_eq!(cb.app_init_tramp(ap), 0);
    assert_eq!(cb.app_final_tramp(ap), 0);
    assert_eq!(cb.ext_init_tramp(params()), -1);
    assert_eq!(cb.ext_final_tramp(params()), 0);
    assert_eq!(cb.on_update_tramp(params()), 0);
    cb.on_event_tramp(params(), 0);
}

#[test]
fn getter_trampoline_passes_decoded_key_through() {
    let cb = PluginCallbacks::new(
        None::<NoLifecycle>,
        None::<NoLifecycle>,
        Some(|_c: u64, key: String, _d: String| Some(key)),
        None::<NoIntGetter>,
    );
    let r = cb.get_string_tramp(7, "naïve.key".as_bytes(), "fallback".as_bytes());
    assert_eq!(r, Some("naïve.key".to_string()));
}

#[test]
fn getter_trampoline_rejects_invalid_key_bytes() {
    let cb = PluginCallbacks::new(
        None::<NoLifecycle>,
        None::<NoLifecycle>,
        Some(|_c: u64, _key: String, _d: String| Some("always".to_string())),
        Some(|_c: u64, _key: String, d: i32| Some(d + 1)),
    );
    // 0xff can begin no UTF-8 sequence; 0xc0 0xaf is an overlong encoding.
    assert_eq!(cb.get_string_tramp(7, &[0xff, 0xfe], b"ok"), None);
    assert_eq!(cb.get_string_tramp(7, &[0xc0, 0xaf], b"ok"), None);
    assert_eq!(cb.get_string_tramp(7, b"ok", &[0xff]), None);
    assert_eq!(cb.get_int_tramp(7, &[0xff, 0xfe], 9), None);
    assert_eq!(cb.get_int_tramp(7, b"ok", 9), Some(10));
}

#[test]
fn getter_trampoline_unset_slots_not_handled() {
    let cb = PluginCallbacks::new(
        None::<NoLifecycle>,
        None::<NoLifecycle>,
        None::<NoStringGetter>,
        None::<NoIntGetter>,
    );
    assert_eq!(cb.get_string_tramp(7, b"any.key", b"dflt"), None);
    assert_eq!(cb.get_int_tramp(7, b"any.key", 640), None);
    let slots = cb.slots();
    assert_eq!(
        slots,
        PluginSlots {
            create: false,
            destroy: false,
            get_string: false,
            get_int: false,
        }
    );
}

#[test]
fn lifecycle_trampolines_forward_when_set() {
    let created = Cell::new(0u64);
    let cb = PluginCallbacks::new(
        Some(|c: u64| created.set(c)),
        None::<NoLifecycle>,
        None::<NoStringGetter>,
        None::<NoIntGetter>,
    );
    cb.create_tramp(41);
    assert_eq!(created.get(), 41);
    cb.destroy_tramp(41);
}

#[test]
fn config_getter_answers_only_its_key() {
    let cb = PluginCallbacks::new(
        Some(config_extension::create as fn(u64)),
        Some(config_extension::destroy as fn(u64)),
        Some(config_extension::get_string as fn(u64, String, String) -> Option<String>),
        None::<NoIntGetter>,
    );
    assert_eq!(
        cb.get_string_tramp(7, b"my_section.my_value", b"dflt"),
        Some("It works!".to_string())
    );
    assert_eq!(cb.get_string_tramp(7, b"my_section.other", b"dflt"), None);
    assert_eq!(cb.get_string_tramp(7, b"MY_SECTION.MY_VALUE", b"dflt"), None);
    // The same text under a broken encoding is not the same key: it is not
    // handled at all.
    assert_eq!(cb.get_string_tramp(7, &[0xc0, 0xaf], b"dflt"), None);
    assert_eq!(cb.get_string_tramp(7, b"", b"dflt"), None);
}

#[test]
fn register_config_plugin_records_slots() {
    let mut reg = Registry::new();
    let mut desc = [0u8; dmsdk::dmconfigfile::DESC_BUFFER_SIZE];
    let cb = PluginCallbacks::new(
        Some(config_extension::create as fn(u64)),
        Some(config_extension::destroy as fn(u64)),
        Some(config_extension::get_string as fn(u64, String, String) -> Option<String>),
        None::<NoIntGetter>,
    );
    dmconfigfile::register(&mut reg, &mut desc, "RUST_CONFIG", &cb);
    assert_eq!(reg.len(), 1);
    assert_eq!(reg.entries[0].name, "RUST_CONFIG");
    assert_eq!(reg.entries[0].desc_size, dmsdk::dmconfigfile::DESC_BUFFER_SIZE);
    assert_eq!(
        reg.entries[0].kind,
        RegKind::ConfigPlugin(PluginSlots {
            create: true,
            destroy: true,
            get_string: true,
            get_int: false,
        })
    );
}

#[test]
fn nul_byte_detection() {
    assert!(!dmsdk::registry::has_nul_byte("RUST"));
    assert!(!dmsdk::registry::has_nul_byte(""));
    assert!(dmsdk::registry::has_nul_byte("RU\0ST"));
    assert!(dmsdk::registry::has_nul_byte("\0"));
    assert!(!dmsdk::registry::has_nul_byte("naïve"));
}

#[test]
fn registry_mixes_registration_kinds() {
    let mut reg = Registry::new();
    let mut ext_desc = [0u8; dmsdk::dmextension::DESC_BUFFER_SIZE];
    let cb = Callbacks::new(
        None::<NoAppHandler>,
        None::<NoAppHandler>,
        None::<NoExtHandler>,
        None::<NoExtHandler>,
        None::<NoExtHandler>,
        None::<NoEventHandler>,
    );
    dmextension::register(&mut reg, "RUST", &mut ext_desc, &cb);
    let mut comp_desc = [0u8; dmsdk::dmgameobject::DESC_BUFFER_SIZE];
    dmsdk::dmgameobject::register_component_type(&mut reg, "COMP", &mut comp_desc);
    let mut res_desc = [0u8; dmsdk::dmresource::DESC_BUFFER_SIZE];
    dmsdk::dmresource::register_type_creator(&mut reg, &mut res_desc, "RUSTC");
    assert_eq!(reg.len(), 3);
    assert_eq!(reg.entries[1].kind, RegKind::ComponentType);
    assert_eq!(reg.entries[2].kind, RegKind::ResourceType);
    assert!(reg.has_name("RUSTC"));
    assert!(!reg.has_name("smthc"));
}
