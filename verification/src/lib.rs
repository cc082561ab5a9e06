//! A verified model of a game engine's native-extension bridge: the
//! registration and callback-dispatch protocol by which user-supplied handler
//! functions are wrapped into always-present trampolines, registered with the
//! host process under a named descriptor, and driven by the host through a raw
//! integer/byte-string calling convention.

pub mod config_extension;
pub mod custom_component;
pub mod dmconfigfile;
pub mod dmextension;
pub mod dmgameobject;
pub mod dmhid;
pub mod dmjson;
pub mod dmlog;
pub mod dmresource;
pub mod lua;
pub mod registry;
pub mod sample;
