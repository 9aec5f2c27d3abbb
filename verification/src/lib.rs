//! Pseudo-terminal runtime: the broker protocol, the session engine and the
//! adapters around it, as state machines and codecs with proved contracts.
pub mod accounting;
pub mod adapter;
pub mod adapter_laws;
pub mod broker;
pub mod broker_laws;
pub mod buffer;
pub mod c_api;
pub mod c_snapshot;
pub mod c_spawn;
pub mod candidate;
pub mod channel;
pub mod cleanup;
pub mod client;
pub mod command_line;
pub mod control;
pub mod controller;
pub mod engine_event;
pub mod engine_laws;
pub mod engine_session;
pub mod error;
pub mod facade;
pub mod facade_laws;
pub mod fault;
pub mod frame;
pub mod handle;
pub mod notice;
pub mod oneshot;
pub mod options;
pub mod posix;
pub mod pump;
pub mod pump_table;
pub mod reactor;
pub mod reaper;
pub mod registry;
pub mod runtime;
pub mod runtime_laws;
pub mod session;
pub mod spawn;
pub mod spawn_laws;
pub mod spawn_payload;
pub mod text;
pub mod transfer;
pub mod wide_text;
pub mod windows_budget;
pub mod windows_desk;
pub mod windows_laws;
pub mod windows_reactor;
pub mod windows_runtime;
pub mod windows_session;
pub mod windows_spawn;
pub mod wire;
pub mod wire_laws;
