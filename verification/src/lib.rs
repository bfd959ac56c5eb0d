//! Client-side management layer over a hypervisor control API.
//!
//! The library wraps opaque handles to remote, hypervisor-owned objects
//! (connections, guest machines, network interfaces, secrets, storage pools
//! and volumes, data streams) and enforces the rules that govern them: every
//! wrapped handle is released exactly once, every fallible operation surfaces
//! a fully owned snapshot of the failure reported by the remote side, every
//! remote-allocated buffer is either freed exactly once or deliberately left
//! to the remote object, and at most one process-wide error callback is
//! installed at a time.
//!
//! The native control daemon itself is reached through the [`remote::Remote`]
//! trait: an adapter outside this library performs the actual foreign calls,
//! while [`script::ScriptedRemote`] is an in-memory stand-in that replays
//! prepared outcomes and records every call it receives.

pub mod error;

pub mod connect;
pub mod domain;
pub mod interface;
pub mod marshal;
pub mod ops;
pub mod remote;
pub mod script;
pub mod secret;
pub mod storage_pool;
pub mod storage_vol;
pub mod stream;
