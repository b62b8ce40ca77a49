//! A runtime that executes an untrusted WebAssembly module once per request and
//! returns a response whose size is fixed by the server policy.
//!
//! The crate holds the host side of the guest interface, the lookup data
//! snapshots, the channel fabric and the response shaper. Timers, transport and
//! configuration files are left to the embedding program.
//!
//! - `abi`: the status codes and handles that cross the guest boundary.
//! - `policy`: the server policy, responses and their shaping.
//! - `lookup`, `entries`: lookup data snapshots, their manager, and entries as
//!   bytes.
//! - `channel`: bounded bidirectional channels and the switchboard.
//! - `extension`, `logging`, `logger`: the extension interfaces, the workload
//!   logging extension and the logging interface.
//! - `state`: what the host keeps for one request.
//! - `guest`, `engine`: what is believed of the WebAssembly engine.
//! - `host`: the host functions that a guest calls.
//! - `wasm`: the instance that serves a request and the request handler.
//! - `config`: command line options and the source of the lookup data.
//! - `text`, `endian`: rendering of bytes for log lines, and numbers as bytes.

pub mod abi;
pub mod channel;
pub mod config;
pub mod endian;
pub mod engine;
pub mod entries;
pub mod extension;
pub mod guest;
pub mod host;
pub mod logger;
pub mod logging;
pub mod lookup;
pub mod policy;
pub mod state;
pub mod text;
pub mod wasm;
