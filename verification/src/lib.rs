//! Dispatch core of an RPC server.
//!
//! A server keeps a registry of handlers, each filed under the key
//! `"{service_path}.{service_method}"`. Every accepted connection runs a small
//! state machine: a decoded request is resolved against the registry and
//! either handed to a worker together with its handler, or answered at once
//! with a "not found" reply; a frame that cannot be decoded ends the
//! connection. Sockets, threads and the accept loop belong to the caller,
//! which feeds the events in and carries the returned actions out.

pub mod adapter;
pub mod dispatch;
pub mod envelope;
pub mod error;
pub mod invoke;
pub mod key;
pub mod plugin;
pub mod protocol;
pub mod registry;
pub mod server;

pub use adapter::{call_typed, Param};
pub use dispatch::{not_found_message, not_found_reply, Action, ConnState, Connection, Event};
pub use envelope::{Envelope, SerializeFormat};
pub use error::{ErrorKind, ServerError};
pub use invoke::{complete_reply, invoke_fn};
pub use key::make_service_key;
pub use plugin::{ConnectPlugin, RegisterPlugin};
pub use registry::Registry;
pub use server::{
    worker_group_size, AcceptAction, AcceptEvent, BindOutcome, Lifecycle, Server,
};
