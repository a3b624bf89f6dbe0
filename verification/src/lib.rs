//! Job dispatch between a coordinator and the remote runners that execute
//! submitted experiment code.
//!
//! The crate holds the decisions of that system: the status machine of a job,
//! the wire format of the two protocol messages, the runner credential codec,
//! the coordinator's registry of live sessions and the runner's reconnect
//! schedule. Sockets, timers and storage stay with the caller, which feeds
//! events in and performs the actions that come back.

pub mod connection;
pub mod errors;
pub mod frame;
pub mod handlers;
pub mod json;
pub mod models;
pub mod protocol;
pub mod registry;
pub mod session;
pub mod status;
pub mod token;
