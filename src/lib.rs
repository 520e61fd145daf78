//! A real-time text relay: the binary packet codec, the server-side session
//! registry and session state machine, and the client-side link state.

pub mod client;
pub mod codec;
pub mod command;
pub mod registry;
pub mod session;
pub mod text;
pub mod transport;
