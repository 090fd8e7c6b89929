//! The client's side of a session with the hegel server.

pub mod cbor;
pub mod event;
pub mod failure;
pub mod handshake;
pub mod request;
pub mod run;
pub mod session;
pub mod settings;
pub mod text;
pub mod trace;
pub mod version;
