//! RMBT measurement server: the protocol, token and configuration logic.

pub mod clock;
pub mod config;
pub mod crypto;
pub mod event_laws;
pub mod events;
pub mod json;
pub mod net;
pub mod number;
pub mod protocol;
pub mod server;
pub mod stream;
pub mod text;
pub mod text_laws;
pub mod tls;
pub mod version;
pub mod view_laws;
