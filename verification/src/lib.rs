pub mod config;
pub mod engine;
pub mod error;
pub mod ident;
pub mod json;
pub mod payload;
pub mod peer;
pub mod pool;
pub mod registry;
pub mod room;
pub mod room_laws;
pub mod server;
pub mod server_laws;
pub mod signaling;
pub mod text;

pub use crate::config::Config;
pub use crate::error::MediaSoupError;
pub use crate::server::MediaSoupServer;
pub use crate::signaling::SignalingMessage;
