//! Output half of an audio player: the control plane that turns transport
//! commands into session lifecycle steps, and the decisions the streaming
//! session takes while it feeds PCM to the audio server.

pub mod cstr;
pub mod devices;
pub mod format;
pub mod host;
pub mod message;
pub mod plugin;
pub mod props;
pub mod protocol;
pub mod pull;
pub mod session;
pub mod text;
pub mod volume;
