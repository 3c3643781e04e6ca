//! A local inference service: a short-lived client sends one prompt over a
//! Unix socket and a long-lived daemon streams generated tokens back in
//! length-prefixed frames. This library holds the protocol, the backends'
//! contract, the daemon's state and the decisions of both programs.

pub mod client;
pub mod config;
pub mod daemon;
pub mod error;
pub mod frame;
pub mod ipc;
pub mod model;
pub mod native;
pub mod state;
pub mod text;

pub use error::{Error, Result};
pub use ipc::{PromptRequest, TokenResponse, PROTOCOL_VERSION};
pub use model::ModelBackend;
