//! Rules of a local API proxy, with machine-checked contracts.

pub mod codex;
pub mod completion;
pub mod encoding;
pub mod error;
pub mod headers;
pub mod json;
pub mod laws;
pub mod message;
pub mod opencode_config;
pub mod response;
pub mod stream;
pub mod text;
pub mod upstream;
