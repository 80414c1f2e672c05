//! Verified core of a TealeNet supply-node agent: protocol message
//! classification, payload encoding, configuration checks, hardware
//! classification, prompt and command construction for inference backends.

pub mod text;
pub mod encoding;
pub mod identity;
pub mod config;
pub mod hardware;
pub mod cluster;
pub mod relay;
pub mod litert;
pub mod inference;
pub mod backend;
