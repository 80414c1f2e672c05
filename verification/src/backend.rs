//! The inference backend of a node: an HTTP proxy to an inference server
//! process, or a LiteRT-LM engine.

use vstd::prelude::*;
use crate::inference::InferenceProxy;
use crate::litert::LiteRtEngine;

verus! {

/// Unified backend for inference.
#[derive(Debug)]
pub enum Backend {
    /// HTTP proxy to llama-server, mnn_llm or mesh-llm.
    Http(InferenceProxy),
    /// LiteRT-LM subprocess bridge.
    LiteRt(LiteRtEngine),
}

impl Backend {
    /// The model the backend serves.
    pub open spec fn spec_model_id(&self) -> Seq<char> {
        match self {
            Backend::Http(p) => p.spec_model_id(),
            Backend::LiteRt(e) => e.spec_model_id(),
        }
    }

    /// The models this backend serves, as reported to the network.
    pub fn loaded_models(&self) -> (r: Vec<String>)
        ensures
            r@.len() == 1,
            r@[0]@ == self.spec_model_id(),
    {
        match self {
            Backend::Http(proxy) => proxy.loaded_models(),
            Backend::LiteRt(engine) => engine.loaded_models(),
        }
    }
}

} // verus!
