//! The configuration of the text-generation client.  The network call
//! itself lives outside the library; the surrounding program builds its
//! transport from the key held here and hands completions back to the
//! state machine as plain text.

use vstd::prelude::*;

verus! {

/// The text-generation service client: holds the API key the transport
/// is built from.
#[derive(Clone, Debug)]
pub struct OpenAiClient {
    pub api_key: String,
}

impl OpenAiClient {
    /// Wraps an API key.
    pub fn new(api_key: String) -> (c: OpenAiClient)
        ensures
            c.api_key == api_key,
    {
        OpenAiClient { api_key }
    }
}

} // verus!
