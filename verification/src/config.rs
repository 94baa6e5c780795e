//! What the process is configured with: the provider's credential, the model,
//! the bound on the answer's length, and the port that the server listens on.

use vstd::prelude::*;
use crate::chat::{ChatRequest, CompletionOptions};

verus! {

/// The port that the server listens on, on every interface.
pub const LISTEN_PORT: u16 = 8000;

/// The most tokens that an answer may have, unless configured otherwise.
pub const MAX_OUTPUT_TOKENS: u16 = 512;

/// The model that answers, unless configured otherwise.
pub open spec fn default_model() -> Seq<char> {
    "gpt-4-1106-preview"@
}

/// The question that the demonstration turn asks at startup.
pub open spec fn startup_prompt() -> Seq<char> {
    "how are you?"@
}

/// The configuration of one process.
#[derive(Clone, Debug, PartialEq, Eq)]
pub struct ProcessConfig {
    /// The credential for the completion provider. Empty until one is set.
    pub api_key: String,
    pub model: String,
    pub max_tokens: u16,
    pub port: u16,
    /// Whether the process runs the demonstration turn before it serves.
    pub demo_at_startup: bool,
}

impl ProcessConfig {
    /// The configuration that a process starts with: no credential, the
    /// default model, bound and port, and no demonstration turn.
    pub fn new() -> (config: ProcessConfig)
        ensures
            config.api_key@ == Seq::<char>::empty(),
            config.model@ == default_model(),
            config.max_tokens == MAX_OUTPUT_TOKENS,
            config.port == LISTEN_PORT,
            !config.demo_at_startup,
    {
        ProcessConfig {
            api_key: String::new(),
            model: "gpt-4-1106-preview".to_owned(),
            max_tokens: MAX_OUTPUT_TOKENS,
            port: LISTEN_PORT,
            demo_at_startup: false,
        }
    }

    /// The request that asks the configured model for an answer to `prompt`,
    /// no longer than the configured bound.
    pub fn chat_request(&self, prompt: &str) -> (request: ChatRequest)
        ensures
            request.options.model@ == self.model@,
            request.options.max_tokens == self.max_tokens,
            request.prompt@ == prompt@,
    {
        ChatRequest {
            options: CompletionOptions { model: self.model.clone(), max_tokens: self.max_tokens },
            prompt: prompt.to_owned(),
        }
    }

    /// The request of the demonstration turn.
    pub fn startup_request(&self) -> (request: ChatRequest)
        ensures
            request.options.model@ == self.model@,
            request.options.max_tokens == self.max_tokens,
            request.prompt@ == startup_prompt(),
    {
        self.chat_request("how are you?")
    }

    /// The turn to run before serving: the request of the demonstration turn
    /// where the configuration asks for one, nothing where it does not.
    pub fn startup_turn(&self) -> (turn: Option<ChatRequest>)
        ensures
            turn is Some <==> self.demo_at_startup,
            turn matches Some(request) ==> {
                &&& request.options.model@ == self.model@
                &&& request.options.max_tokens == self.max_tokens
                &&& request.prompt@ == startup_prompt()
            },
    {
        if self.demo_at_startup {
            Some(self.startup_request())
        } else {
            None
        }
    }
}

} // verus!
