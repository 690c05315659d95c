//! The chat-completion transport's verifiable half: construction-time
//! credential checks, per-call options, and the reading of a provider
//! response.
//!
//! The single network round trip itself is I/O and lives outside this
//! library; it receives the message sequence verbatim and hands back the
//! candidate completions, which [`first_choice`] reduces to one string.

use vstd::prelude::*;

verus! {

/// Sampling temperature handed to the provider, in thousandths.
pub const CHAT_TEMPERATURE_MILLI: u32 = 700;

/// Cap on the provider's output tokens for one call.
pub const CHAT_MAX_TOKENS: u32 = 1024;

/// Why the chat client cannot be constructed; the feature stays disabled
/// for the process lifetime and callers degrade gracefully.
#[derive(Clone, Copy, PartialEq, Eq, Structural, Debug)]
pub enum CredentialError {
    /// No provider credential was configured.
    Missing,
    /// The configured credential is the unedited placeholder.
    Placeholder,
}

/// One failed chat-completion exchange.
#[derive(Clone, PartialEq, Eq, Debug)]
pub enum ChatError {
    /// The request never completed: connection failure or timeout.
    Transport(String),
    /// The provider answered with a non-success status.
    Upstream { status: u16, body: String },
    /// The provider's success response could not be read.
    Decode(String),
    /// A well-formed success response carrying no completion choices.
    EmptyResponse,
}

/// The model used when the configuration names none.
pub open spec fn spec_default_model() -> Seq<char> {
    "llama-3.3-70b-versatile"@
}

/// The unedited sample credential that ships with the configuration
/// template; it is rejected as if no credential were set.
pub open spec fn spec_placeholder_key() -> Seq<char> {
    "your_groq_api_key_here"@
}

/// The per-process chat client configuration: the provider credential and
/// the model name. Both are fixed at construction; the credential is never
/// logged or persisted.
pub struct GroqClient {
    pub api_key: String,
    pub model: String,
}

impl GroqClient {
    /// Construct the client from the configured credential and model name.
    /// A missing or placeholder credential is a construction-time failure
    /// that disables the chat feature entirely; an absent model name falls
    /// back to the default model.
    pub fn new(api_key: Option<String>, model: Option<String>) -> (r: Result<
        GroqClient,
        CredentialError,
    >)
        ensures
            match api_key {
                None => r matches Err(CredentialError::Missing),
                Some(k) => if k@ == spec_placeholder_key() {
                    r matches Err(CredentialError::Placeholder)
                } else {
                    r matches Ok(c) && c.api_key == k && c.model@ == (match model {
                        Some(m) => m@,
                        None => spec_default_model(),
                    })
                },
            },
    {
        let key = match api_key {
            None => {
                return Err(CredentialError::Missing);
            },
            Some(k) => k,
        };
        let placeholder = "your_groq_api_key_here".to_owned();
        if key == placeholder {
            return Err(CredentialError::Placeholder);
        }
        let model = match model {
            Some(m) => m,
            None => "llama-3.3-70b-versatile".to_owned(),
        };
        Ok(GroqClient { api_key: key, model })
    }
}

/// Classify the provider's HTTP outcome: a success status passes, any
/// other carries the status code and response body as the upstream error.
pub fn classify_upstream(status: u16, body: String) -> (r: Result<(), ChatError>)
    ensures
        200 <= status < 300 ==> r is Ok,
        !(200 <= status < 300) ==> (r matches Err(e) && e == (ChatError::Upstream {
            status,
            body,
        })),
{
    if 200 <= status && status < 300 {
        Ok(())
    } else {
        Err(ChatError::Upstream { status, body })
    }
}

/// Read a provider response's candidate completions: the first candidate
/// is the exchange's result, and a success response without candidates is
/// the empty-response error.
pub fn first_choice(choices: Vec<String>) -> (r: Result<String, ChatError>)
    ensures
        choices@.len() == 0 ==> r matches Err(ChatError::EmptyResponse),
        choices@.len() > 0 ==> (r matches Ok(s) && s == choices@[0]),
{
    let mut choices = choices;
    if choices.len() == 0 {
        return Err(ChatError::EmptyResponse);
    }
    let first = choices.remove(0);
    Ok(first)
}

} // verus!
