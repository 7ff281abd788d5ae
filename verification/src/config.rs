//! Configuration resolution and the library's error type.
//!
//! The caller reads the process environment and hands the raw values in
//! as plain `Option`s; the functions here decide what they mean.

use vstd::prelude::*;
use vstd::string::StrSliceExecFns;
use vstd::string::StringSliceAdditionalSpecFns;

verus! {

/// The errors the library itself can produce.
///
/// Transport failures (the network layer) and line-reading failures are
/// raised by the unverified shell around the library and never originate
/// here.
#[derive(Debug, PartialEq, Eq)]
pub enum ChatError {
    /// The API-key environment variable was unset.
    MissingApiKey,
    /// Neither a model flag nor the model environment variable was given.
    MissingModel,
    /// The endpoint answered with a non-success status; carries the raw
    /// response body text.
    Upstream(Vec<u8>),
    /// The endpoint answered with a success status but a body that does
    /// not parse as JSON.
    MalformedReply,
}

impl ChatError {
    /// The message printed for this error, as UTF-8 bytes.
    pub open spec fn spec_text(&self) -> Seq<u8> {
        match self {
            ChatError::MissingApiKey => "Please set the OPENAI_API_KEY environment variable".spec_bytes(),
            ChatError::MissingModel => "Neither --model parameter nor MODEL_NAME environment variable is set.".spec_bytes(),
            ChatError::Upstream(body) => "Error: ".spec_bytes() + body@,
            ChatError::MalformedReply => "Error: response body is not valid JSON".spec_bytes(),
        }
    }

    /// Render the error message.
    pub fn text(&self) -> (r: Vec<u8>)
        ensures
            r@ == self.spec_text(),
    {
        match self {
            ChatError::MissingApiKey => {
                "Please set the OPENAI_API_KEY environment variable".as_bytes_vec()
            },
            ChatError::MissingModel => {
                "Neither --model parameter nor MODEL_NAME environment variable is set.".as_bytes_vec()
            },
            ChatError::Upstream(body) => {
                let mut r = "Error: ".as_bytes_vec();
                r.extend_from_slice(body.as_slice());
                r
            },
            ChatError::MalformedReply => {
                "Error: response body is not valid JSON".as_bytes_vec()
            },
        }
    }
}

/// The base URL used when the environment configures none.
pub open spec fn default_base_url() -> Seq<u8> {
    "https://api.openai.com/v1".spec_bytes()
}

/// The path of the chat-completion endpoint under the base URL.
pub open spec fn completions_path() -> Seq<u8> {
    "/chat/completions".spec_bytes()
}

/// The URL a chat-completion request is posted to: the configured base
/// if one was given, else the default, with the endpoint path appended.
pub fn chat_completions_url(base_url: Option<Vec<u8>>) -> (r: Vec<u8>)
    ensures
        base_url matches Some(b) ==> r@ == b@ + completions_path(),
        base_url is None ==> r@ == default_base_url() + completions_path(),
{
    let mut u = match base_url {
        Some(b) => b,
        None => "https://api.openai.com/v1".as_bytes_vec(),
    };
    u.extend_from_slice("/chat/completions".as_bytes());
    u
}

/// Succeeds exactly when the API-key environment variable had a value.
/// The caller passes that value in; its content is not inspected.
pub fn check_openai_api_key(key: Option<Vec<u8>>) -> (r: Result<(), ChatError>)
    ensures
        r is Ok <==> key is Some,
        r is Err ==> r == Result::<(), ChatError>::Err(ChatError::MissingApiKey),
{
    match key {
        Some(_) => Ok(()),
        None => Err(ChatError::MissingApiKey),
    }
}

/// Resolve the effective model name: a present flag wins verbatim, else
/// the environment fallback, else a missing-configuration error.
pub fn model_selector(model_param: Option<Vec<u8>>, env_model: Option<Vec<u8>>) -> (r: Result<
    Vec<u8>,
    ChatError,
>)
    ensures
        model_param matches Some(m) ==> r matches Ok(out) && out@ == m@,
        model_param is None ==> (env_model matches Some(m) ==> r matches Ok(out) && out@ == m@),
        model_param is None && env_model is None ==> r == Result::<Vec<u8>, ChatError>::Err(
            ChatError::MissingModel,
        ),
{
    match model_param {
        Some(m) => Ok(m),
        None => match env_model {
            Some(m) => Ok(m),
            None => Err(ChatError::MissingModel),
        },
    }
}

} // verus!
