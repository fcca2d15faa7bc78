//! Session configuration, request URLs, and the interpretation of what
//! the API answers. The HTTP transport itself stays outside the
//! library: callers hand the response status and body in as plain
//! values.

use vstd::prelude::*;
use vstd::string::StringSliceAdditionalSpecFns;

use crate::content::Context;
use crate::content::Role;
use crate::content::spec_first_text;
use crate::content::spec_message_turn;
use crate::errors::GemError;
use crate::json::parse_json;
use crate::json::spec_json_parse;
use crate::models::Models;
use crate::response::BlockReason;
use crate::response::CandidateView;
use crate::response::GenerateContentResponse;
use crate::response::ResponseView;
use crate::response::decode_error;
use crate::response::decode_response;
use crate::response::spec_decode_error;
use crate::response::spec_decode_response;

verus! {

/// Where content-generation requests go: the base, the model name, and
/// the method suffix.
pub open spec fn spec_base_url() -> Seq<char> {
    "https://generativelanguage.googleapis.com/v1beta/models/"@
}

/// The URL a batch request for `model` is posted to.
pub open spec fn spec_request_url(model: Models) -> Seq<char> {
    spec_base_url() + model.spec_name() + ":generateContent"@
}

/// The URL a streaming request for `model` is posted to.
pub open spec fn spec_stream_request_url(model: Models) -> Seq<char> {
    spec_base_url() + model.spec_name() + ":streamGenerateContent"@
}

/// Builds the URL a batch request for `model` is posted to.
pub fn request_url(model: &Models) -> (r: String)
    ensures
        r@ == spec_request_url(*model),
{
    let mut r = String::from_str("https://generativelanguage.googleapis.com/v1beta/models/");
    let name = model.to_string();
    r.append(name.as_str());
    r.append(":generateContent");
    proof {
        assert(r@ =~= spec_request_url(*model));
    }
    r
}

/// Builds the URL a streaming request for `model` is posted to.
pub fn stream_request_url(model: &Models) -> (r: String)
    ensures
        r@ == spec_stream_request_url(*model),
{
    let mut r = String::from_str("https://generativelanguage.googleapis.com/v1beta/models/");
    let name = model.to_string();
    r.append(name.as_str());
    r.append(":streamGenerateContent");
    proof {
        assert(r@ =~= spec_stream_request_url(*model));
    }
    r
}

/// Whether any candidate kept its content.
pub open spec fn spec_any_content(cands: Seq<CandidateView>) -> bool {
    exists|i: int| 0 <= i < cands.len() && cands[i].content is Some
}

/// The block reason the feedback names, where there is one.
pub open spec fn spec_feedback_reason(r: ResponseView) -> Option<BlockReason> {
    match r.prompt_feedback {
        Some(f) => f.block_reason,
        None => None,
    }
}

/// Turns a response body into the typed result, exactly as the API's
/// answer demands:
/// - a good status with a well-shaped body gives the response, unless
///   it holds no candidate (`EmptyApiResponse`) or every candidate lost
///   its content (`FeedbackError` with the stated reason, else
///   `AllCandidatesBlocked`);
/// - a bad status with a well-shaped error body gives `GeminiAPIError`;
/// - anything the parser or decoder refuses gives `ParsingError`.
#[verifier::loop_isolation(false)]
pub fn interpret_response(status_ok: bool, body: &str) -> (r: Result<
    GenerateContentResponse,
    GemError,
>)
    ensures
        status_ok ==> match spec_json_parse(body.spec_bytes()) {
            Some(v) => match spec_decode_response(v) {
                Some(resp) => if resp.candidates.len() == 0 {
                    r matches Err(GemError::EmptyApiResponse)
                } else if spec_any_content(resp.candidates) {
                    r matches Ok(out) && out@ == resp
                } else {
                    match spec_feedback_reason(resp) {
                        Some(reason) => r matches Err(GemError::FeedbackError(m)) && m@
                            == reason.spec_text(),
                        None => r matches Err(GemError::AllCandidatesBlocked),
                    }
                },
                None => r matches Err(GemError::ParsingError(_)),
            },
            None => r matches Err(GemError::ParsingError(_)),
        },
        !status_ok ==> match spec_json_parse(body.spec_bytes()) {
            Some(v) => match spec_decode_error(v) {
                Some(e) => r matches Err(GemError::GeminiAPIError(err)) && err@ == e,
                None => r matches Err(GemError::ParsingError(_)),
            },
            None => r matches Err(GemError::ParsingError(_)),
        },
{
    let parsed = match parse_json(body.as_bytes()) {
        Ok(v) => v,
        Err(msg) => {
            return Err(GemError::ParsingError(msg));
        },
    };
    if status_ok {
        let response = match decode_response(&parsed) {
            Some(resp) => resp,
            None => {
                return Err(
                    GemError::ParsingError(String::from_str("unexpected response shape")),
                );
            },
        };
        let candidates = response.get_candidates();
        let n = candidates.len();
        if n == 0 {
            return Err(GemError::EmptyApiResponse);
        }
        let mut blocked = true;
        for i in 0..n
            invariant
                blocked ==> forall|j: int| 0 <= j < i ==> response@.candidates[j].content is None,
                !blocked ==> spec_any_content(response@.candidates),
        {
            if candidates[i].get_content().is_some() {
                blocked = false;
                proof {
                    assert(response@.candidates[i as int].content is Some);
                }
            }
        }
        if blocked {
            match response.feedback() {
                Some(reason) => {
                    return Err(GemError::FeedbackError(reason.to_string()));
                },
                None => {
                    return Err(GemError::AllCandidatesBlocked);
                },
            }
        }
        Ok(response)
    } else {
        match decode_error(&parsed) {
            Some(e) => Err(GemError::GeminiAPIError(e)),
            None => Err(GemError::ParsingError(String::from_str("unexpected error shape"))),
        }
    }
}

/// Decodes one element of a streamed answer into a typed response: an
/// element that is not JSON or not response-shaped is a `StreamError`.
pub fn decode_stream_element(bytes: &[u8]) -> (r: Result<GenerateContentResponse, GemError>)
    ensures
        match spec_json_parse(bytes@) {
            Some(v) => match spec_decode_response(v) {
                Some(resp) => r matches Ok(out) && out@ == resp,
                None => r matches Err(GemError::StreamError(_)),
            },
            None => r matches Err(GemError::StreamError(_)),
        },
{
    let parsed = match parse_json(bytes) {
        Ok(v) => v,
        Err(msg) => {
            return Err(GemError::StreamError(msg));
        },
    };
    match decode_response(&parsed) {
        Some(resp) => Ok(resp),
        None => Err(GemError::StreamError(String::from_str("unexpected response shape"))),
    }
}

/// What absorbing a response does: nothing where there is no candidate
/// or no content; an error where the content carries no text; otherwise
/// the text that becomes the model's turn.
pub open spec fn spec_reply_outcome(resp: ResponseView) -> Option<Option<Seq<char>>> {
    if resp.candidates.len() == 0 {
        None
    } else {
        match resp.candidates[0].content {
            None => None,
            Some(c) => Some(spec_first_text(c.parts)),
        }
    }
}

/// Appends the model's reply to the conversation, as a session does
/// after every exchange: the first candidate's text goes in as a model
/// turn; a candidate whose content carries no text is an
/// `EmptyApiResponse`; no candidate or no content leaves the
/// conversation as it was.
pub fn absorb_reply(context: &mut Context, response: &GenerateContentResponse) -> (r: Result<
    (),
    GemError,
>)
    ensures
        match spec_reply_outcome(response@) {
            None => r matches Ok(()) && final(context)@ == old(context)@,
            Some(None) => r matches Err(GemError::EmptyApiResponse) && final(context)@ == old(
                context,
            )@,
            Some(Some(t)) => r matches Ok(()) && final(context)@ == old(context)@.push(
                spec_message_turn(Some(Role::Model), t),
            ),
        },
{
    let candidates = response.get_candidates();
    if candidates.len() == 0 {
        return Ok(());
    }
    match candidates[0].get_content() {
        Some(content) => {
            match content.get_text() {
                Some(text) => {
                    context.push_message(Some(Role::Model), text);
                    Ok(())
                },
                None => Err(GemError::EmptyApiResponse),
            }
        },
        None => Ok(()),
    }
}

/// Everything a session is configured with. Timeouts are whole seconds.
#[derive(Debug)]
pub struct Config {
    pub timeout_secs: u64,
    pub connect_timeout_secs: u64,
    pub model: Models,
    pub context: Context,
    pub api_key: Option<String>,
}

/// Builder for a session's configuration.
#[derive(Debug)]
pub struct GemSessionBuilder(pub Config);

impl GemSessionBuilder {
    /// The starting configuration: thirty-second timeouts, the default
    /// model, an empty conversation, and no API key chosen yet.
    pub fn new() -> (r: GemSessionBuilder)
        ensures
            r.0.timeout_secs == 30,
            r.0.connect_timeout_secs == 30,
            r.0.model == Models::Gemini2Flash,
            r.0.context@ == Seq::<crate::content::ContentView>::empty(),
            r.0.api_key is None,
    {
        GemSessionBuilder(
            Config {
                timeout_secs: 30,
                connect_timeout_secs: 30,
                model: Models::default(),
                context: Context::new(),
                api_key: None,
            },
        )
    }

    /// Sets the request timeout, in seconds.
    pub fn timeout(self, timeout_secs: u64) -> (r: Self)
        ensures
            r.0.timeout_secs == timeout_secs,
            r.0.connect_timeout_secs == self.0.connect_timeout_secs,
            r.0.model == self.0.model,
            r.0.context == self.0.context,
            r.0.api_key == self.0.api_key,
    {
        let mut config = self.0;
        config.timeout_secs = timeout_secs;
        GemSessionBuilder(config)
    }

    /// Picks the model the session talks to.
    pub fn model(self, model: Models) -> (r: Self)
        ensures
            r.0.model == model,
            r.0.timeout_secs == self.0.timeout_secs,
            r.0.connect_timeout_secs == self.0.connect_timeout_secs,
            r.0.context == self.0.context,
            r.0.api_key == self.0.api_key,
    {
        let mut config = self.0;
        config.model = model;
        GemSessionBuilder(config)
    }

    /// Picks a model by any name.
    pub fn custom_model(self, model: String) -> (r: Self)
        ensures
            r.0.model == Models::Custom(model),
            r.0.timeout_secs == self.0.timeout_secs,
            r.0.connect_timeout_secs == self.0.connect_timeout_secs,
            r.0.context == self.0.context,
            r.0.api_key == self.0.api_key,
    {
        let mut config = self.0;
        config.model = Models::Custom(model);
        GemSessionBuilder(config)
    }

    /// Sets the connection timeout, in seconds.
    pub fn connect_timeout(self, connect_timeout_secs: u64) -> (r: Self)
        ensures
            r.0.connect_timeout_secs == connect_timeout_secs,
            r.0.timeout_secs == self.0.timeout_secs,
            r.0.model == self.0.model,
            r.0.context == self.0.context,
            r.0.api_key == self.0.api_key,
    {
        let mut config = self.0;
        config.connect_timeout_secs = connect_timeout_secs;
        GemSessionBuilder(config)
    }

    /// Starts the session from an existing conversation.
    pub fn context(self, context: Context) -> (r: Self)
        ensures
            r.0.context == context,
            r.0.timeout_secs == self.0.timeout_secs,
            r.0.connect_timeout_secs == self.0.connect_timeout_secs,
            r.0.model == self.0.model,
            r.0.api_key == self.0.api_key,
    {
        let mut config = self.0;
        config.context = context;
        GemSessionBuilder(config)
    }

    /// Hands the session its API key.
    pub fn api_key(self, api_key: String) -> (r: Self)
        ensures
            r.0.api_key == Some(api_key),
            r.0.timeout_secs == self.0.timeout_secs,
            r.0.connect_timeout_secs == self.0.connect_timeout_secs,
            r.0.model == self.0.model,
            r.0.context == self.0.context,
    {
        let mut config = self.0;
        config.api_key = Some(api_key);
        GemSessionBuilder(config)
    }
}

} // verus!
