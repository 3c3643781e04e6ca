//! The versioned records exchanged between client and daemon. Each record
//! travels as one JSON object in one frame.

use vstd::prelude::*;

use crate::error::{detail_of, kind_tag_of, Error};
use crate::text::text_eq;

verus! {

/// The only protocol version defined so far.
pub const PROTOCOL_VERSION: u8 = 1;

/// A prompt sent by the client: exactly one per connection.
#[derive(Debug, PartialEq, Eq)]
pub struct PromptRequest {
    /// The client's protocol version.
    pub v: u8,
    /// The prompt text.
    pub prompt: String,
    /// Whether tokens are streamed; the daemon always streams.
    pub stream: bool,
}

/// One streamed token, or the end of the stream.
#[derive(Debug, PartialEq, Eq)]
pub struct TokenResponse {
    /// The token text; absent marks no payload.
    pub token: Option<String>,
    /// The end of the stream.
    pub eos: bool,
}

/// A failure reported to the client, after which the connection closes.
#[derive(Debug, PartialEq, Eq)]
pub struct ErrorResponse {
    /// A human-readable message.
    pub error: String,
    /// The error's class: `ModelLoad`, `Protocol`, `Io`, `Timeout` or `Unknown`.
    pub error_type: String,
}

/// A response frame, told apart by the presence of the error fields.
#[derive(Debug, PartialEq, Eq)]
pub enum Response {
    Token(TokenResponse),
    Error(ErrorResponse),
}

impl PromptRequest {
    /// A streaming request for `prompt` at the current protocol version.
    pub fn new(prompt: &str) -> (r: PromptRequest)
        ensures
            r.v == PROTOCOL_VERSION,
            r.prompt@ == prompt@,
            r.stream,
    {
        PromptRequest { v: PROTOCOL_VERSION, prompt: prompt.to_owned(), stream: true }
    }
}

/// Accepts a request whose version this daemon speaks.
pub fn validate_request(req: &PromptRequest) -> (r: Result<(), Error>)
    ensures
        r is Ok <==> req.v == PROTOCOL_VERSION,
        r is Err ==> r->Err_0 is Protocol,
{
    if req.v == PROTOCOL_VERSION {
        Ok(())
    } else {
        Err(Error::Protocol("unsupported protocol version".to_owned()))
    }
}

/// The frame for one result of `next_token`: the end of the stream exactly
/// when there is no token.
pub open spec fn token_frame(tok: Option<String>) -> TokenResponse {
    TokenResponse { token: tok, eos: tok is None }
}

/// Builds the response frame for one result of `next_token`.
pub fn token_response(tok: Option<String>) -> (r: TokenResponse)
    ensures
        r == token_frame(tok),
{
    let eos = tok.is_none();
    TokenResponse { token: tok, eos }
}

/// Projects an error onto the wire: its own text and its class tag.
pub fn error_response(e: &Error) -> (r: ErrorResponse)
    ensures
        r.error@ == detail_of(*e),
        r.error_type@ == kind_tag_of(*e),
{
    ErrorResponse { error: e.detail(), error_type: e.kind_tag().to_owned() }
}

/// `e` is the client's reading of an error frame: the class comes from the
/// tag, and an unrecognised tag reads as a protocol error.
pub open spec fn is_client_error(error: Seq<char>, error_type: Seq<char>, e: Error) -> bool {
    if error_type == "ModelLoad"@ {
        e matches Error::ModelLoad(m) && m@ == error
    } else if error_type == "Io"@ {
        e matches Error::Io(m) && m@ == error
    } else if error_type == "Timeout"@ {
        e == Error::Timeout
    } else {
        e matches Error::Protocol(m) && m@ == "Daemon error: "@ + error
    }
}

/// Converts an error frame into the client's error.
pub fn error_from_response(resp: &ErrorResponse) -> (r: Error)
    ensures
        is_client_error(resp.error@, resp.error_type@, r),
{
    let t = resp.error_type.as_str();
    if text_eq(t, "ModelLoad") {
        Error::ModelLoad(resp.error.clone())
    } else if text_eq(t, "Io") {
        Error::Io(resp.error.clone())
    } else if text_eq(t, "Timeout") {
        Error::Timeout
    } else {
        Error::Protocol("Daemon error: ".to_owned().concat(resp.error.as_str()))
    }
}

} // verus!
