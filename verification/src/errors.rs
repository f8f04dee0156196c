//! The errors of the client.
use vstd::prelude::*;
use crate::json::{Json, JsonValue};
use crate::models::keyboard::opt_view;

verus! {

/// What can go wrong in the client.
#[derive(Debug)]
pub enum Error {
    NotConnected,
    ConnectionFailed(String),
    ConnectionClosed(String),
    SendFailed(String),
    /// The text of a JSON parse error.
    ParseError(String),
    /// A request took longer than this many seconds and nanoseconds.
    RequestTimeout { secs: u64, nanos: u32 },
    /// The server answered a request with an error.
    ApiResponse(JsonValue),
    /// The answer's channel closed before an answer arrived.
    OneshotRecvError,
    /// The text of an input or output error.
    IoError(String),
    TauriError(String),
    Other(String),
}

/// The results of the client's operations.
pub type ClientResult<T> = Result<T, Error>;

/// The name of an error's kind.
pub open spec fn error_kind(e: Error) -> Seq<char> {
    match e {
        Error::NotConnected => "NotConnected"@,
        Error::ConnectionFailed(_) => "ConnectionFailed"@,
        Error::ConnectionClosed(_) => "ConnectionClosed"@,
        Error::SendFailed(_) => "SendFailed"@,
        Error::ParseError(_) => "ParseError"@,
        Error::RequestTimeout { .. } => "RequestTimeout"@,
        Error::ApiResponse(_) => "ApiResponse"@,
        Error::OneshotRecvError => "OneshotRecvError"@,
        Error::IoError(_) => "IoError"@,
        Error::TauriError(_) => "TauriError"@,
        Error::Other(_) => "Other"@,
    }
}

/// The message of an error whose message is plain text: "Not connected",
/// or the text it carries. Nothing for a timeout, an error answer of the
/// server and a closed channel, whose messages are the formatted duration,
/// the answer's JSON text and the channel's own message.
pub open spec fn error_plain_text(e: Error) -> Option<Seq<char>> {
    match e {
        Error::NotConnected => Some("Not connected"@),
        Error::ConnectionFailed(m) => Some(m@),
        Error::ConnectionClosed(m) => Some(m@),
        Error::SendFailed(m) => Some(m@),
        Error::ParseError(m) => Some(m@),
        Error::IoError(m) => Some(m@),
        Error::TauriError(m) => Some(m@),
        Error::Other(m) => Some(m@),
        Error::RequestTimeout { .. } => None,
        Error::ApiResponse(_) => None,
        Error::OneshotRecvError => None,
    }
}

impl Error {
    /// The error's message when it is plain text (see [`error_plain_text`]).
    pub fn plain_text(&self) -> (res: Option<String>)
        ensures
            opt_view(res) == error_plain_text(*self),
    {
        match self {
            Error::NotConnected => Some("Not connected".to_owned()),
            Error::ConnectionFailed(m) => Some(m.clone()),
            Error::ConnectionClosed(m) => Some(m.clone()),
            Error::SendFailed(m) => Some(m.clone()),
            Error::ParseError(m) => Some(m.clone()),
            Error::IoError(m) => Some(m.clone()),
            Error::TauriError(m) => Some(m.clone()),
            Error::Other(m) => Some(m.clone()),
            Error::RequestTimeout { .. } => None,
            Error::ApiResponse(_) => None,
            Error::OneshotRecvError => None,
        }
    }

    /// The error for the user interface: its kind and its message. The
    /// message is the plain text when the error has one; otherwise it is
    /// `formatted`, the caller's rendering of the duration, of the answer's
    /// JSON or of the channel's message, which is used for nothing else.
    pub fn to_json(&self, formatted: String) -> (res: JsonValue)
        ensures
            res@ == Json::Object(
                map![
                    "type"@ => Json::Str(error_kind(*self)),
                    "text"@ => Json::Str(
                        match error_plain_text(*self) {
                            Some(t) => t,
                            None => formatted@,
                        },
                    ),
                ],
            ),
    {
        let text = match self.plain_text() {
            Some(t) => t,
            None => formatted,
        };
        JsonValue::object().with("type", JsonValue::from_str(self.kind())).with("text", JsonValue::from_string(text))
    }

    /// The name of the error's kind.
    pub fn kind(&self) -> (res: &'static str)
        ensures
            res@ == error_kind(*self),
    {
        match self {
            Error::NotConnected => "NotConnected",
            Error::ConnectionFailed(_) => "ConnectionFailed",
            Error::ConnectionClosed(_) => "ConnectionClosed",
            Error::SendFailed(_) => "SendFailed",
            Error::ParseError(_) => "ParseError",
            Error::RequestTimeout { .. } => "RequestTimeout",
            Error::ApiResponse(_) => "ApiResponse",
            Error::OneshotRecvError => "OneshotRecvError",
            Error::IoError(_) => "IoError",
            Error::TauriError(_) => "TauriError",
            Error::Other(_) => "Other",
        }
    }
}

impl From<String> for Error {
    fn from(s: String) -> (res: Self) {
        Error::Other(s)
    }
}

impl vstd::std_specs::convert::FromSpecImpl<String> for Error {
    open spec fn obeys_from_spec() -> bool {
        true
    }

    open spec fn from_spec(v: String) -> Self {
        Error::Other(v)
    }
}

/// Every error is reported under the name of its own kind, and an error
/// that carries a text has that text as its message.
pub proof fn lemma_error_kinds(m: String, j: JsonValue, secs: u64, nanos: u32)
    ensures
        error_kind(Error::NotConnected) == "NotConnected"@,
        error_kind(Error::ConnectionFailed(m)) == "ConnectionFailed"@,
        error_kind(Error::ConnectionClosed(m)) == "ConnectionClosed"@,
        error_kind(Error::SendFailed(m)) == "SendFailed"@,
        error_kind(Error::ParseError(m)) == "ParseError"@,
        error_kind(Error::RequestTimeout { secs, nanos }) == "RequestTimeout"@,
        error_kind(Error::ApiResponse(j)) == "ApiResponse"@,
        error_kind(Error::OneshotRecvError) == "OneshotRecvError"@,
        error_kind(Error::IoError(m)) == "IoError"@,
        error_kind(Error::TauriError(m)) == "TauriError"@,
        error_kind(Error::Other(m)) == "Other"@,
        error_plain_text(Error::NotConnected) == Some("Not connected"@),
        error_plain_text(Error::ConnectionFailed(m)) == Some(m@),
        error_plain_text(Error::ConnectionClosed(m)) == Some(m@),
        error_plain_text(Error::SendFailed(m)) == Some(m@),
        error_plain_text(Error::ParseError(m)) == Some(m@),
        error_plain_text(Error::IoError(m)) == Some(m@),
        error_plain_text(Error::TauriError(m)) == Some(m@),
        error_plain_text(Error::Other(m)) == Some(m@),
        error_plain_text(Error::RequestTimeout { secs, nanos }) is None,
        error_plain_text(Error::ApiResponse(j)) is None,
        error_plain_text(Error::OneshotRecvError) is None,
{
}

} // verus!
