//! The errors of the client and of the enumerator.

use vstd::prelude::*;

verus! {

/// The server answered with a status outside the 2xx range. The status and
/// the text of the body are kept for diagnosis.
#[derive(Debug, PartialEq, Eq)]
pub struct RequestError {
    pub status: u16,
    pub body: String,
}

/// The server answered with a 2xx status, but the body is not JSON of the
/// expected shape. The text of the body is kept.
#[derive(Debug, PartialEq, Eq)]
pub struct DecodeError {
    pub body: String,
}

/// What can go wrong with one request.
#[derive(Debug, PartialEq, Eq)]
pub enum ClientError {
    /// No reply was received: the request could not be sent, or the
    /// connection failed.
    Transport { message: String },
    /// The server rejected the request.
    Request(RequestError),
    /// The server accepted the request and sent a body that cannot be read.
    Decode(DecodeError),
    /// The body of the request could not be written as JSON.
    Encode,
}

/// A `ClientError` with the texts it holds as sequences of characters.
pub enum ClientErrorView {
    Transport { message: Seq<char> },
    Request { status: u16, body: Seq<char> },
    Decode { body: Seq<char> },
    Encode,
}

impl View for ClientError {
    type V = ClientErrorView;

    open spec fn view(&self) -> ClientErrorView {
        match self {
            ClientError::Transport { message } => ClientErrorView::Transport { message: message@ },
            ClientError::Request(e) => ClientErrorView::Request { status: e.status, body: e.body@ },
            ClientError::Decode(e) => ClientErrorView::Decode { body: e.body@ },
            ClientError::Encode => ClientErrorView::Encode,
        }
    }
}

impl ClientError {
    /// A line of text that describes the error.
    pub fn message(&self) -> (text: String)
        ensures
            text@ == client_error_text(self@),
    {
        match self {
            ClientError::Transport { message } => crate::text::join(
                "Failed to send HTTP request: ",
                message.as_str(),
            ),
            ClientError::Request(e) => {
                let mut text: String = String::from_str("HTTP request failed with status ");
                let status: String = crate::text::decimal_string(e.status as u64);
                text.append(status.as_str());
                text.append(": ");
                text.append(e.body.as_str());
                text
            },
            ClientError::Decode(e) => crate::text::join(
                "Failed to parse response JSON: ",
                e.body.as_str(),
            ),
            ClientError::Encode => String::from_str("Failed to serialize request body to JSON"),
        }
    }
}

/// The text of `ClientError::message`.
pub open spec fn client_error_text(error: ClientErrorView) -> Seq<char> {
    match error {
        ClientErrorView::Transport { message } => "Failed to send HTTP request: "@ + message,
        ClientErrorView::Request { status, body } => "HTTP request failed with status "@
            + crate::text::decimal(status as nat) + ": "@ + body,
        ClientErrorView::Decode { body } => "Failed to parse response JSON: "@ + body,
        ClientErrorView::Encode => "Failed to serialize request body to JSON"@,
    }
}

} // verus!
