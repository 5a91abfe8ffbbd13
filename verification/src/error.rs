//! Errors of the client and of its socket, with their messages.
use vstd::prelude::*;
use crate::text::{nat_digits, u64_to_decimal};

verus! {

broadcast use vstd::string::group_string_axioms;

/// What can go wrong with a request to the XRPL API.
#[derive(Debug)]
pub enum XrplError {
    /// The server answered with an error.
    ApiError { error: String, error_message: Option<String> },
    /// The answer could not be read as the expected response.
    ParseError(String),
    /// The socket failed.
    SocketError(XrplSocketError),
}

/// What can go wrong on the websocket. Errors raised by the websocket or
/// JSON libraries are held as their message.
#[derive(Debug)]
pub enum XrplSocketError {
    ConnectionError(String),
    ConnectionClosed,
    RequestTimeout { timeout_ms: u64 },
    ChannelSendError,
    ChannelReceiveError,
    JsonParseError(String),
    Disconnected,
    InvalidRequest { field: String },
    PingFailed,
}

impl XrplSocketError {
    /// The error's message.
    pub open spec fn message_spec(&self) -> Seq<char> {
        match self {
            XrplSocketError::ConnectionError(e) => "Failed to connect to WebSocket: "@ + e@,
            XrplSocketError::ConnectionClosed => "WebSocket connection closed unexpectedly"@,
            XrplSocketError::RequestTimeout { timeout_ms } => "Request timed out after "@ + nat_digits(
                *timeout_ms as nat,
            ) + "ms"@,
            XrplSocketError::ChannelSendError => "Failed to send message over internal channel"@,
            XrplSocketError::ChannelReceiveError => "Failed to receive response from internal channel"@,
            XrplSocketError::JsonParseError(e) => "Failed to parse JSON response: "@ + e@,
            XrplSocketError::Disconnected => "WebSocket is disconnected"@,
            XrplSocketError::InvalidRequest { field } => "Invalid request format: missing required field '"@
                + field@ + "'"@,
            XrplSocketError::PingFailed => "WebSocket ping failed"@,
        }
    }

    /// The error's message, as it is displayed.
    pub fn message(&self) -> (r: String)
        ensures
            r@ == self.message_spec(),
    {
        match self {
            XrplSocketError::ConnectionError(e) => "Failed to connect to WebSocket: ".to_string().concat(
                e.as_str(),
            ),
            XrplSocketError::ConnectionClosed => "WebSocket connection closed unexpectedly".to_string(),
            XrplSocketError::RequestTimeout { timeout_ms } => {
                let digits = u64_to_decimal(*timeout_ms);
                "Request timed out after ".to_string().concat(digits.as_str()).concat("ms")
            },
            XrplSocketError::ChannelSendError => "Failed to send message over internal channel".to_string(),
            XrplSocketError::ChannelReceiveError => "Failed to receive response from internal channel".to_string(),
            XrplSocketError::JsonParseError(e) => "Failed to parse JSON response: ".to_string().concat(
                e.as_str(),
            ),
            XrplSocketError::Disconnected => "WebSocket is disconnected".to_string(),
            XrplSocketError::InvalidRequest { field } => "Invalid request format: missing required field '".to_string().concat(
                field.as_str(),
            ).concat("'"),
            XrplSocketError::PingFailed => "WebSocket ping failed".to_string(),
        }
    }
}

impl XrplError {
    /// The error's message.
    pub open spec fn message_spec(&self) -> Seq<char> {
        match self {
            XrplError::ApiError { error, error_message } => "XRPL API returned error: "@ + error@ + ": "@
                + match error_message {
                Some(m) => m@,
                None => Seq::empty(),
            },
            XrplError::ParseError(e) => "Failed to parse XRPL response: "@ + e@,
            XrplError::SocketError(e) => "Socket error: "@ + e.message_spec(),
        }
    }

    /// The error's message, as it is displayed.
    pub fn message(&self) -> (r: String)
        ensures
            r@ == self.message_spec(),
    {
        match self {
            XrplError::ApiError { error, error_message } => {
                let s = "XRPL API returned error: ".to_string().concat(error.as_str()).concat(": ");
                match error_message {
                    Some(m) => s.concat(m.as_str()),
                    None => {
                        assert(s@ =~= s@ + Seq::<char>::empty());
                        s
                    },
                }
            },
            XrplError::ParseError(e) => "Failed to parse XRPL response: ".to_string().concat(e.as_str()),
            XrplError::SocketError(e) => {
                let inner = e.message();
                "Socket error: ".to_string().concat(inner.as_str())
            },
        }
    }
}

impl From<XrplSocketError> for XrplError {
    /// A socket failure, as an error of the client.
    fn from(e: XrplSocketError) -> (r: XrplError)
        ensures
            r == XrplError::SocketError(e),
    {
        XrplError::SocketError(e)
    }
}

impl vstd::std_specs::convert::FromSpecImpl<XrplSocketError> for XrplError {
    open spec fn obeys_from_spec() -> bool {
        true
    }

    open spec fn from_spec(v: XrplSocketError) -> XrplError {
        XrplError::SocketError(v)
    }
}

} // verus!
