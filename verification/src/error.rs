use vstd::prelude::*;
use vstd::string::*;

use crate::ws::wsclient::Frame;

verus! {

/// Failures of the websocket connection.
#[derive(Debug, Clone)]
pub enum ConnectorError {
    WsConnectError(String),
    WsReadError(String),
    Unknown,
}

/// The text that describes a connector error.
pub open spec fn connector_error_text(e: ConnectorError) -> Seq<char> {
    match e {
        ConnectorError::WsConnectError(s) => "ws connect error: "@ + s@,
        ConnectorError::WsReadError(s) => "ws read data error: "@ + s@,
        ConnectorError::Unknown => "unknown data store error"@,
    }
}

impl ConnectorError {
    /// Human readable description of the error.
    pub fn message(&self) -> (r: String)
        ensures
            r@ == connector_error_text(*self),
    {
        match self {
            ConnectorError::WsConnectError(s) => {
                let mut r = String::from_str("ws connect error: ");
                r.append(s.as_str());
                r
            },
            ConnectorError::WsReadError(s) => {
                let mut r = String::from_str("ws read data error: ");
                r.append(s.as_str());
                r
            },
            ConnectorError::Unknown => String::from_str("unknown data store error"),
        }
    }
}

} // verus!

verus! {

/// Why an outgoing frame or a command could not be delivered.
#[derive(Debug, Clone)]
pub enum ClientError {
    /// The connection is not marked as up.
    NotConnected,
    /// The connection is marked as up but no outgoing channel exists.
    NoSender,
    /// The task that forwards frames to the socket is gone; the text is the channel's
    /// report, and the frame is the one that was not sent.
    ChannelClosed(String, Frame),
    /// No answer arrived before the deadline.
    ResponseTimeout,
}

/// The text that describes a client error.
pub open spec fn client_error_text(e: ClientError) -> Seq<char> {
    match e {
        ClientError::NotConnected => "[connector]send data with error as conn_status is false"@,
        ClientError::NoSender => "[connector]send data with error as tx is none, not valid"@,
        ClientError::ChannelClosed(s, _) => s@,
        ClientError::ResponseTimeout => "timeout for waiting for client response"@,
    }
}

impl ClientError {
    /// Human readable description of the error.
    pub fn message(&self) -> (r: String)
        ensures
            r@ == client_error_text(*self),
    {
        match self {
            ClientError::NotConnected => String::from_str(
                "[connector]send data with error as conn_status is false",
            ),
            ClientError::NoSender => String::from_str(
                "[connector]send data with error as tx is none, not valid",
            ),
            ClientError::ChannelClosed(s, _) => s.clone(),
            ClientError::ResponseTimeout => String::from_str(
                "timeout for waiting for client response",
            ),
        }
    }
}

} // verus!
