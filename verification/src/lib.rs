//! A websocket client core: connection supervision, outgoing frames and the
//! table of commands that wait for an answer from the peer.
use vstd::prelude::*;

pub mod command;
pub mod error;
pub mod laws;
pub mod ws;

pub use error::ConnectorError;


verus! {

/// What the connection reports to the user's callback.
#[allow(inconsistent_fields)]
#[derive(Debug, Clone)]
pub enum DataEntity {
    Binary { data: Vec<u8> },
    Text { data: String },
    Error { err: ConnectorError },
    Success,
}

impl DataEntity {
    /// The event is a failure report.
    pub open spec fn is_failure(self) -> bool {
        self is Error
    }
}

} // verus!
