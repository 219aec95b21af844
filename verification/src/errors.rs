use vstd::prelude::*;
use vstd::string::StringExecFns;

verus! {

/// Failure taxonomy for talking to the upstream metadata API.
#[derive(Debug)]
pub enum BilibiliError {
    /// The outbound call failed at the network or protocol layer;
    /// carries a description of the transport failure.
    Http(String),
    /// The upstream answered at the transport layer but reported no
    /// payload; carries the upstream's own message verbatim.
    Api(String),
}

/// The human-readable text for an error, as it is rendered into a
/// response body.
pub open spec fn message_spec(e: &BilibiliError) -> Seq<char> {
    match e {
        BilibiliError::Http(s) => "Failed to send request "@ + s@,
        BilibiliError::Api(s) => "Bad response: "@ + s@,
    }
}

impl BilibiliError {
    /// Renders the error as the text shown to a caller.
    pub fn message(&self) -> (r: String)
        ensures
            r@ == message_spec(self),
    {
        match self {
            BilibiliError::Http(s) => {
                let mut m = String::from_str("Failed to send request ");
                m.append(s.as_str());
                m
            },
            BilibiliError::Api(s) => {
                let mut m = String::from_str("Bad response: ");
                m.append(s.as_str());
                m
            },
        }
    }
}

} // verus!
