use vstd::prelude::*;

verus! {

/// Failures of the relay core.
#[derive(Debug, PartialEq, Eq, Structural, Clone, Copy)]
pub enum ClientError {
    /// The credential set is empty; the client refuses to start.
    NoCredentialsConfigured,
    /// An upstream endpoint could not be reached.
    UpstreamUnavailable,
    /// The token endpoint answered without a usable access token or expiry.
    MalformedUpstreamResponse,
    /// The lyrics endpoint answered with another status than 200, or without lyrics.
    UpstreamRequestFailed { status: u16 },
}

/// The text shown to an inbound caller for any failure.
pub open spec fn public_message_spec() -> Seq<char> {
    "Something went wrong"@
}

/// The log line for each kind of failure.
pub open spec fn diagnostic_spec(e: ClientError) -> Seq<char> {
    match e {
        ClientError::NoCredentialsConfigured => "no credentials configured"@,
        ClientError::UpstreamUnavailable => "upstream unavailable"@,
        ClientError::MalformedUpstreamResponse => "malformed upstream response"@,
        ClientError::UpstreamRequestFailed { .. } => "upstream request failed"@,
    }
}

impl ClientError {
    /// The message an inbound caller sees: the same for every error, so that
    /// nothing of the upstream's answers leaks out.
    pub fn public_message(&self) -> (r: String)
        ensures
            r@ == public_message_spec(),
    {
        String::from_str("Something went wrong")
    }

    /// A line for the server's own log, naming the kind of failure; the status
    /// of a failed request is in the value itself.
    pub fn diagnostic(&self) -> (r: String)
        ensures
            r@ == diagnostic_spec(*self),
    {
        match self {
            ClientError::NoCredentialsConfigured => String::from_str("no credentials configured"),
            ClientError::UpstreamUnavailable => String::from_str("upstream unavailable"),
            ClientError::MalformedUpstreamResponse => String::from_str("malformed upstream response"),
            ClientError::UpstreamRequestFailed { .. } => String::from_str("upstream request failed"),
        }
    }
}

} // verus!
