use vstd::prelude::*;
use crate::error::ClientError;
use crate::json::{any_member, json_member};

verus! {

/// Reads the lyrics endpoint's answer. Only status 200 with a JSON object that
/// has a `lyrics` member succeeds, and hands on that member as it is; any other
/// answer fails with its status, and no part of the body is kept.
pub fn lyrics_from_response(status: u16, body: &str) -> (r: Result<serde_json::Value, ClientError>)
    ensures
        status != 200 ==> r == Err::<serde_json::Value, ClientError>(ClientError::UpstreamRequestFailed { status }),
        status == 200 ==> r == match json_member(body@, "lyrics"@) {
            Some(v) => Ok::<serde_json::Value, ClientError>(v),
            None => Err(ClientError::UpstreamRequestFailed { status }),
        },
{
    if status != 200 {
        return Err(ClientError::UpstreamRequestFailed { status });
    }
    match any_member(body, "lyrics") {
        Some(v) => Ok(v),
        None => Err(ClientError::UpstreamRequestFailed { status }),
    }
}

} // verus!
