use vstd::prelude::*;
use crate::error::ClientError;
use crate::json::{json_text_member, json_u64_member, text_member, u64_member};

verus! {

/// A short-lived bearer token and the instant it stops being valid.
#[derive(Debug)]
pub struct AccessToken {
    pub token: String,
    /// Milliseconds since the Unix epoch.
    pub expires_at: u64,
}

/// The mathematical value of an access token.
pub ghost struct AccessTokenView {
    pub token: Seq<char>,
    pub expires_at: u64,
}

impl View for AccessToken {
    type V = AccessTokenView;

    open spec fn view(&self) -> AccessTokenView {
        AccessTokenView { token: self.token@, expires_at: self.expires_at }
    }
}

/// A token may be used at `now` only while its expiry lies strictly ahead;
/// at the exact instant of expiry it is stale.
pub open spec fn is_fresh(expires_at: u64, now: u64) -> bool {
    expires_at > now
}

/// The token that the two fields of the token endpoint's answer describe, if both
/// are there.
pub open spec fn token_from_fields_spec(token: Option<Seq<char>>, expires_at: Option<u64>) -> Result<
    AccessTokenView,
    ClientError,
> {
    match (token, expires_at) {
        (Some(t), Some(e)) => Ok(AccessTokenView { token: t, expires_at: e }),
        _ => Err(ClientError::MalformedUpstreamResponse),
    }
}

pub open spec fn opt_view(s: Option<String>) -> Option<Seq<char>> {
    match s {
        Some(t) => Some(t@),
        None => None,
    }
}

/// The key of the access token in the token endpoint's answer.
pub open spec fn token_key() -> Seq<char> {
    "accessToken"@
}

/// The key of the token's expiry in the token endpoint's answer.
pub open spec fn expiry_key() -> Seq<char> {
    "accessTokenExpirationTimestampMs"@
}

/// The two members of the token endpoint's answer that make a token: the text of
/// `accessToken` and the unsigned integer `accessTokenExpirationTimestampMs`. A
/// member that is missing or of another kind, or a body that is not JSON, gives
/// `None` in its place.
pub fn response_fields(body: &str) -> (r: (Option<String>, Option<u64>))
    ensures
        opt_view(r.0) == json_text_member(body@, token_key()),
        r.1 == json_u64_member(body@, expiry_key()),
{
    let token = text_member(body, "accessToken");
    let expires_at = u64_member(body, "accessTokenExpirationTimestampMs");
    (token, expires_at)
}

impl AccessToken {
    /// Whether the token may still be used at `now`.
    pub fn is_valid_at(&self, now: u64) -> (r: bool)
        ensures
            r == is_fresh(self.expires_at, now),
    {
        self.expires_at > now
    }

    /// Builds a token from the two fields of the token endpoint's answer; a missing
    /// field is a malformed answer, never a partial token.
    pub fn from_fields(token: Option<String>, expires_at: Option<u64>) -> (r: Result<AccessToken, ClientError>)
        ensures
            match r {
                Ok(t) => token_from_fields_spec(opt_view(token), expires_at) == Ok::<AccessTokenView, ClientError>(t@),
                Err(e) => token_from_fields_spec(opt_view(token), expires_at) == Err::<AccessTokenView, ClientError>(e),
            },
    {
        match (token, expires_at) {
            (Some(t), Some(e)) => Ok(AccessToken { token: t, expires_at: e }),
            _ => Err(ClientError::MalformedUpstreamResponse),
        }
    }

    /// Reads the token endpoint's answer: a JSON object with the string member
    /// `accessToken` and the integer member `accessTokenExpirationTimestampMs`.
    /// Anything else is a malformed answer.
    pub fn from_response_body(body: &str) -> (r: Result<AccessToken, ClientError>)
        ensures
            match r {
                Ok(t) => token_from_fields_spec(
                    json_text_member(body@, token_key()),
                    json_u64_member(body@, expiry_key()),
                ) == Ok::<AccessTokenView, ClientError>(t@),
                Err(e) => token_from_fields_spec(
                    json_text_member(body@, token_key()),
                    json_u64_member(body@, expiry_key()),
                ) == Err::<AccessTokenView, ClientError>(e),
            },
    {
        let (token, expires_at) = response_fields(body);
        AccessToken::from_fields(token, expires_at)
    }
}

} // verus!
