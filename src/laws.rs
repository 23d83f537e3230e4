use vstd::prelude::*;
use crate::client::ClientView;
use crate::error::ClientError;
use crate::token::{is_fresh, token_from_fields_spec, AccessTokenView};

verus! {

/// The number of exchanges made by requests for a token through `slot`, one
/// after another at the instants `nows`, where every exchange answers `answer`.
pub open spec fn exchanges_over(v: ClientView, slot: int, nows: Seq<u64>, answer: Result<AccessTokenView, ClientError>) -> nat
    decreases nows.len(),
{
    if nows.len() == 0 {
        0
    } else {
        let step = v.valid_token(slot, nows[0], answer);
        step.0 + exchanges_over(step.2, slot, nows.drop_first(), answer)
    }
}

/// With nothing cached for a credential, asking for a token makes exactly one
/// exchange, and hands on what that exchange gave without exchanging again.
pub proof fn lemma_empty_slot_exchanges_once(
    v: ClientView,
    slot: int,
    now: u64,
    answer: Result<AccessTokenView, ClientError>,
)
    requires
        v.wf(),
        0 <= slot < v.credentials.len(),
        v.tokens[slot] is None,
    ensures
        v.valid_token(slot, now, answer).0 == 1,
        v.valid_token(slot, now, answer).1 == ClientView::exchange_result(answer),
{
}

/// With a cached token whose expiry lies ahead, asking for a token hands on the
/// cached one, makes no exchange and changes nothing.
pub proof fn lemma_fresh_token_is_reused(
    v: ClientView,
    slot: int,
    now: u64,
    answer: Result<AccessTokenView, ClientError>,
)
    requires
        v.wf(),
        0 <= slot < v.credentials.len(),
        v.tokens[slot] matches Some(t) && t.expires_at > now,
    ensures
        v.valid_token(slot, now, answer) == (0nat, Ok::<Seq<char>, ClientError>(v.tokens[slot].unwrap().token), v),
{
}

/// With a cached token whose expiry has come, at the very instant included,
/// asking for a token makes exactly one exchange; when it succeeds the cache then
/// holds the new token in place of the stale one, and nothing else changes.
pub proof fn lemma_stale_token_is_replaced(
    v: ClientView,
    slot: int,
    now: u64,
    answer: Result<AccessTokenView, ClientError>,
)
    requires
        v.wf(),
        0 <= slot < v.credentials.len(),
        v.tokens[slot] matches Some(t) && t.expires_at <= now,
    ensures
        v.valid_token(slot, now, answer).0 == 1,
        answer matches Ok(t) ==> {
            &&& v.valid_token(slot, now, answer).2.tokens[slot] == Some(t)
            &&& v.valid_token(slot, now, answer).2.credentials == v.credentials
            &&& forall|i: int| 0 <= i < v.tokens.len() && i != slot ==> v.valid_token(slot, now, answer).2.tokens[i] == v.tokens[i]
        },
{
}

/// An answer of the token endpoint that lacks the token or its expiry is
/// malformed, and leaves the cache as it was.
pub proof fn lemma_missing_field_keeps_cache(
    v: ClientView,
    slot: int,
    token: Option<Seq<char>>,
    expires_at: Option<u64>,
)
    requires
        token is None || expires_at is None,
    ensures
        token_from_fields_spec(token, expires_at) == Err::<AccessTokenView, ClientError>(ClientError::MalformedUpstreamResponse),
        v.after_exchange(slot, token_from_fields_spec(token, expires_at)) == v,
{
}

/// Requests through a credential whose slot holds a token that is fresh at each
/// of their instants make no exchange.
pub proof fn lemma_fresh_slot_no_exchanges(
    v: ClientView,
    slot: int,
    nows: Seq<u64>,
    answer: Result<AccessTokenView, ClientError>,
)
    requires
        v.wf(),
        0 <= slot < v.credentials.len(),
        v.tokens[slot] is Some,
        forall|i: int| 0 <= i < nows.len() ==> is_fresh(v.tokens[slot].unwrap().expires_at, #[trigger] nows[i]),
    ensures
        exchanges_over(v, slot, nows, answer) == 0,
    decreases nows.len(),
{
    if nows.len() > 0 {
        assert(is_fresh(v.tokens[slot].unwrap().expires_at, nows[0]));
        let rest = nows.drop_first();
        assert forall|i: int| 0 <= i < rest.len() implies is_fresh(v.tokens[slot].unwrap().expires_at, #[trigger] rest[i]) by {
            assert(rest[i] == nows[i + 1]);
        }
        lemma_fresh_slot_no_exchanges(v, slot, rest, answer);
    }
}

/// Requests served one at a time through a credential with nothing cached, where
/// the exchange gives a token that stays fresh over all of them, make exactly one
/// exchange between them.
pub proof fn lemma_serialized_requests_exchange_once(
    v: ClientView,
    slot: int,
    nows: Seq<u64>,
    t: AccessTokenView,
)
    requires
        v.wf(),
        0 <= slot < v.credentials.len(),
        v.tokens[slot] is None,
        nows.len() > 0,
        forall|i: int| 0 <= i < nows.len() ==> is_fresh(t.expires_at, #[trigger] nows[i]),
    ensures
        exchanges_over(v, slot, nows, Ok(t)) == 1,
{
    let next = v.after_exchange(slot, Ok(t));
    assert(v.valid_token(slot, nows[0], Ok(t)).2 == next);
    let rest = nows.drop_first();
    assert forall|i: int| 0 <= i < rest.len() implies is_fresh(next.tokens[slot].unwrap().expires_at, #[trigger] rest[i]) by {
        assert(rest[i] == nows[i + 1]);
    }
    lemma_fresh_slot_no_exchanges(next, slot, rest, Ok(t));
}

} // verus!
