use vstd::prelude::*;
use crate::error::ClientError;
use crate::outside::uniform_below;
use crate::request::{
    lyrics_base_url, lyrics_headers, lyrics_query, lyrics_request, token_headers, token_request,
    token_url, UpstreamRequest,
};
use crate::json::{json_text_member, json_u64_member};
use crate::token::{expiry_key, token_key, response_fields, is_fresh, opt_view, token_from_fields_spec, AccessToken, AccessTokenView};

verus! {

/// The client's state: the credential set, fixed at start, and one cache slot per
/// credential, empty until the first exchange for that credential.
pub struct SpotifyClient {
    credentials: Vec<String>,
    access_tokens: Vec<Option<AccessToken>>,
}

/// The mathematical value of the client's state.
pub ghost struct ClientView {
    pub credentials: Seq<Seq<char>>,
    pub tokens: Seq<Option<AccessTokenView>>,
}

pub open spec fn slot_view(e: Option<AccessToken>) -> Option<AccessTokenView> {
    match e {
        Some(t) => Some(t@),
        None => None,
    }
}

impl View for SpotifyClient {
    type V = ClientView;

    closed spec fn view(&self) -> ClientView {
        ClientView {
            credentials: self.credentials@.map_values(|c: String| c@),
            tokens: self.access_tokens@.map_values(|e: Option<AccessToken>| slot_view(e)),
        }
    }
}

/// The credentials of `s`, each once, in the order of their first occurrence.
pub open spec fn distinct_in_order(s: Seq<Seq<char>>) -> Seq<Seq<char>>
    decreases s.len(),
{
    if s.len() == 0 {
        Seq::empty()
    } else {
        let r = distinct_in_order(s.drop_last());
        if r.contains(s.last()) {
            r
        } else {
            r.push(s.last())
        }
    }
}

/// Whether `s` holds a credential equal to `c`.
fn holds(s: &Vec<String>, c: &String) -> (r: bool)
    ensures
        r == s@.map_values(|x: String| x@).contains(c@),
{
    let ghost sv = s@.map_values(|x: String| x@);
    let mut i: usize = 0;
    while i < s.len()
        invariant
            i <= s@.len(),
            sv == s@.map_values(|x: String| x@),
            forall|j: int| 0 <= j < i ==> sv[j] != c@,
        decreases s@.len() - i,
    {
        if s[i] == *c {
            assert(sv[i as int] == c@);
            return true;
        }
        i = i + 1;
    }
    false
}

proof fn lemma_distinct_nonempty(s: Seq<Seq<char>>)
    requires
        s.len() > 0,
    ensures
        distinct_in_order(s).len() > 0,
    decreases s.len(),
{
    let r = distinct_in_order(s.drop_last());
    if r.contains(s.last()) {
        assert(r.len() > 0);
    }
}

impl ClientView {
    /// At least one credential, each once, and one cache slot for each.
    pub open spec fn wf(self) -> bool {
        &&& self.credentials.len() > 0
        &&& self.credentials.no_duplicates()
        &&& self.tokens.len() == self.credentials.len()
    }

    /// Whether a request through the credential in `slot` at `now` must first
    /// exchange it for a new token: when nothing is cached, or the cached token
    /// is stale.
    pub open spec fn needs_exchange(self, slot: int, now: u64) -> bool {
        match self.tokens[slot] {
            None => true,
            Some(t) => !is_fresh(t.expires_at, now),
        }
    }

    /// The state after the exchange for `slot` answered `answer`: a new token
    /// replaces whatever the slot held; a failure leaves the state as it was.
    pub open spec fn after_exchange(self, slot: int, answer: Result<AccessTokenView, ClientError>) -> ClientView {
        match answer {
            Ok(t) => ClientView { tokens: self.tokens.update(slot, Some(t)), ..self },
            Err(_) => self,
        }
    }

    /// What an exchange that answered `answer` hands on: the new token, or the failure.
    pub open spec fn exchange_result(answer: Result<AccessTokenView, ClientError>) -> Result<Seq<char>, ClientError> {
        match answer {
            Ok(t) => Ok(t.token),
            Err(e) => Err(e),
        }
    }

    /// Asking for a valid token for `slot` at `now`, where an exchange would
    /// answer `answer`: the number of exchanges made, the token or failure handed
    /// on, and the state afterwards.
    pub open spec fn valid_token(self, slot: int, now: u64, answer: Result<AccessTokenView, ClientError>) -> (
        nat,
        Result<Seq<char>, ClientError>,
        ClientView,
    ) {
        if self.needs_exchange(slot, now) {
            (1, Self::exchange_result(answer), self.after_exchange(slot, answer))
        } else {
            (0, Ok(self.tokens[slot].unwrap().token), self)
        }
    }
}

/// What to do next to get a token: use the cached one, or send the request that
/// exchanges the credential for a new one.
pub enum TokenStep {
    Ready(String),
    Exchange(UpstreamRequest),
}

/// The next round trip of a lyrics request: exchange the chosen credential for a
/// token, or fetch the lyrics with a token in hand.
pub enum LyricsAction {
    Exchange(UpstreamRequest),
    Fetch(UpstreamRequest),
}

impl SpotifyClient {
    pub open spec fn wf(&self) -> bool {
        self@.wf()
    }

    /// A client over the credential set `credentials`, with nothing cached.
    /// A credential is known by its value: one that is listed twice is kept once,
    /// at its first place, so that it has one cache slot. An empty set is refused.
    pub fn new(credentials: Vec<String>) -> (r: Result<SpotifyClient, ClientError>)
        ensures
            credentials@.len() == 0 <==> r is Err,
            r is Err ==> r == Err::<SpotifyClient, ClientError>(ClientError::NoCredentialsConfigured),
            r matches Ok(c) ==> {
                &&& c.wf()
                &&& c@.credentials == distinct_in_order(credentials@.map_values(|s: String| s@))
                &&& forall|i: int| 0 <= i < c@.tokens.len() ==> c@.tokens[i] is None
            },
    {
        if credentials.len() == 0 {
            return Err(ClientError::NoCredentialsConfigured);
        }
        let ghost input = credentials@.map_values(|s: String| s@);
        let mut kept: Vec<String> = Vec::new();
        let mut access_tokens: Vec<Option<AccessToken>> = Vec::new();
        let mut i: usize = 0;
        while i < credentials.len()
            invariant
                i <= credentials@.len(),
                input == credentials@.map_values(|s: String| s@),
                kept@.map_values(|s: String| s@) == distinct_in_order(input.subrange(0, i as int)),
                kept@.map_values(|s: String| s@).no_duplicates(),
                access_tokens@.len() == kept@.len(),
                forall|j: int| 0 <= j < access_tokens@.len() ==> access_tokens@[j] is None,
            decreases credentials@.len() - i,
        {
            let ghost before = kept@.map_values(|s: String| s@);
            assert(input.subrange(0, i + 1).drop_last() =~= input.subrange(0, i as int));
            assert(input.subrange(0, i + 1).last() == input[i as int]);
            if !holds(&kept, &credentials[i]) {
                let c = credentials[i].clone();
                kept.push(c);
                access_tokens.push(None);
                assert(kept@.map_values(|s: String| s@) =~= before.push(input[i as int]));
                assert forall|a: int, b: int|
                    0 <= a < b < before.len() + 1 implies #[trigger] before.push(input[i as int])[a]
                        != #[trigger] before.push(input[i as int])[b] by {
                    if b == before.len() {
                        assert(before.contains(before[a]));
                    }
                }
            }
            i = i + 1;
        }
        assert(input.subrange(0, input.len() as int) =~= input);
        proof {
            lemma_distinct_nonempty(input);
        }
        let credentials = kept;
        let c = SpotifyClient { credentials, access_tokens };
        assert(c@.tokens.len() == c@.credentials.len());
        assert forall|i: int| 0 <= i < c@.tokens.len() implies c@.tokens[i] is None by {
            assert(c.access_tokens@[i] is None);
        }
        Ok(c)
    }

    /// The number of credentials.
    pub fn credential_count(&self) -> (r: usize)
        ensures
            r == self@.credentials.len(),
    {
        self.credentials.len()
    }

    /// The credential in `slot`.
    pub fn credential(&self, slot: usize) -> (r: &String)
        requires
            slot < self@.credentials.len(),
        ensures
            r@ == self@.credentials[slot as int],
    {
        &self.credentials[slot]
    }

    /// The token cached for the credential in `slot`, fresh or not.
    pub fn cached_token(&self, slot: usize) -> (r: Option<&AccessToken>)
        requires
            self.wf(),
            slot < self@.credentials.len(),
        ensures
            match r {
                Some(t) => self@.tokens[slot as int] == Some(t@),
                None => self@.tokens[slot as int] is None,
            },
    {
        match &self.access_tokens[slot] {
            Some(t) => Some(t),
            None => None,
        }
    }

    /// Chooses the credential that serves a request, uniformly at random and
    /// independently of earlier choices.
    pub fn select_credential(&self) -> (r: usize)
        requires
            self.wf(),
        ensures
            r < self@.credentials.len(),
    {
        uniform_below(self.credentials.len())
    }

    /// Decides how a request through the credential in `slot` at `now` gets its
    /// token: the cached one while it is fresh, else an exchange of that credential.
    pub fn plan(&self, slot: usize, now: u64) -> (r: TokenStep)
        requires
            self.wf(),
            slot < self@.credentials.len(),
        ensures
            match r {
                TokenStep::Ready(t) => {
                    &&& !self@.needs_exchange(slot as int, now)
                    &&& self@.valid_token(slot as int, now, Err(ClientError::UpstreamUnavailable)).1
                        == Ok::<Seq<char>, ClientError>(t@)
                },
                TokenStep::Exchange(req) => {
                    &&& self@.needs_exchange(slot as int, now)
                    &&& req.url_spec() == token_url()
                    &&& req.headers_spec() == token_headers(self@.credentials[slot as int])
                },
            },
    {
        match &self.access_tokens[slot] {
            Some(t) => {
                if t.is_valid_at(now) {
                    return TokenStep::Ready(t.token.clone());
                }
            },
            None => {},
        }
        TokenStep::Exchange(token_request(self.credentials[slot].as_str()))
    }

    /// Chooses a credential and reads the clock, and decides by them how the
    /// request gets its token. Hands back the credential's slot, the clock
    /// reading and the decision.
    pub fn begin(&self) -> (r: (usize, u64, TokenStep))
        requires
            self.wf(),
        ensures
            r.0 < self@.credentials.len(),
            r.2 is Exchange <==> self@.needs_exchange(r.0 as int, r.1),
            r.2 matches TokenStep::Exchange(req) ==> {
                &&& req.url_spec() == token_url()
                &&& req.headers_spec() == token_headers(self@.credentials[r.0 as int])
            },
            r.2 matches TokenStep::Ready(t) ==> self@.tokens[r.0 as int] matches Some(c) && c.token
                == t@ && is_fresh(c.expires_at, r.1),
    {
        let slot = self.select_credential();
        let now = crate::clock::now_millis();
        (slot, now, self.plan(slot, now))
    }

    /// Puts `token` in the slot of its credential, replacing what was there, and
    /// hands on its text.
    pub fn store_token(&mut self, slot: usize, token: AccessToken) -> (r: String)
        requires
            old(self).wf(),
            slot < old(self)@.credentials.len(),
        ensures
            final(self)@ == old(self)@.after_exchange(slot as int, Ok(token@)),
            r@ == token.token@,
    {
        let text = token.token.clone();
        let ghost t = token@;
        self.access_tokens.set(slot, Some(token));
        assert(self@.tokens =~= old(self)@.tokens.update(slot as int, Some(t)));
        assert(self@.credentials =~= old(self)@.credentials);
        text
    }

    /// Completes the exchange for `slot` from the two fields of the token
    /// endpoint's answer. With both there, the new token replaces the slot's entry
    /// and is handed on; else the answer is malformed and nothing changes.
    pub fn exchange_fields(&mut self, slot: usize, token: Option<String>, expires_at: Option<u64>) -> (r: Result<String, ClientError>)
        requires
            old(self).wf(),
            slot < old(self)@.credentials.len(),
        ensures
            final(self)@ == old(self)@.after_exchange(slot as int, token_from_fields_spec(opt_view(token), expires_at)),
            match r {
                Ok(t) => ClientView::exchange_result(token_from_fields_spec(opt_view(token), expires_at)) == Ok::<Seq<char>, ClientError>(t@),
                Err(e) => ClientView::exchange_result(token_from_fields_spec(opt_view(token), expires_at)) == Err::<Seq<char>, ClientError>(e),
            },
    {
        match AccessToken::from_fields(token, expires_at) {
            Ok(t) => Ok(self.store_token(slot, t)),
            Err(e) => Err(e),
        }
    }

    /// Completes the exchange for `slot` from the token endpoint's answer, of
    /// status `status` and body `body`. An answer outside 2xx means the endpoint
    /// was not reachable for this request; a 2xx answer is read for the token and
    /// its expiry. A usable answer replaces the slot's entry and its token is
    /// handed on; any other answer changes nothing.
    pub fn complete_exchange(&mut self, slot: usize, status: u16, body: &str) -> (r: Result<String, ClientError>)
        requires
            old(self).wf(),
            slot < old(self)@.credentials.len(),
        ensures
            final(self).wf(),
            !(200 <= status < 300) ==> {
                &&& r == Err::<String, ClientError>(ClientError::UpstreamUnavailable)
                &&& final(self)@ == old(self)@
            },
            200 <= status < 300 ==> {
                let answer = token_from_fields_spec(
                    json_text_member(body@, token_key()),
                    json_u64_member(body@, expiry_key()),
                );
                &&& final(self)@ == old(self)@.after_exchange(slot as int, answer)
                &&& match r {
                    Ok(t) => ClientView::exchange_result(answer) == Ok::<Seq<char>, ClientError>(t@),
                    Err(e) => ClientView::exchange_result(answer) == Err::<Seq<char>, ClientError>(e),
                }
            },
    {
        if status < 200 || status >= 300 {
            return Err(ClientError::UpstreamUnavailable);
        }
        let (token, expires_at) = response_fields(body);
        self.exchange_fields(slot, token, expires_at)
    }

    /// Starts a lyrics request for `track_id`: chooses a credential, reads the
    /// clock, and asks for the lyrics at once with a fresh cached token, or else
    /// for an exchange first. Hands back the slot, the clock reading and the action.
    pub fn start_lyrics(&self, track_id: &str) -> (r: (usize, u64, LyricsAction))
        requires
            self.wf(),
        ensures
            r.0 < self@.credentials.len(),
            r.2 is Exchange <==> self@.needs_exchange(r.0 as int, r.1),
            r.2 matches LyricsAction::Exchange(req) ==> {
                &&& req.url_spec() == token_url()
                &&& req.headers_spec() == token_headers(self@.credentials[r.0 as int])
            },
            r.2 matches LyricsAction::Fetch(req) ==> {
                &&& self@.tokens[r.0 as int] matches Some(c)
                &&& is_fresh(c.expires_at, r.1)
                &&& req.url_spec() == lyrics_base_url() + track_id@ + lyrics_query()
                &&& req.headers_spec() == lyrics_headers(c.token)
            },
    {
        let (slot, now, step) = self.begin();
        let action = match step {
            TokenStep::Ready(t) => LyricsAction::Fetch(lyrics_request(t.as_str(), track_id)),
            TokenStep::Exchange(req) => LyricsAction::Exchange(req),
        };
        (slot, now, action)
    }

    /// Goes on with a lyrics request for `track_id` once the exchange for `slot`
    /// has answered with `status` and `body`: completes the exchange, and with
    /// the new token in hand describes the lyrics request. A failed exchange
    /// ends the request with its error.
    pub fn resume_after_exchange(&mut self, slot: usize, status: u16, body: &str, track_id: &str) -> (r: Result<UpstreamRequest, ClientError>)
        requires
            old(self).wf(),
            slot < old(self)@.credentials.len(),
        ensures
            final(self).wf(),
            !(200 <= status < 300) ==> {
                &&& r matches Err(e) && e == ClientError::UpstreamUnavailable
                &&& final(self)@ == old(self)@
            },
            200 <= status < 300 ==> {
                let answer = token_from_fields_spec(
                    json_text_member(body@, token_key()),
                    json_u64_member(body@, expiry_key()),
                );
                &&& final(self)@ == old(self)@.after_exchange(slot as int, answer)
                &&& match answer {
                    Ok(t) => r matches Ok(req) && req.url_spec() == lyrics_base_url() + track_id@
                        + lyrics_query() && req.headers_spec() == lyrics_headers(t.token),
                    Err(e) => r matches Err(e2) && e2 == e,
                }
            },
    {
        match self.complete_exchange(slot, status, body) {
            Ok(t) => Ok(lyrics_request(t.as_str(), track_id)),
            Err(e) => Err(e),
        }
    }
}

} // verus!
