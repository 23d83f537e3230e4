use vstd::prelude::*;

verus! {

/// One header line of an outbound request.
pub struct Header {
    pub name: String,
    pub value: String,
}

/// An outbound `GET` request, described as plain values; the caller sends it.
pub struct UpstreamRequest {
    pub url: String,
    pub headers: Vec<Header>,
}

pub open spec fn header_view(h: Header) -> (Seq<char>, Seq<char>) {
    (h.name@, h.value@)
}

impl UpstreamRequest {
    /// The URL and the header lines, as sequences of characters.
    pub open spec fn url_spec(&self) -> Seq<char> {
        self.url@
    }

    pub open spec fn headers_spec(&self) -> Seq<(Seq<char>, Seq<char>)> {
        self.headers@.map_values(|h: Header| header_view(h))
    }
}

/// The token endpoint.
pub open spec fn token_url() -> Seq<char> {
    "https://open.spotify.com/get_access_token?reason=transport&productType=web_player"@
}

/// The lyrics endpoint, to which the track identifier is appended.
pub open spec fn lyrics_base_url() -> Seq<char> {
    "https://spclient.wg.spotify.com/color-lyrics/v2/track/"@
}

/// The fixed query that asks for JSON and the market of the token's account.
pub open spec fn lyrics_query() -> Seq<char> {
    "?format=json&market=from_token"@
}

/// The browser identification that the upstream service requires.
pub open spec fn user_agent() -> Seq<char> {
    "Mozilla/5.0 (Windows NT 10.0; Win64; x64) AppleWebKit/537.36 (KHTML, like Gecko) Chrome/101.0.0.0 Safari/537.36"@
}

/// The headers of a request for a token in exchange for the session cookie `cookie`.
pub open spec fn token_headers(cookie: Seq<char>) -> Seq<(Seq<char>, Seq<char>)> {
    seq![
        ("App-platform"@, "WebPlayer"@),
        ("Cookie"@, "sp_dc="@ + cookie),
        ("User-Agent"@, user_agent()),
        ("Content-Type"@, "text/html"@),
    ]
}

/// The headers of a lyrics request that bears the access token `token`.
pub open spec fn lyrics_headers(token: Seq<char>) -> Seq<(Seq<char>, Seq<char>)> {
    seq![
        ("App-platform"@, "WebPlayer"@),
        ("Authorization"@, "Bearer "@ + token),
        ("User-Agent"@, user_agent()),
        ("Content-Type"@, "text/html"@),
    ]
}

fn header(name: &str, value: String) -> (r: Header)
    ensures
        r.name@ == name@,
        r.value@ == value@,
{
    Header { name: String::from_str(name), value }
}

fn user_agent_text() -> (r: String)
    ensures
        r@ == user_agent(),
{
    String::from_str(
        "Mozilla/5.0 (Windows NT 10.0; Win64; x64) AppleWebKit/537.36 (KHTML, like Gecko) Chrome/101.0.0.0 Safari/537.36",
    )
}

/// Four header lines in the order given.
fn four_headers(a: Header, b: Header, c: Header, d: Header) -> (r: Vec<Header>)
    ensures
        r@.map_values(|h: Header| header_view(h)) == seq![
            header_view(a),
            header_view(b),
            header_view(c),
            header_view(d),
        ],
{
    let ghost (ga, gb, gc, gd) = (a, b, c, d);
    let mut v: Vec<Header> = Vec::new();
    v.push(a);
    v.push(b);
    v.push(c);
    v.push(d);
    assert(v@ == seq![ga, gb, gc, gd]);
    assert(v@.map_values(|h: Header| header_view(h)) =~= seq![
        header_view(ga),
        header_view(gb),
        header_view(gc),
        header_view(gd),
    ]);
    v
}

/// The request that exchanges the session cookie `cookie` for an access token.
pub fn token_request(cookie: &str) -> (r: UpstreamRequest)
    ensures
        r.url_spec() == token_url(),
        r.headers_spec() == token_headers(cookie@),
{
    let url = String::from_str(
        "https://open.spotify.com/get_access_token?reason=transport&productType=web_player",
    );
    let headers = four_headers(
        header("App-platform", String::from_str("WebPlayer")),
        header("Cookie", String::from_str("sp_dc=").concat(cookie)),
        header("User-Agent", user_agent_text()),
        header("Content-Type", String::from_str("text/html")),
    );
    UpstreamRequest { url, headers }
}

/// The request for the lyrics of `track_id`, bearing the access token `token`.
/// The track identifier is passed on as it is.
pub fn lyrics_request(token: &str, track_id: &str) -> (r: UpstreamRequest)
    ensures
        r.url_spec() == lyrics_base_url() + track_id@ + lyrics_query(),
        r.headers_spec() == lyrics_headers(token@),
{
    let url = String::from_str("https://spclient.wg.spotify.com/color-lyrics/v2/track/")
        .concat(track_id)
        .concat("?format=json&market=from_token");
    let headers = four_headers(
        header("App-platform", String::from_str("WebPlayer")),
        header("Authorization", String::from_str("Bearer ").concat(token)),
        header("User-Agent", user_agent_text()),
        header("Content-Type", String::from_str("text/html")),
    );
    UpstreamRequest { url, headers }
}

} // verus!
