use vstd::prelude::*;

verus! {

/// The JSON string literal, quotes and escapes included, that serde_json
/// writes for `s`.
pub uninterp spec fn json_quoted(s: Seq<char>) -> Seq<char>;

/// Relies on serde_json::to_string on a `str`: it writes the quoted and
/// escaped string literal; writing into memory cannot fail.
#[verifier::external_body]
fn quote_json(s: &str) -> (r: String)
    ensures
        r@ == json_quoted(s@),
{
    serde_json::to_string(s).unwrap_or_default()
}

pub open spec fn digit_char(d: nat) -> char {
    if d == 0 { '0' }
    else if d == 1 { '1' }
    else if d == 2 { '2' }
    else if d == 3 { '3' }
    else if d == 4 { '4' }
    else if d == 5 { '5' }
    else if d == 6 { '6' }
    else if d == 7 { '7' }
    else if d == 8 { '8' }
    else { '9' }
}

/// The decimal digits of `n`, without leading zeros.
pub open spec fn decimal_of(n: nat) -> Seq<char>
    decreases n,
{
    if n < 10 {
        seq![digit_char(n)]
    } else {
        decimal_of(n / 10).push(digit_char(n % 10))
    }
}

fn digit_str(d: u64) -> (r: &'static str)
    requires
        d < 10,
    ensures
        r@ == seq![digit_char(d as nat)],
{
    proof {
        reveal_strlit("0");
        reveal_strlit("1");
        reveal_strlit("2");
        reveal_strlit("3");
        reveal_strlit("4");
        reveal_strlit("5");
        reveal_strlit("6");
        reveal_strlit("7");
        reveal_strlit("8");
        reveal_strlit("9");
    }
    if d == 0 { "0" }
    else if d == 1 { "1" }
    else if d == 2 { "2" }
    else if d == 3 { "3" }
    else if d == 4 { "4" }
    else if d == 5 { "5" }
    else if d == 6 { "6" }
    else if d == 7 { "7" }
    else if d == 8 { "8" }
    else { "9" }
}

/// Writes `n` in decimal.
pub fn decimal_text(n: u64) -> (r: String)
    ensures
        r@ == decimal_of(n as nat),
    decreases n,
{
    if n < 10 {
        String::from_str(digit_str(n))
    } else {
        let mut s = decimal_text(n / 10);
        s.append(digit_str(n % 10));
        s
    }
}

/// The topic that carries the ticks of `market`.
pub open spec fn topic_of(market: Seq<char>) -> Seq<char> {
    "/market/"@ + market + "_TICK"@
}

/// `{"id":<id>,"type":"subscribe","topic":<topic>,"req":<req>}`
pub open spec fn subscribe_frame_of(id: nat, market: Seq<char>, req: nat) -> Seq<char> {
    "{\"id\":"@ + decimal_of(id) + ",\"type\":\"subscribe\",\"topic\":"@ + json_quoted(
        topic_of(market),
    ) + ",\"req\":"@ + decimal_of(req) + "}"@
}

/// `{"id":<id>,"type":"ping"}`
pub open spec fn ping_frame_of(id: nat) -> Seq<char> {
    "{\"id\":"@ + decimal_of(id) + ",\"type\":\"ping\"}"@
}

/// The streaming endpoint on `host` for the session credential `token`.
pub open spec fn stream_url_of(host: Seq<char>, token: Seq<char>) -> Seq<char> {
    "wss://"@ + host + "/endpoint?bulletToken="@ + token + "&format=json&resource=api"@
}

/// Whether the url crate reads `s` as a well-formed URL.
pub uninterp spec fn url_valid(s: Seq<char>) -> bool;

/// Relies on url::Url::parse: whether it accepts a text depends on the text
/// alone.
#[verifier::external_body]
pub(crate) fn is_valid_url(s: &str) -> (r: bool)
    ensures
        r == url_valid(s@),
{
    url::Url::parse(s).is_ok()
}

/// Builds the topic of `market`.
pub fn topic(market: &str) -> (r: String)
    ensures
        r@ == topic_of(market@),
{
    let mut t = String::from_str("/market/");
    t.append(market);
    t.append("_TICK");
    t
}

/// Builds the subscription request for `market`.
pub fn subscribe_frame(id: u64, market: &str, req: u64) -> (r: String)
    ensures
        r@ == subscribe_frame_of(id as nat, market@, req as nat),
{
    let t = topic(market);
    let mut f = String::from_str("{\"id\":");
    f.append(decimal_text(id).as_str());
    f.append(",\"type\":\"subscribe\",\"topic\":");
    f.append(quote_json(t.as_str()).as_str());
    f.append(",\"req\":");
    f.append(decimal_text(req).as_str());
    f.append("}");
    f
}

/// Builds the keepalive request.
pub fn ping_frame(id: u64) -> (r: String)
    ensures
        r@ == ping_frame_of(id as nat),
{
    let mut f = String::from_str("{\"id\":");
    f.append(decimal_text(id).as_str());
    f.append(",\"type\":\"ping\"}");
    f
}

/// Builds the streaming URL.
pub fn stream_url(host: &str, token: &str) -> (r: String)
    ensures
        r@ == stream_url_of(host@, token@),
{
    let mut u = String::from_str("wss://");
    u.append(host);
    u.append("/endpoint?bulletToken=");
    u.append(token);
    u.append("&format=json&resource=api");
    u
}

} // verus!
