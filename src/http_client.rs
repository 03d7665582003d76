//! The collector client: round-robin endpoint selection, request framing,
//! the keep-alive connection pool and the decisions of the write loop. The
//! sockets themselves are driven by the caller.

use vstd::prelude::*;
use vstd::arithmetic::div_mod::{lemma_mod_add_multiples_vanish, lemma_small_mod};
use vstd::utf8::encode_utf8;
use crate::error::TreblleError;
use crate::text::{concat, decimal, u64_to_decimal};

verus! {

#[verifier::external_type_specification]
#[verifier::external_body]
pub struct ExUrl(url::Url);

#[verifier::external_type_specification]
#[verifier::external_body]
pub struct ExUrlParseError(url::ParseError);

/// Whether `url::Url::parse` accepts this text.
pub uninterp spec fn url_parses(text: Seq<char>) -> bool;

/// The host `url::Url::host_str` gives for the URL parsed from this text.
pub uninterp spec fn url_host(text: Seq<char>) -> Option<Seq<char>>;

/// The port `url::Url::port_or_known_default` gives for the URL parsed from
/// this text.
pub uninterp spec fn url_port(text: Seq<char>) -> Option<u16>;

/// The path `url::Url::path` gives for the URL parsed from this text.
pub uninterp spec fn url_path(text: Seq<char>) -> Seq<char>;

/// Relies on `url::Url::parse`: parses, or fails; which of the two depends on
/// the text alone.
#[verifier::external_body]
fn parse_url(text: &str) -> (r: Result<url::Url, url::ParseError>)
    ensures
        r is Ok <==> url_parses(text@),
{
    url::Url::parse(text)
}

/// A URL together with the text it was parsed from.
struct ParsedUrl {
    source: String,
    url: url::Url,
}

impl ParsedUrl {
    /// Relies on `url::Url::host_str`: the host of the URL parsed from
    /// `source`.
    #[verifier::external_body]
    fn host_str(&self) -> (r: Option<String>)
        ensures
            match r {
                Some(h) => url_host(self.source@) == Some(h@),
                None => url_host(self.source@) is None,
            },
    {
        self.url.host_str().map(|h| h.to_string())
    }

    /// Relies on `url::Url::port_or_known_default`: the explicit port, else
    /// the scheme's default, of the URL parsed from `source`.
    #[verifier::external_body]
    fn port_or_known_default(&self) -> (r: Option<u16>)
        ensures
            r == url_port(self.source@),
    {
        self.url.port_or_known_default()
    }

    /// Relies on `url::Url::path`: the path of the URL parsed from `source`.
    #[verifier::external_body]
    fn path(&self) -> (r: String)
        ensures
            r@ == url_path(self.source@),
    {
        self.url.path().to_string()
    }
}

/// Where a collector URL points.
pub struct Endpoint {
    pub host: String,
    pub port: u16,
    pub path: String,
}

/// The endpoint a collector URL names, when it has a host and a port.
pub open spec fn endpoint_of(url: Seq<char>) -> Option<(Seq<char>, u16, Seq<char>)> {
    if url_parses(url) && url_host(url) is Some && url_port(url) is Some {
        Some((url_host(url)->0, url_port(url)->0, url_path(url)))
    } else {
        None
    }
}

/// Host, port and path of a collector URL; fails when the URL does not
/// parse or names no host or port.
pub fn parse_endpoint(url: &str) -> (r: Result<Endpoint, TreblleError>)
    ensures
        match r {
            Ok(e) => endpoint_of(url@) == Some((e.host@, e.port, e.path@)),
            Err(e) => endpoint_of(url@) is None && e is InvalidUrl,
        },
{
    let parsed = match parse_url(url) {
        Ok(u) => ParsedUrl { source: String::from_str(url), url: u },
        Err(_) => {
            return Err(TreblleError::InvalidUrl(String::from_str("URL does not parse")));
        },
    };
    let host = match parsed.host_str() {
        Some(h) => h,
        None => {
            return Err(TreblleError::InvalidUrl(String::from_str("No host in URL")));
        },
    };
    let port = match parsed.port_or_known_default() {
        Some(p) => p,
        None => {
            return Err(TreblleError::InvalidUrl(String::from_str("Invalid port")));
        },
    };
    Ok(Endpoint { host, port, path: parsed.path() })
}

/// The head of the POST that carries a record of `len` bytes.
pub open spec fn request_text(host: Seq<char>, path: Seq<char>, len: nat, api_key: Seq<char>) -> Seq<
    char,
> {
    "POST "@ + path + " HTTP/1.1\r\n"@ + "Host: "@ + host + "\r\n"@
        + "Content-Type: application/json\r\n"@ + "X-Api-Key: "@ + api_key + "\r\n"@
        + "Content-Length: "@ + decimal(len) + "\r\n"@ + "Connection: keep-alive\r\n"@ + "\r\n"@
}

/// The head of the POST that carries a record of `payload_len` bytes.
pub fn create_request(host: &str, path: &str, payload_len: usize, api_key: &str) -> (r: String)
    ensures
        r@ == request_text(host@, path@, payload_len as nat, api_key@),
{
    let mut s = concat("POST ", path);
    s.append(" HTTP/1.1\r\n");
    s.append("Host: ");
    s.append(host);
    s.append("\r\n");
    s.append("Content-Type: application/json\r\n");
    s.append("X-Api-Key: ");
    s.append(api_key);
    s.append("\r\n");
    s.append("Content-Length: ");
    let len = u64_to_decimal(payload_len as u64);
    s.append(len.as_str());
    s.append("\r\n");
    s.append("Connection: keep-alive\r\n");
    s.append("\r\n");
    s
}

/// A framed POST and where to send it.
pub struct OutboundRequest {
    pub host: String,
    pub port: u16,
    pub bytes: Vec<u8>,
}

/// The next value of a counter that wraps at the top of `usize`.
pub open spec fn next_index(i: usize) -> usize {
    if i == usize::MAX { 0 } else { (i + 1) as usize }
}

/// Round-robin selection over the collector endpoints.
pub struct HttpClient {
    pub urls: Vec<String>,
    pub current_index: usize,
}

impl HttpClient {
    /// A client over `urls` whose first send goes to the first URL.
    pub fn new(urls: Vec<String>) -> (r: HttpClient)
        ensures
            r.urls == urls,
            r.current_index == 0,
    {
        HttpClient { urls, current_index: 0 }
    }

    /// The URL for this send: the counter modulo the number of URLs. The
    /// counter advances by one, wrapping.
    pub fn get_next_url(&mut self) -> (r: String)
        requires
            old(self).urls.len() > 0,
        ensures
            r@ == old(self).urls@[old(self).current_index as int % old(self).urls.len() as int]@,
            final(self).urls == old(self).urls,
            final(self).current_index == next_index(old(self).current_index),
    {
        let index = self.current_index % self.urls.len();
        self.current_index = self.current_index.wrapping_add(1);
        self.urls[index].clone()
    }

    /// Picks the next collector URL and frames the POST of `payload` for it.
    /// The counter advances even when the URL turns out unusable; with no
    /// URLs at all nothing advances and the send fails.
    pub fn post(&mut self, payload: &[u8], api_key: &str) -> (r: Result<OutboundRequest, TreblleError>)
        ensures
            final(self).urls == old(self).urls,
            old(self).urls.len() == 0 ==> (r matches Err(e) && e is Config)
                && final(self).current_index == old(self).current_index,
            old(self).urls.len() > 0 ==> ({
                let url = old(self).urls@[old(self).current_index as int % old(self).urls.len() as int]@;
                &&& final(self).current_index == next_index(old(self).current_index)
                &&& match r {
                    Ok(req) => match endpoint_of(url) {
                        Some((host, port, path)) => req.host@ == host && req.port == port
                            && req.bytes@ == encode_utf8(request_text(host, path, payload@.len(), api_key@))
                            + payload@,
                        None => false,
                    },
                    Err(e) => endpoint_of(url) is None && e is InvalidUrl,
                }
            }),
    {
        if self.urls.len() == 0 {
            return Err(TreblleError::Config(String::from_str("No collector endpoints configured")));
        }
        let url = self.get_next_url();
        let endpoint = parse_endpoint(url.as_str())?;
        let head = create_request(
            endpoint.host.as_str(),
            endpoint.path.as_str(),
            payload.len(),
            api_key,
        );
        let mut bytes = head.as_str().as_bytes_vec();
        let mut i: usize = 0;
        let ghost start = bytes@;
        while i < payload.len()
            invariant
                i <= payload.len(),
                bytes@ == start + payload@.take(i as int),
            decreases payload.len() - i,
        {
            bytes.push(payload[i]);
            i = i + 1;
            assert(bytes@ =~= start + payload@.take(i as int));
        }
        assert(payload@.take(i as int) =~= payload@);
        Ok(OutboundRequest { host: endpoint.host, port: endpoint.port, bytes })
    }
}

/// Time after which a blocked write gives up, in milliseconds.
pub const CONNECT_TIMEOUT_MS: u64 = 5000;

/// What one non-blocking write of the rest of the request reported.
pub enum WriteOutcome {
    /// This many bytes went out.
    Wrote(usize),
    /// The socket was not ready.
    WouldBlock,
    /// Any other failure, with its description.
    Failed(String),
}

/// What the write loop does next.
pub enum SendStep {
    /// Write again from this offset.
    Continue(usize),
    /// Sleep a millisecond, then write again from the same offset.
    Wait,
    /// Every byte went out.
    Done,
    /// Give up.
    Fail(TreblleError),
}

/// The next move of the write loop, after a write from offset `written` of
/// `total` bytes reported `outcome`, `elapsed_ms` after the loop began. A
/// write that sends nothing is a failure, as it would repeat forever.
pub fn send_step(written: usize, total: usize, outcome: WriteOutcome, elapsed_ms: u64) -> (r: SendStep)
    requires
        written < total,
    ensures
        match outcome {
            WriteOutcome::Wrote(n) => if n == 0 {
                r matches SendStep::Fail(e) && e is Io
            } else if n >= total - written {
                r is Done
            } else {
                r == SendStep::Continue((written + n) as usize)
            },
            WriteOutcome::WouldBlock => if elapsed_ms > CONNECT_TIMEOUT_MS {
                r matches SendStep::Fail(e) && e is Timeout
            } else {
                r is Wait
            },
            WriteOutcome::Failed(d) => r == SendStep::Fail(TreblleError::Io(d)),
        },
{
    match outcome {
        WriteOutcome::Wrote(n) => {
            if n == 0 {
                SendStep::Fail(TreblleError::Io(String::from_str("write sent no bytes")))
            } else if n >= total - written {
                SendStep::Done
            } else {
                SendStep::Continue(written + n)
            }
        },
        WriteOutcome::WouldBlock => {
            if elapsed_ms > CONNECT_TIMEOUT_MS {
                SendStep::Fail(TreblleError::Timeout)
            } else {
                SendStep::Wait
            }
        },
        WriteOutcome::Failed(d) => SendStep::Fail(TreblleError::Io(d)),
    }
}

/// How many of the `count` counter values from `start` on select endpoint
/// `i` of `n`.
pub open spec fn visits(start: nat, count: nat, n: nat, i: nat) -> nat
    decreases count,
{
    if count == 0 {
        0
    } else {
        visits(start, (count - 1) as nat, n, i) + if ((start + count - 1) as int) % (n as int) == i as int {
            1nat
        } else {
            0nat
        }
    }
}

/// Splitting off the first counter value.
proof fn lemma_visits_first(start: nat, count: nat, n: nat, i: nat)
    requires
        count > 0,
    ensures
        visits(start, count, n, i) == (if (start as int) % (n as int) == i as int { 1nat } else { 0nat }) + visits(
            start + 1,
            (count - 1) as nat,
            n,
            i,
        ),
    decreases count,
{
    if count > 1 {
        lemma_visits_first(start, (count - 1) as nat, n, i);
        assert(((start + 1) + ((count - 1) as nat) - 1) == start + count - 1);
        assert(visits(start + 1, (count - 1) as nat, n, i) == visits(start + 1, (count - 2) as nat, n, i)
            + if ((start + count - 1) as int) % (n as int) == i as int { 1nat } else { 0nat });
    } else {
        assert(visits(start + 1, 0, n, i) == 0);
        assert(visits(start, 0, n, i) == 0);
    }
}

/// Splitting a run of counter values in two.
proof fn lemma_visits_split(start: nat, a: nat, b: nat, n: nat, i: nat)
    ensures
        visits(start, a + b, n, i) == visits(start, a, n, i) + visits(start + a, b, n, i),
    decreases b,
{
    if b > 0 {
        lemma_visits_split(start, a, (b - 1) as nat, n, i);
        assert((start + (a + b) - 1) == (start + a) + b - 1);
    }
}

/// Any `n` successive counter values select each of `n` endpoints once.
proof fn lemma_visits_window(start: nat, n: nat, i: nat)
    requires
        n > 0,
        i < n,
    ensures
        visits(start, n, n, i) == 1,
    decreases start,
{
    if start == 0 {
        lemma_visits_zero_window(n, n, i);
    } else {
        let s = (start - 1) as nat;
        lemma_visits_window(s, n, i);
        lemma_visits_first(s, n, n, i);
        lemma_visits_split(s + 1, (n - 1) as nat, 1, n, i);
        lemma_mod_add_multiples_vanish(s as int, n as int);
        assert((s + 1 + (n - 1)) as int == n + s);
    }
}

/// From zero, the first `m` counter values select endpoint `i` once when
/// `i < m`, else never.
proof fn lemma_visits_zero_window(m: nat, n: nat, i: nat)
    requires
        m <= n,
        i < n,
    ensures
        visits(0, m, n, i) == if i < m { 1nat } else { 0nat },
    decreases m,
{
    if m > 0 {
        lemma_visits_zero_window((m - 1) as nat, n, i);
        lemma_small_mod((m - 1) as nat, n);
    }
}

/// Round-robin fairness: over `k * n` successive sends the counter selects
/// each of `n` endpoints exactly `k` times. The counter values are those
/// before wrapping, so the run must not pass the top of `usize`.
pub proof fn lemma_round_robin_fair(start: nat, n: nat, k: nat, i: nat)
    requires
        n > 0,
        i < n,
    ensures
        visits(start, k * n, n, i) == k,
    decreases k,
{
    if k > 0 {
        lemma_round_robin_fair(start, n, (k - 1) as nat, i);
        assert(k * n == (k - 1) * n + n) by (nonlinear_arith)
            requires
                k > 0,
        ;
        lemma_visits_split(start, ((k - 1) * n) as nat, n, n, i);
        lemma_visits_window((start + (k - 1) * n) as nat, n, i);
    } else {
        assert(k * n == 0) by (nonlinear_arith)
            requires
                k == 0,
        ;
    }
}

} // verus!
