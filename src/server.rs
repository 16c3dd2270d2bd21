//! Requests as the parser hands them over, responses, and what a connection
//! does between the two: routing, framing and the log event.

use vstd::prelude::*;
use vstd::utf8::encode_utf8;
use crate::log::{Log, NONE_TEXT, host_text, opt_text};
use crate::text::{dec, is_space, push_char, push_dec, push_str, space};
use crate::timefmt::Stamp;

verus! {

/// An IPv4 address, as its four octets.
pub type IpAddr = [u8; 4];

/// The virtual hosts this server answers for.
#[derive(Clone, Copy, Debug, PartialEq, Eq, Structural)]
pub enum Host {
    Mycology,
    Site,
}

/// Name under which the mycology pages are served.
pub const MYCOLOGY_DOMAIN: &'static str = "mycology";

/// Name under which the rest of the site is served.
pub const SITE_DOMAIN: &'static str = "site";

/// What the request parser found in one request; any part may be missing.
#[derive(Clone, Debug)]
pub struct RequestInfo {
    pub host: Option<Host>,
    pub path: Option<String>,
    pub user_agent: Option<String>,
    pub ip: Option<IpAddr>,
    pub referer: Option<String>,
}

/// A response before framing: status line, content type and body.
#[derive(Clone, Debug)]
pub struct Response {
    pub status: String,
    pub mime_type: String,
    pub content: Vec<u8>,
}

/// Status line of the response to a request that nothing serves.
pub const NOT_FOUND_STATUS: &'static str = "HTTP/1.1 404 Not Found";

/// Content type of the response to a request that nothing serves.
pub const NOT_FOUND_MIME: &'static str = "text/html";

/// Body of the response to a request that nothing serves.
pub const NOT_FOUND_BODY: &'static str = "<h1>404 Not Found</h1>";

/// The response to a request that nothing serves.
pub fn not_found() -> (r: Response)
    ensures
        r.status@ == NOT_FOUND_STATUS@,
        r.mime_type@ == NOT_FOUND_MIME@,
        r.content@ == encode_utf8(NOT_FOUND_BODY@),
{
    Response {
        status: String::from_str(NOT_FOUND_STATUS),
        mime_type: String::from_str(NOT_FOUND_MIME),
        content: NOT_FOUND_BODY.as_bytes_vec(),
    }
}

/// The host and path that a request is served from, where it names both.
pub open spec fn routed(req: RequestInfo) -> bool {
    req.host is Some && req.path is Some
}

/// Picks the content provider for a request: its host and path, or nothing
/// where either is missing.
pub fn route(req: &RequestInfo) -> (r: Option<(Host, String)>)
    ensures
        r is Some <==> routed(*req),
        r is Some ==> Some((r->0).0) == req.host && (r->0).1@ == req.path->0@,
{
    match (&req.host, &req.path) {
        (Some(h), Some(p)) => Some((*h, p.clone())),
        _ => None,
    }
}

/// The protocol name starts at position `i` of `w`.
pub open spec fn http_at(w: Seq<char>, i: int) -> bool {
    0 <= i && i + 4 <= w.len() && w[i] == 'H' && w[i + 1] == 'T' && w[i + 2] == 'T' && w[i + 3]
        == 'P'
}

/// A word of a status line holds the protocol name.
pub open spec fn has_http(w: Seq<char>) -> bool {
    exists|i: int| http_at(w, i)
}

/// Adds a finished word to the summary, unless it is empty or names the
/// protocol.
pub open spec fn flush_word(out: Seq<char>, w: Seq<char>) -> Seq<char> {
    if w.len() == 0 || has_http(w) {
        out
    } else if out.len() == 0 {
        w
    } else {
        out + " "@ + w
    }
}

/// The summary so far and the word being read, after the characters `s`.
pub open spec fn status_scan(s: Seq<char>) -> (Seq<char>, Seq<char>)
    decreases s.len(),
{
    if s.len() == 0 {
        (Seq::empty(), Seq::empty())
    } else {
        let (out, w) = status_scan(s.drop_last());
        if is_space(s.last()) {
            (flush_word(out, w), Seq::empty())
        } else {
            (out, w.push(s.last()))
        }
    }
}

/// The words of a status line but the protocol, separated by single spaces.
pub open spec fn status_summary(s: Seq<char>) -> Seq<char> {
    flush_word(status_scan(s).0, status_scan(s).1)
}

fn word_has_http(w: &str) -> (r: bool)
    ensures
        r == has_http(w@),
{
    let n = w.unicode_len();
    if n < 4 {
        assert forall|k: int| !#[trigger] http_at(w@, k) by {}
        return false;
    }
    let mut i: usize = 0;
    while i <= n - 4
        invariant
            n == w@.len(),
            n >= 4,
            i <= n - 3,
            forall|k: int| 0 <= k < i ==> !#[trigger] http_at(w@, k),
        decreases n - i,
    {
        if w.get_char(i) == 'H' && w.get_char(i + 1) == 'T' && w.get_char(i + 2) == 'T'
            && w.get_char(i + 3) == 'P' {
            assert(http_at(w@, i as int));
            return true;
        }
        i = i + 1;
    }
    assert forall|k: int| !#[trigger] http_at(w@, k) by {
        if 0 <= k && k >= i {
            assert(k + 4 > n);
        }
    }
    false
}

fn flush(out: &mut String, w: &str)
    ensures
        final(out)@ == flush_word(old(out)@, w@),
{
    if w.unicode_len() != 0 && !word_has_http(w) {
        if out.as_str().unicode_len() != 0 {
            push_str(out, " ");
        }
        push_str(out, w);
    }
}

/// Status description for the log: the status line without its protocol
/// word, with whitespace normalised.
pub fn summarize_status(status: &str) -> (r: String)
    ensures
        r@ == status_summary(status@),
{
    let n = status.unicode_len();
    let mut out = String::new();
    let mut word = String::new();
    let mut i: usize = 0;
    while i < n
        invariant
            n == status@.len(),
            i <= n,
            (out@, word@) == status_scan(status@.subrange(0, i as int)),
        decreases n - i,
    {
        let c = status.get_char(i);
        proof {
            let pre = status@.subrange(0, i as int + 1);
            assert(pre.drop_last() =~= status@.subrange(0, i as int));
        }
        if space(c) {
            flush(&mut out, word.as_str());
            word = String::new();
        } else {
            push_char(&mut word, c);
        }
        i = i + 1;
    }
    assert(status@.subrange(0, n as int) =~= status@);
    flush(&mut out, word.as_str());
    out
}

/// Header block of a framed response.
pub open spec fn header_text(status: Seq<char>, len: nat, mime: Seq<char>) -> Seq<char> {
    status + "\r\nContent-Length: "@ + dec(len) + "\r\nContent-Type: "@ + mime + "\r\n\r\n"@
}

/// A response as it goes on the wire: the header block, then the body.
pub open spec fn framed(r: Response) -> Seq<u8> {
    encode_utf8(header_text(r.status@, r.content@.len(), r.mime_type@)) + r.content@
}

/// Frames a response for the wire.
pub fn prepend_headers(resp: Response) -> (r: Vec<u8>)
    ensures
        r@ == framed(resp),
{
    let mut head = String::new();
    push_str(&mut head, resp.status.as_str());
    push_str(&mut head, "\r\nContent-Length: ");
    push_dec(&mut head, resp.content.len() as u128);
    push_str(&mut head, "\r\nContent-Type: ");
    push_str(&mut head, resp.mime_type.as_str());
    push_str(&mut head, "\r\n\r\n");
    assert(head@ =~= header_text(resp.status@, resp.content@.len(), resp.mime_type@));
    let mut wire = head.as_str().as_bytes_vec();
    let mut content = resp.content;
    wire.append(&mut content);
    wire
}

/// What a connection sends back and what it logs.
#[derive(Clone, Debug)]
pub struct Exchange {
    pub wire: Vec<u8>,
    pub log: Log,
}

/// The response served for a request, given what its provider returned
/// (`None` where it found nothing).
pub open spec fn served(req: RequestInfo, outcome: Option<Response>) -> bool {
    routed(req) && outcome is Some
}

/// Completes a connection: the provider's response where the request was
/// routed and the provider found something, else the not-found response;
/// framed for the wire, and the log event for it.
pub fn respond(req: RequestInfo, outcome: Option<Response>, cxn_time: Stamp, start_time: Stamp) -> (r: Exchange)
    ensures
        served(req, outcome) ==> r.wire@ == framed(outcome->0)
            && r.log.status@ == status_summary(outcome->0.status@)
            && r.log.length == outcome->0.content@.len(),
        !served(req, outcome) ==> r.log.status@ == status_summary(NOT_FOUND_STATUS@)
            && r.log.length == encode_utf8(NOT_FOUND_BODY@).len()
            && r.wire@ == encode_utf8(
                header_text(NOT_FOUND_STATUS@, encode_utf8(NOT_FOUND_BODY@).len(), NOT_FOUND_MIME@),
            ) + encode_utf8(NOT_FOUND_BODY@),
        !routed(req) ==> r.log.status@ == status_summary(NOT_FOUND_STATUS@),
        req.host is None ==> host_text(r.log.host) == NONE_TEXT@,
        req.path is None ==> opt_text(r.log.path) == NONE_TEXT@,
        r.log.path == req.path,
        r.log.host == req.host,
        r.log.user_agent == req.user_agent,
        r.log.ip == req.ip,
        r.log.referer == req.referer,
        r.log.cxn_time == cxn_time,
        r.log.start_time == start_time,
{
    let routed_req = route(&req);
    let resp = match (routed_req, outcome) {
        (Some(_), Some(v)) => v,
        _ => not_found(),
    };
    let status = summarize_status(resp.status.as_str());
    let length = resp.content.len();
    let wire = prepend_headers(resp);
    let log = Log {
        path: req.path,
        host: req.host,
        user_agent: req.user_agent,
        ip: req.ip,
        referer: req.referer,
        status,
        length,
        cxn_time,
        start_time,
    };
    Exchange { wire, log }
}

} // verus!
