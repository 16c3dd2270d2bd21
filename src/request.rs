//! Reading a request head: the path from the request line, and the `Host`,
//! `User-Agent` and `Referer` headers.

use vstd::prelude::*;
use crate::mycology::parse::{starts_with, trim, trim_end, trim_start};
use crate::server::{Host, IpAddr, RequestInfo};
use crate::text::{is_space, push_char, space};

verus! {

/// Words read so far, and the word being read, after the characters `s`.
pub open spec fn word_scan(s: Seq<char>) -> (Seq<Seq<char>>, Seq<char>)
    decreases s.len(),
{
    if s.len() == 0 {
        (Seq::empty(), Seq::empty())
    } else {
        let (ws, w) = word_scan(s.drop_last());
        if is_space(s.last()) {
            (if w.len() > 0 { ws.push(w) } else { ws }, Seq::empty())
        } else {
            (ws, w.push(s.last()))
        }
    }
}

/// The whitespace-separated words of `s`.
pub open spec fn words(s: Seq<char>) -> Seq<Seq<char>> {
    let (ws, w) = word_scan(s);
    if w.len() > 0 {
        ws.push(w)
    } else {
        ws
    }
}

/// Splits a line into its whitespace-separated words.
pub fn split_words(s: &str) -> (r: Vec<String>)
    ensures
        r.deep_view() == words(s@),
{
    let n = s.unicode_len();
    let mut done: Vec<String> = Vec::new();
    let mut cur = String::new();
    let mut i: usize = 0;
    while i < n
        invariant
            n == s@.len(),
            i <= n,
            (done.deep_view(), cur@) == word_scan(s@.take(i as int)),
        decreases n - i,
    {
        let c = s.get_char(i);
        assert(s@.take(i as int + 1).drop_last() =~= s@.take(i as int));
        if space(c) {
            if cur.as_str().unicode_len() > 0 {
                let ghost d0 = done.deep_view();
                let w = cur;
                done.push(w);
                assert(done.deep_view() =~= d0.push(w@));
            }
            cur = String::new();
        } else {
            push_char(&mut cur, c);
        }
        i = i + 1;
    }
    assert(s@.take(n as int) =~= s@);
    if cur.as_str().unicode_len() > 0 {
        let ghost d0 = done.deep_view();
        let w = cur;
        done.push(w);
        assert(done.deep_view() =~= d0.push(w@));
    }
    done
}

/// The path of a request line: its second word.
pub open spec fn request_path(line: Seq<char>) -> Option<Seq<char>> {
    if words(line).len() >= 2 {
        Some(words(line)[1])
    } else {
        None
    }
}

/// Position of the first colon of `s`.
pub open spec fn first_colon(s: Seq<char>) -> Option<nat>
    decreases s.len(),
{
    if s.len() == 0 {
        None
    } else if s[0] == ':' {
        Some(0)
    } else {
        match first_colon(s.drop_first()) {
            Some(k) => Some(k + 1),
            None => None,
        }
    }
}

/// ASCII letters in lower case, other characters unchanged.
pub open spec fn lower(s: Seq<char>) -> Seq<char> {
    s.map_values(|c: char| if 'A' <= c && c <= 'Z' { ((c as u32) + 32) as char } else { c })
}

/// The header line `l` has the name `key` (compared without case or
/// surrounding whitespace).
pub open spec fn names(l: Seq<char>, key: Seq<char>) -> bool {
    match first_colon(l) {
        Some(k) => lower(trim_end(trim_start(l.take(k as int)))) == key,
        None => false,
    }
}

/// The value of a header line: what follows its first colon, trimmed.
pub open spec fn header_text(l: Seq<char>) -> Seq<char> {
    match first_colon(l) {
        Some(k) => trim_end(trim_start(l.skip(k as int + 1))),
        None => Seq::empty(),
    }
}

/// The value of the last of the header lines `ls` named `key`.
pub open spec fn header_value(ls: Seq<Seq<char>>, key: Seq<char>) -> Option<Seq<char>>
    decreases ls.len(),
{
    if ls.len() == 0 {
        None
    } else if names(ls.last(), key) {
        Some(header_text(ls.last()))
    } else {
        header_value(ls.drop_last(), key)
    }
}

proof fn lemma_first_colon(s: Seq<char>, i: int)
    requires
        0 <= i <= s.len(),
        forall|j: int| 0 <= j < i ==> s[j] != ':',
    ensures
        i < s.len() && s[i] == ':' ==> first_colon(s) == Some(i as nat),
        i == s.len() ==> first_colon(s) is None,
    decreases i,
{
    if i > 0 {
        let t = s.drop_first();
        assert forall|j: int| 0 <= j < i - 1 implies t[j] != ':' by {
            assert(t[j] == s[j + 1]);
        }
        lemma_first_colon(t, i - 1);
        assert(s[0] != ':');
    }
}

fn colon_at(s: &str) -> (r: Option<usize>)
    ensures
        match r {
            Some(k) => k < s@.len() && first_colon(s@) == Some(k as nat),
            None => first_colon(s@) is None,
        },
{
    let n = s.unicode_len();
    let mut i: usize = 0;
    while i < n
        invariant
            n == s@.len(),
            i <= n,
            forall|j: int| 0 <= j < i ==> s@[j] != ':',
        decreases n - i,
    {
        if s.get_char(i) == ':' {
            proof { lemma_first_colon(s@, i as int); }
            return Some(i);
        }
        i = i + 1;
    }
    proof { lemma_first_colon(s@, i as int); }
    None
}

/// The name of `line` is `key`, a name in lower case.
fn is_named(line: &str, key: &str) -> (r: bool)
    ensures
        r == names(line@, key@),
{
    match colon_at(line) {
        None => false,
        Some(k) => {
            let head = line.substring_char(0, k);
            assert(head@ =~= line@.take(k as int));
            let name = trim(head);
            let n = name.unicode_len();
            assert(names(line@, key@) == (lower(name@) == key@));
            assert(lower(name@).len() == n);
            if n != key.unicode_len() {
                return false;
            }
            let mut i: usize = 0;
            while i < n
                invariant
                    n == name@.len(),
                    n == key@.len(),
                    i <= n,
                    names(line@, key@) == (lower(name@) == key@),
                    forall|j: int| 0 <= j < i ==> lower(name@)[j] == key@[j],
                decreases n - i,
            {
                let c = name.get_char(i);
                let l = if 'A' <= c && c <= 'Z' { ((c as u8) + 32) as char } else { c };
                assert(lower(name@)[i as int] == l);
                let kc = key.get_char(i);
                if l != kc {
                    assert(lower(name@)[i as int] != key@[i as int]);
                    assert(lower(name@) != key@);
                    return false;
                }
                i = i + 1;
            }
            assert(lower(name@) =~= key@);
            true
        },
    }
}

fn header_of(line: &str) -> (r: String)
    ensures
        r@ == header_text(line@),
{
    match colon_at(line) {
        None => String::new(),
        Some(k) => {
            let n = line.unicode_len();
            let rest = line.substring_char(k + 1, n);
            assert(rest@ =~= line@.skip(k as int + 1));
            String::from_str(trim(rest))
        },
    }
}

/// A text field as a character sequence, where it is present.
pub open spec fn opt_view(o: Option<String>) -> Option<Seq<char>> {
    match o {
        Some(s) => Some(s@),
        None => None,
    }
}

/// Finds the value of the last header named `key`.
pub fn find_header(headers: &Vec<String>, key: &str) -> (r: Option<String>)
    ensures
        opt_view(r) == header_value(headers.deep_view(), key@),
{
    let mut found: Option<String> = None;
    let mut i: usize = 0;
    while i < headers.len()
        invariant
            i <= headers.len(),
            opt_view(found) == header_value(headers.deep_view().take(i as int), key@),
        decreases headers.len() - i,
    {
        let line = headers[i].as_str();
        let ghost pre = headers.deep_view().take(i as int + 1);
        assert(pre.drop_last() =~= headers.deep_view().take(i as int));
        assert(pre.last() == line@);
        if is_named(line, key) {
            found = Some(header_of(line));
        }
        i = i + 1;
    }
    assert(headers.deep_view().take(headers.len() as int) =~= headers.deep_view());
    found
}

/// Prefix of the `Host` header that names the mycology pages.
pub const MYCOLOGY_PREFIX: &'static str = "mycology.";

/// The virtual host a `Host` header value names.
pub open spec fn host_of(v: Option<Seq<char>>) -> Option<Host> {
    match v {
        None => None,
        Some(h) => if MYCOLOGY_PREFIX@.len() <= h.len() && h.take(MYCOLOGY_PREFIX@.len() as int)
            == MYCOLOGY_PREFIX@ {
            Some(Host::Mycology)
        } else {
            Some(Host::Site)
        },
    }
}

/// Reads a request head: the request line, the header lines, and the
/// client's address.
pub fn parse_head(request_line: &str, headers: &Vec<String>, ip: Option<IpAddr>) -> (r: RequestInfo)
    ensures
        opt_view(r.path) == request_path(request_line@),
        r.host == host_of(header_value(headers.deep_view(), "host"@)),
        opt_view(r.user_agent) == header_value(headers.deep_view(), "user-agent"@),
        opt_view(r.referer) == header_value(headers.deep_view(), "referer"@),
        r.ip == ip,
{
    let ws = split_words(request_line);
    let path = if ws.len() >= 2 {
        Some(ws[1].clone())
    } else {
        None
    };
    let host = match find_header(headers, "host") {
        None => None,
        Some(v) => if starts_with(v.as_str(), MYCOLOGY_PREFIX) {
            Some(Host::Mycology)
        } else {
            Some(Host::Site)
        },
    };
    let user_agent = find_header(headers, "user-agent");
    let referer = find_header(headers, "referer");
    RequestInfo { host, path, user_agent, ip, referer }
}

} // verus!
