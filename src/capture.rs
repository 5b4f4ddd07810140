//! Turning the raw parts of an inbound request into a [`HttpRequest`]:
//! target reconstruction, query decoding, header and body text.

use vstd::prelude::*;
use vstd::utf8::{decode_utf8, valid_utf8};

use crate::record::{pairs_view, HttpRequest};
use crate::text::{chars_of, string_of};

verus! {

/// What `urlencoding::decode` yields for a text: the percent-decoded text, or
/// `None` where the decoded bytes are not UTF-8.
pub uninterp spec fn url_decoded(s: Seq<char>) -> Option<Seq<char>>;

/// What `String::from_utf8_lossy` yields for a byte sequence.
pub uninterp spec fn lossy_text(b: Seq<u8>) -> Seq<char>;

/// Relies on `urlencoding::decode`: percent-decodes `s`; a text without `%` comes back as it is.
#[verifier::external_body]
fn url_decode(s: &str) -> (r: Option<String>)
    ensures
        match r {
            Some(t) => url_decoded(s@) == Some(t@),
            None => url_decoded(s@) is None,
        },
        !s@.contains('%') ==> (r is Some && r->Some_0@ == s@),
{
    match urlencoding::decode(s) {
        Ok(t) => Some(t.into_owned()),
        Err(_) => None,
    }
}

/// Relies on `std::str::from_utf8`: succeeds exactly on valid UTF-8, with the encoded characters.
#[verifier::external_body]
fn utf8_text(b: &[u8]) -> (r: Option<String>)
    ensures
        r is Some <==> valid_utf8(b@),
        r is Some ==> r->Some_0@ == decode_utf8(b@),
{
    match std::str::from_utf8(b) {
        Ok(t) => Some(t.to_string()),
        Err(_) => None,
    }
}

/// Relies on `String::from_utf8_lossy`: invalid sequences become U+FFFD; valid UTF-8 is kept as it is.
#[verifier::external_body]
fn lossy_utf8(b: &[u8]) -> (r: String)
    ensures
        r@ == lossy_text(b@),
        valid_utf8(b@) ==> r@ == decode_utf8(b@),
{
    String::from_utf8_lossy(b).into_owned()
}

/// The pieces of `s` between occurrences of `sep`, as `str::split` gives them:
/// there is always at least one piece, and empty pieces are kept.
pub open spec fn split_on(s: Seq<char>, sep: char) -> Seq<Seq<char>>
    decreases s.len(),
{
    if s.len() == 0 {
        seq![Seq::<char>::empty()]
    } else {
        let r = split_on(s.drop_last(), sep);
        if s.last() == sep {
            r.push(Seq::<char>::empty())
        } else {
            r.update(r.len() - 1, r.last().push(s.last()))
        }
    }
}

/// A query piece split at its first `=`: the key, and the value if there is an `=`.
pub open spec fn key_value(p: Seq<char>) -> (Seq<char>, Option<Seq<char>>)
    decreases p.len(),
{
    if p.len() == 0 {
        (Seq::<char>::empty(), None)
    } else if p[0] == '=' {
        (Seq::<char>::empty(), Some(p.drop_first()))
    } else {
        let kv = key_value(p.drop_first());
        (seq![p[0]] + kv.0, kv.1)
    }
}

/// A percent-decoded text, or the empty text where it cannot be decoded.
pub open spec fn decoded_or_empty(s: Seq<char>) -> Seq<char> {
    match url_decoded(s) {
        Some(t) => t,
        None => Seq::<char>::empty(),
    }
}

/// A raw `(key, value)` pair decoded: each part percent-decoded on its own,
/// and a missing value read as the empty text.
pub open spec fn decoded_entry(kv: (Seq<char>, Option<Seq<char>>)) -> (Seq<char>, Seq<char>) {
    (
        decoded_or_empty(kv.0),
        match kv.1 {
            Some(v) => decoded_or_empty(v),
            None => Seq::<char>::empty(),
        },
    )
}

/// The decoded `(key, value)` entry of one query piece; a piece with no `=`
/// has the empty value.
pub open spec fn query_entry(p: Seq<char>) -> (Seq<char>, Seq<char>) {
    decoded_entry(key_value(p))
}

/// The raw `(key, value)` pairs of a query, one per `&`-separated piece.
pub open spec fn raw_pairs_of(q: Seq<char>) -> Seq<(Seq<char>, Option<Seq<char>>)> {
    split_on(q, '&').map_values(|p: Seq<char>| key_value(p))
}

pub open spec fn raw_pair_view(p: (String, Option<String>)) -> (Seq<char>, Option<Seq<char>>) {
    (
        p.0@,
        match p.1 {
            Some(v) => Some(v@),
            None => None,
        },
    )
}

pub open spec fn raw_pairs_view(v: Seq<(String, Option<String>)>) -> Seq<(Seq<char>, Option<Seq<char>>)> {
    v.map_values(|p: (String, Option<String>)| raw_pair_view(p))
}

/// The decoded parameters of a raw query, one per `&`-separated piece, in order.
pub open spec fn query_params_of(q: Seq<char>) -> Seq<(Seq<char>, Seq<char>)> {
    split_on(q, '&').map_values(|p: Seq<char>| query_entry(p))
}

proof fn lemma_key_value_at(p: Seq<char>, i: int)
    requires
        0 <= i <= p.len(),
        forall|j: int| 0 <= j < i ==> p[j] != '=',
    ensures
        i < p.len() && p[i] == '=' ==> key_value(p) == (p.subrange(0, i), Some(
            p.subrange(i + 1, p.len() as int),
        )),
        i == p.len() ==> key_value(p) == (p, None::<Seq<char>>),
    decreases i,
{
    if i > 0 {
        lemma_key_value_at(p.drop_first(), i - 1);
        assert(p.drop_first().subrange(0, i - 1) =~= p.subrange(1, i));
        assert(seq![p[0]] + p.subrange(1, i) =~= p.subrange(0, i));
        if i < p.len() {
            assert(p.drop_first().subrange(i, p.len() - 1) =~= p.subrange(i + 1, p.len() as int));
        }
        assert(seq![p[0]] + p.drop_first() =~= p);
    } else {
        if p.len() > 0 {
            assert(p.subrange(1, p.len() as int) =~= p.drop_first());
        }
        assert(p.subrange(0, 0) =~= Seq::<char>::empty());
    }
}

/// Percent-decodes a text; where decoding fails the result is empty.
pub fn decode_or_empty(s: &str) -> (r: String)
    ensures
        r@ == decoded_or_empty(s@),
{
    match url_decode(s) {
        Some(d) => d,
        None => String::new(),
    }
}

/// One query piece split at its first `=` (see [`key_value`]).
pub fn split_piece(p: &Vec<char>) -> (r: (String, Option<String>))
    ensures
        raw_pair_view(r) == key_value(p@),
{
    let mut i: usize = 0;
    while i < p.len() && p[i] != '='
        invariant
            i <= p@.len(),
            forall|j: int| 0 <= j < i ==> p@[j] != '=',
        decreases p@.len() - i,
    {
        i = i + 1;
    }
    proof {
        lemma_key_value_at(p@, i as int);
    }
    let mut key: Vec<char> = Vec::new();
    let mut j: usize = 0;
    while j < i
        invariant
            j <= i <= p@.len(),
            key@ == p@.subrange(0, j as int),
        decreases i - j,
    {
        key.push(p[j]);
        j = j + 1;
        assert(key@ =~= p@.subrange(0, j as int));
    }
    proof {
        assert(p@.subrange(0, p@.len() as int) =~= p@);
    }
    let k = string_of(key.as_slice());
    if i < p.len() {
        let mut value: Vec<char> = Vec::new();
        let mut m: usize = i + 1;
        while m < p.len()
            invariant
                i + 1 <= m <= p@.len(),
                value@ == p@.subrange(i + 1, m as int),
            decreases p@.len() - m,
        {
            value.push(p[m]);
            m = m + 1;
            assert(value@ =~= p@.subrange(i + 1, m as int));
        }
        (k, Some(string_of(value.as_slice())))
    } else {
        (k, None)
    }
}

/// Decodes one raw pair (see [`decoded_entry`]).
pub fn decode_entry(kv: &(String, Option<String>)) -> (r: (String, String))
    ensures
        (r.0@, r.1@) == decoded_entry(raw_pair_view(*kv)),
{
    let k = decode_or_empty(kv.0.as_str());
    match &kv.1 {
        Some(v) => (k, decode_or_empty(v.as_str())),
        None => (k, String::new()),
    }
}

/// The raw `(key, value)` pairs of a query string, before any decoding:
/// one per `&`-separated piece, in order, empty pieces included.
pub fn split_query(q: &str) -> (r: Vec<(String, Option<String>)>)
    ensures
        raw_pairs_view(r@) == raw_pairs_of(q@),
{
    let cs = chars_of(q);
    let mut r: Vec<(String, Option<String>)> = Vec::new();
    let mut cur: Vec<char> = Vec::new();
    let mut i: usize = 0;
    proof {
        assert(cs@.subrange(0, 0) =~= Seq::<char>::empty());
    }
    while i < cs.len()
        invariant
            i <= cs@.len(),
            cs@ == q@,
            split_on(cs@.subrange(0, i as int), '&').len() >= 1,
            cur@ == split_on(cs@.subrange(0, i as int), '&').last(),
            raw_pairs_view(r@) == split_on(cs@.subrange(0, i as int), '&').drop_last().map_values(
                |p: Seq<char>| key_value(p),
            ),
        decreases cs@.len() - i,
    {
        let c = cs[i];
        let ghost pre = cs@.subrange(0, i as int);
        let ghost sp = split_on(pre, '&');
        proof {
            assert(cs@.subrange(0, i + 1).drop_last() =~= pre);
        }
        if c == '&' {
            let e = split_piece(&cur);
            let ghost before = r@;
            r.push(e);
            cur = Vec::new();
            proof {
                let np = split_on(cs@.subrange(0, i + 1), '&');
                assert(np == sp.push(Seq::<char>::empty()));
                assert(np.drop_last() =~= sp);
                assert(sp =~= sp.drop_last().push(sp.last()));
                assert(raw_pairs_view(r@) =~= raw_pairs_view(before).push(raw_pair_view(e)));
                assert(np.drop_last().map_values(|p: Seq<char>| key_value(p)) =~= sp.drop_last().map_values(
                    |p: Seq<char>| key_value(p),
                ).push(key_value(sp.last())));
                assert(cur@ =~= np.last());
            }
        } else {
            cur.push(c);
            proof {
                let np = split_on(cs@.subrange(0, i + 1), '&');
                assert(np == sp.update(sp.len() - 1, sp.last().push(c)));
                assert(np.drop_last() =~= sp.drop_last());
            }
        }
        i = i + 1;
    }
    let e = split_piece(&cur);
    let ghost before = r@;
    r.push(e);
    proof {
        let sp = split_on(cs@.subrange(0, i as int), '&');
        assert(cs@.subrange(0, i as int) =~= q@);
        assert(sp =~= sp.drop_last().push(sp.last()));
        assert(raw_pairs_view(r@) =~= raw_pairs_view(before).push(raw_pair_view(e)));
        assert(sp.map_values(|p: Seq<char>| key_value(p)) =~= sp.drop_last().map_values(
            |p: Seq<char>| key_value(p),
        ).push(key_value(sp.last())));
    }
    r
}

/// The decoded parameters of a raw query string (the text after `?`):
/// one entry per `&`-separated piece, in order, duplicates kept.
pub fn parse_query(q: &str) -> (r: Vec<(String, String)>)
    ensures
        pairs_view(r@) == query_params_of(q@),
{
    let raw = split_query(q);
    let ghost rv = raw_pairs_view(raw@);
    let mut r: Vec<(String, String)> = Vec::new();
    let mut i: usize = 0;
    while i < raw.len()
        invariant
            i <= raw@.len(),
            rv == raw_pairs_view(raw@),
            rv == raw_pairs_of(q@),
            pairs_view(r@) == rv.subrange(0, i as int).map_values(
                |kv: (Seq<char>, Option<Seq<char>>)| decoded_entry(kv),
            ),
        decreases raw@.len() - i,
    {
        let e = decode_entry(&raw[i]);
        let ghost before = r@;
        r.push(e);
        proof {
            assert(rv[i as int] == raw_pair_view(raw@[i as int]));
            assert(pairs_view(r@) =~= pairs_view(before).push((e.0@, e.1@)));
            assert(rv.subrange(0, i + 1).map_values(|kv: (Seq<char>, Option<Seq<char>>)| decoded_entry(kv))
                =~= rv.subrange(0, i as int).map_values(
                |kv: (Seq<char>, Option<Seq<char>>)| decoded_entry(kv),
            ).push(decoded_entry(rv[i as int])));
        }
        i = i + 1;
    }
    proof {
        assert(rv.subrange(0, rv.len() as int) =~= rv);
        assert(rv.map_values(|kv: (Seq<char>, Option<Seq<char>>)| decoded_entry(kv)) =~= query_params_of(q@));
    }
    r
}

/// The text that stands for a header value that is not valid UTF-8.
pub open spec fn binary_sentinel() -> Seq<char> {
    "<binary>"@
}

/// The recorded text of a header value: the value itself when it is valid
/// UTF-8, otherwise the sentinel.
pub open spec fn header_value_text(b: Seq<u8>) -> Seq<char> {
    if valid_utf8(b) {
        decode_utf8(b)
    } else {
        binary_sentinel()
    }
}

/// The recorded headers: names as given, values as text, order and duplicates kept.
pub open spec fn headers_of(h: Seq<(String, Vec<u8>)>) -> Seq<(Seq<char>, Seq<char>)> {
    h.map_values(|p: (String, Vec<u8>)| (p.0@, header_value_text(p.1@)))
}

/// The recorded path: the target path, with `?` and the raw query appended
/// when the target has a query.
pub open spec fn full_path(path: Seq<char>, query: Option<Seq<char>>) -> Seq<char> {
    match query {
        Some(q) => path + seq!['?'] + q,
        None => path,
    }
}

pub open spec fn opt_view(q: Option<&str>) -> Option<Seq<char>> {
    match q {
        Some(s) => Some(s@),
        None => None,
    }
}

/// The text of one header value (see [`header_value_text`]).
pub fn header_text(b: &[u8]) -> (r: String)
    ensures
        r@ == header_value_text(b@),
{
    match utf8_text(b) {
        Some(t) => t,
        None => "<binary>".to_owned(),
    }
}

/// The recorded path of a request target (see [`full_path`]).
pub fn join_target(path: &str, query: Option<&str>) -> (r: String)
    ensures
        r@ == full_path(path@, opt_view(query)),
{
    match query {
        None => path.to_owned(),
        Some(q) => {
            let mut cs = chars_of(path);
            cs.push('?');
            let qs = chars_of(q);
            let ghost start = cs@;
            let mut i: usize = 0;
            while i < qs.len()
                invariant
                    i <= qs@.len(),
                    cs@ == start + qs@.subrange(0, i as int),
                decreases qs@.len() - i,
            {
                cs.push(qs[i]);
                i = i + 1;
                assert(cs@ =~= start + qs@.subrange(0, i as int));
            }
            assert(qs@.subrange(0, qs@.len() as int) =~= qs@);
            string_of(cs.as_slice())
        },
    }
}

/// The recorded headers of a request (see [`headers_of`]).
pub fn decode_headers(h: &Vec<(String, Vec<u8>)>) -> (r: Vec<(String, String)>)
    ensures
        pairs_view(r@) == headers_of(h@),
{
    let mut r: Vec<(String, String)> = Vec::new();
    let mut i: usize = 0;
    while i < h.len()
        invariant
            i <= h@.len(),
            pairs_view(r@) == headers_of(h@.subrange(0, i as int)),
        decreases h@.len() - i,
    {
        let name = h[i].0.clone();
        let value = header_text(h[i].1.as_slice());
        let ghost before = r@;
        r.push((name, value));
        proof {
            assert(h@.subrange(0, i + 1) =~= h@.subrange(0, i as int).push(h@[i as int]));
            assert(pairs_view(r@) =~= pairs_view(before).push((name@, value@)));
            assert(headers_of(h@.subrange(0, i + 1)) =~= headers_of(h@.subrange(0, i as int)).push(
                (h@[i as int].0@, header_value_text(h@[i as int].1@)),
            ));
        }
        i = i + 1;
    }
    assert(h@.subrange(0, h@.len() as int) =~= h@);
    r
}

/// Builds the record of one request from its raw parts. Nothing is rejected:
/// undecodable query parts become empty, non-UTF-8 header values the
/// sentinel, and the body is decoded lossily while `body_size` keeps the
/// exact byte count.
pub fn capture_request(
    timestamp: String,
    method: String,
    target_path: &str,
    query: Option<&str>,
    headers: &Vec<(String, Vec<u8>)>,
    remote_addr: String,
    body: &[u8],
) -> (r: HttpRequest)
    ensures
        r@.timestamp == timestamp@,
        r@.method == method@,
        r@.path == full_path(target_path@, opt_view(query)),
        r@.query_params == match query {
            Some(q) => query_params_of(q@),
            None => Seq::<(Seq<char>, Seq<char>)>::empty(),
        },
        r@.headers == headers_of(headers@),
        r@.remote_addr == remote_addr@,
        r@.body == lossy_text(body@),
        valid_utf8(body@) ==> r@.body == decode_utf8(body@),
        r@.body_size == body@.len(),
{
    let path = join_target(target_path, query);
    let query_params = match query {
        Some(q) => parse_query(q),
        None => Vec::new(),
    };
    proof {
        if query is None {
            assert(pairs_view(query_params@) =~= Seq::<(Seq<char>, Seq<char>)>::empty());
        }
    }
    let hs = decode_headers(headers);
    let text = lossy_utf8(body);
    HttpRequest {
        timestamp,
        method,
        path,
        query_params,
        headers: hs,
        remote_addr,
        body: text,
        body_size: body.len(),
    }
}

/// Relies on chrono's `Local::now`, formatted as `%Y-%m-%d %H:%M:%S%.3f`: the
/// local wall-clock time to the millisecond. Nothing is promised of its value.
#[verifier::external_body]
fn local_timestamp() -> (r: String) {
    chrono::Local::now().format("%Y-%m-%d %H:%M:%S%.3f").to_string()
}

/// Builds the record of a request completing now: as [`capture_request`],
/// stamped with the current local time.
pub fn capture_now(
    method: String,
    target_path: &str,
    query: Option<&str>,
    headers: &Vec<(String, Vec<u8>)>,
    remote_addr: String,
    body: &[u8],
) -> (r: HttpRequest)
    ensures
        r@.method == method@,
        r@.path == full_path(target_path@, opt_view(query)),
        r@.query_params == match query {
            Some(q) => query_params_of(q@),
            None => Seq::<(Seq<char>, Seq<char>)>::empty(),
        },
        r@.headers == headers_of(headers@),
        r@.remote_addr == remote_addr@,
        r@.body == lossy_text(body@),
        r@.body_size == body@.len(),
{
    let timestamp = local_timestamp();
    capture_request(timestamp, method, target_path, query, headers, remote_addr, body)
}

} // verus!
