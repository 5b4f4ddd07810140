//! The suggested file name under which a captured body is saved.

use vstd::prelude::*;

use crate::record::pairs_view;
use crate::text::{chars_equal, chars_of, push_chars, string_of};

verus! {

/// What `char::is_alphanumeric` says of a character.
pub uninterp spec fn alphanumeric(c: char) -> bool;

/// What `char::is_whitespace` says of a character.
pub uninterp spec fn whitespace(c: char) -> bool;

/// Relies on `char::is_alphanumeric`: whether `c` is alphabetic or numeric in Unicode.
#[verifier::external_body]
fn is_alphanumeric(c: char) -> (r: bool)
    ensures
        r == alphanumeric(c),
{
    c.is_alphanumeric()
}

/// Relies on `char::is_whitespace`: whether `c` has the Unicode `White_Space` property.
#[verifier::external_body]
fn is_whitespace(c: char) -> (r: bool)
    ensures
        r == whitespace(c),
{
    c.is_whitespace()
}

/// The code of a character with ASCII upper case letters lowered.
pub open spec fn lower_code(c: char) -> u32 {
    if 'A' <= c && c <= 'Z' {
        (c as u32 + 32) as u32
    } else {
        c as u32
    }
}

/// Equality of texts up to ASCII case.
pub open spec fn eq_ignoring_ascii_case(a: Seq<char>, b: Seq<char>) -> bool {
    a.len() == b.len() && forall|i: int| 0 <= i < a.len() ==> lower_code(a[i]) == lower_code(b[i])
}

/// The value of the first header named `content-type` in any ASCII case.
pub open spec fn content_type_of(h: Seq<(Seq<char>, Seq<char>)>) -> Option<Seq<char>>
    decreases h.len(),
{
    if h.len() == 0 {
        None
    } else if eq_ignoring_ascii_case(h[0].0, "content-type"@) {
        Some(h[0].1)
    } else {
        content_type_of(h.drop_first())
    }
}

/// The text before the first `c`, or all of `s` when there is none.
pub open spec fn before_first(s: Seq<char>, c: char) -> Seq<char>
    decreases s.len(),
{
    if s.len() == 0 || s[0] == c {
        Seq::<char>::empty()
    } else {
        seq![s[0]] + before_first(s.drop_first(), c)
    }
}

pub open spec fn trim_start(s: Seq<char>) -> Seq<char>
    decreases s.len(),
{
    if s.len() > 0 && whitespace(s[0]) {
        trim_start(s.drop_first())
    } else {
        s
    }
}

pub open spec fn trim_end(s: Seq<char>) -> Seq<char>
    decreases s.len(),
{
    if s.len() > 0 && whitespace(s.last()) {
        trim_end(s.drop_last())
    } else {
        s
    }
}

/// `s` without leading and trailing white space.
pub open spec fn trim(s: Seq<char>) -> Seq<char> {
    trim_end(trim_start(s))
}

/// The file extension for a content type, matched on its media type (the
/// part before `;`, trimmed); `txt` for anything not listed.
pub open spec fn extension_for(t: Seq<char>) -> Seq<char> {
    if t == "application/json"@ {
        "json"@
    } else if t == "application/xml"@ {
        "xml"@
    } else if t == "text/xml"@ {
        "xml"@
    } else if t == "text/html"@ {
        "html"@
    } else if t == "text/css"@ {
        "css"@
    } else if t == "text/javascript"@ {
        "js"@
    } else if t == "application/javascript"@ {
        "js"@
    } else if t == "application/x-www-form-urlencoded"@ {
        "txt"@
    } else if t == "multipart/form-data"@ {
        "txt"@
    } else if t == "text/csv"@ {
        "csv"@
    } else if t == "application/pdf"@ {
        "pdf"@
    } else if t == "image/png"@ {
        "png"@
    } else if t == "image/jpeg"@ {
        "jpg"@
    } else if t == "image/gif"@ {
        "gif"@
    } else if t == "image/svg+xml"@ {
        "svg"@
    } else if t == "application/zip"@ {
        "zip"@
    } else if t == "application/octet-stream"@ {
        "bin"@
    } else {
        "txt"@
    }
}

/// Number of bytes of a character in UTF-8.
pub open spec fn utf8_width(c: char) -> nat {
    if (c as u32) < 0x80 {
        1
    } else if (c as u32) < 0x800 {
        2
    } else if (c as u32) < 0x10000 {
        3
    } else {
        4
    }
}

/// Number of bytes of a text in UTF-8.
pub open spec fn utf8_len(s: Seq<char>) -> nat
    decreases s.len(),
{
    if s.len() == 0 {
        0
    } else {
        utf8_len(s.drop_last()) + utf8_width(s.last())
    }
}

/// The longest prefix of `s` that takes at most `n` bytes in UTF-8.
pub open spec fn truncate_bytes(s: Seq<char>, n: nat) -> Seq<char>
    decreases s.len(),
{
    if utf8_len(s) <= n || s.len() == 0 {
        s
    } else {
        truncate_bytes(s.drop_last(), n)
    }
}

pub open spec fn drop_leading_slashes(s: Seq<char>) -> Seq<char>
    decreases s.len(),
{
    if s.len() > 0 && s[0] == '/' {
        drop_leading_slashes(s.drop_first())
    } else {
        s
    }
}

/// A path character as it stands in a file name: separators become `_`.
pub open spec fn path_char(c: char) -> char {
    if c == '/' || c == '?' || c == '&' || c == '=' {
        '_'
    } else {
        c
    }
}

pub open spec fn keeps_path_char(c: char) -> bool {
    alphanumeric(path_char(c)) || path_char(c) == '_' || path_char(c) == '-'
}

/// The path as it stands in a file name: leading `/` dropped, separators
/// turned into `_`, and only alphanumerics, `_` and `-` kept.
pub open spec fn clean_path(s: Seq<char>) -> Seq<char>
    decreases s.len(),
{
    if s.len() == 0 {
        s
    } else {
        let r = clean_path(s.drop_last());
        if keeps_path_char(s.last()) {
            r.push(path_char(s.last()))
        } else {
            r
        }
    }
}

/// A timestamp character as it stands in a file name: a space becomes `_`.
pub open spec fn stamp_char(c: char) -> char {
    if c == ' ' {
        '_'
    } else {
        c
    }
}

pub open spec fn keeps_stamp_char(c: char) -> bool {
    c != ':' && c != '.' && (alphanumeric(stamp_char(c)) || stamp_char(c) == '_')
}

/// The timestamp as it stands in a file name: spaces turned into `_`, and
/// only alphanumerics and `_` kept.
pub open spec fn clean_stamp(s: Seq<char>) -> Seq<char>
    decreases s.len(),
{
    if s.len() == 0 {
        s
    } else {
        let r = clean_stamp(s.drop_last());
        if keeps_stamp_char(s.last()) {
            r.push(stamp_char(s.last()))
        } else {
            r
        }
    }
}

/// The suggested file name of a body: the cleaned timestamp, `_` and the
/// cleaned path cut to 50 bytes, or `request_` and the timestamp when the
/// path leaves nothing, then `.` and the extension of the content type
/// (`text/plain` when there is no such header).
pub open spec fn file_name(stamp: Seq<char>, path: Seq<char>, h: Seq<(Seq<char>, Seq<char>)>) -> Seq<char> {
    let ct = match content_type_of(h) {
        Some(t) => t,
        None => "text/plain"@,
    };
    let ext = extension_for(trim(before_first(ct, ';')));
    let part = truncate_bytes(clean_path(drop_leading_slashes(path)), 50);
    let when = clean_stamp(stamp);
    if part.len() == 0 {
        "request_"@ + when + "."@ + ext
    } else {
        when + "_"@ + part + "."@ + ext
    }
}

/// The extension for a media type (see [`extension_for`]).
pub fn extension_of(t: &[char]) -> (r: &'static str)
    ensures
        r@ == extension_for(t@),
{
    if chars_equal(t, "application/json") {
        "json"
    } else if chars_equal(t, "application/xml") {
        "xml"
    } else if chars_equal(t, "text/xml") {
        "xml"
    } else if chars_equal(t, "text/html") {
        "html"
    } else if chars_equal(t, "text/css") {
        "css"
    } else if chars_equal(t, "text/javascript") {
        "js"
    } else if chars_equal(t, "application/javascript") {
        "js"
    } else if chars_equal(t, "application/x-www-form-urlencoded") {
        "txt"
    } else if chars_equal(t, "multipart/form-data") {
        "txt"
    } else if chars_equal(t, "text/csv") {
        "csv"
    } else if chars_equal(t, "application/pdf") {
        "pdf"
    } else if chars_equal(t, "image/png") {
        "png"
    } else if chars_equal(t, "image/jpeg") {
        "jpg"
    } else if chars_equal(t, "image/gif") {
        "gif"
    } else if chars_equal(t, "image/svg+xml") {
        "svg"
    } else if chars_equal(t, "application/zip") {
        "zip"
    } else if chars_equal(t, "application/octet-stream") {
        "bin"
    } else {
        "txt"
    }
}

proof fn lemma_before_first_at(s: Seq<char>, c: char, i: int)
    requires
        0 <= i <= s.len(),
        forall|j: int| 0 <= j < i ==> s[j] != c,
        i < s.len() ==> s[i] == c,
    ensures
        before_first(s, c) == s.subrange(0, i),
    decreases i,
{
    if i > 0 {
        lemma_before_first_at(s.drop_first(), c, i - 1);
        assert(seq![s[0]] + s.drop_first().subrange(0, i - 1) =~= s.subrange(0, i));
    } else {
        assert(s.subrange(0, 0) =~= Seq::<char>::empty());
    }
}

proof fn lemma_trim_start_at(s: Seq<char>, i: int)
    requires
        0 <= i <= s.len(),
        forall|j: int| 0 <= j < i ==> whitespace(s[j]),
        i < s.len() ==> !whitespace(s[i]),
    ensures
        trim_start(s) == s.subrange(i, s.len() as int),
    decreases i,
{
    if i > 0 {
        lemma_trim_start_at(s.drop_first(), i - 1);
        assert(s.drop_first().subrange(i - 1, s.len() - 1) =~= s.subrange(i, s.len() as int));
    } else {
        assert(s.subrange(0, s.len() as int) =~= s);
    }
}

proof fn lemma_trim_end_at(s: Seq<char>, k: int)
    requires
        0 <= k <= s.len(),
        forall|j: int| k <= j < s.len() ==> whitespace(s[j]),
        k > 0 ==> !whitespace(s[k - 1]),
    ensures
        trim_end(s) == s.subrange(0, k),
    decreases s.len() - k,
{
    if k < s.len() {
        lemma_trim_end_at(s.drop_last(), k);
        assert(s.drop_last().subrange(0, k) =~= s.subrange(0, k));
    } else {
        assert(s.subrange(0, s.len() as int) =~= s);
    }
}

proof fn lemma_drop_slashes_at(s: Seq<char>, i: int)
    requires
        0 <= i <= s.len(),
        forall|j: int| 0 <= j < i ==> s[j] == '/',
        i < s.len() ==> s[i] != '/',
    ensures
        drop_leading_slashes(s) == s.subrange(i, s.len() as int),
    decreases i,
{
    if i > 0 {
        lemma_drop_slashes_at(s.drop_first(), i - 1);
        assert(s.drop_first().subrange(i - 1, s.len() - 1) =~= s.subrange(i, s.len() as int));
    } else {
        assert(s.subrange(0, s.len() as int) =~= s);
    }
}

proof fn lemma_utf8_len_mono(s: Seq<char>, a: int, b: int)
    requires
        0 <= a <= b <= s.len(),
    ensures
        utf8_len(s.subrange(0, a)) <= utf8_len(s.subrange(0, b)),
    decreases b - a,
{
    if a < b {
        lemma_utf8_len_mono(s, a, b - 1);
        assert(s.subrange(0, b).drop_last() =~= s.subrange(0, b - 1));
    }
}

proof fn lemma_truncate_at(s: Seq<char>, n: nat, k: int)
    requires
        0 <= k <= s.len(),
        utf8_len(s.subrange(0, k)) <= n,
        k < s.len() ==> utf8_len(s.subrange(0, k + 1)) > n,
    ensures
        truncate_bytes(s, n) == s.subrange(0, k),
    decreases s.len() - k,
{
    if k == s.len() {
        assert(s.subrange(0, k) =~= s);
    } else {
        lemma_utf8_len_mono(s, k + 1, s.len() as int);
        assert(s.subrange(0, s.len() as int) =~= s);
        let t = s.drop_last();
        assert(t.subrange(0, k) =~= s.subrange(0, k));
        if k + 1 <= t.len() {
            assert(t.subrange(0, k + 1) =~= s.subrange(0, k + 1));
        }
        lemma_truncate_at(t, n, k);
    }
}

/// Whether two texts are equal up to ASCII case.
pub fn eq_ignore_ascii_case(a: &[char], b: &str) -> (r: bool)
    ensures
        r == eq_ignoring_ascii_case(a@, b@),
{
    let bs = chars_of(b);
    if a.len() != bs.len() {
        return false;
    }
    let mut i: usize = 0;
    while i < a.len()
        invariant
            i <= a@.len(),
            a@.len() == bs@.len(),
            bs@ == b@,
            forall|j: int| 0 <= j < i ==> lower_code(a@[j]) == lower_code(bs@[j]),
        decreases a@.len() - i,
    {
        let x = a[i];
        let y = bs[i];
        let lx: u32 = if 'A' <= x && x <= 'Z' { x as u32 + 32 } else { x as u32 };
        let ly: u32 = if 'A' <= y && y <= 'Z' { y as u32 + 32 } else { y as u32 };
        if lx != ly {
            return false;
        }
        i = i + 1;
    }
    true
}

/// The content type of a header list (see [`content_type_of`]), or
/// `text/plain` when no header names one.
pub fn content_type_or_plain(headers: &[(String, String)]) -> (r: Vec<char>)
    ensures
        r@ == match content_type_of(pairs_view(headers@)) {
            Some(t) => t,
            None => "text/plain"@,
        },
{
    let ghost h = pairs_view(headers@);
    let mut i: usize = 0;
    assert(h.subrange(0, h.len() as int) =~= h);
    while i < headers.len()
        invariant
            i <= headers@.len(),
            h == pairs_view(headers@),
            content_type_of(h) == content_type_of(h.subrange(i as int, h.len() as int)),
        decreases headers@.len() - i,
    {
        let name = chars_of(headers[i].0.as_str());
        proof {
            let t = h.subrange(i as int, h.len() as int);
            assert(t.drop_first() =~= h.subrange(i + 1, h.len() as int));
            assert(t[0] == h[i as int]);
        }
        if eq_ignore_ascii_case(name.as_slice(), "content-type") {
            return chars_of(headers[i].1.as_str());
        }
        i = i + 1;
    }
    chars_of("text/plain")
}

/// The media type of a content type: the part before `;`, trimmed.
pub fn media_type(ct: &[char]) -> (r: Vec<char>)
    ensures
        r@ == trim(before_first(ct@, ';')),
{
    let mut e: usize = 0;
    while e < ct.len() && ct[e] != ';'
        invariant
            e <= ct@.len(),
            forall|j: int| 0 <= j < e ==> ct@[j] != ';',
        decreases ct@.len() - e,
    {
        e = e + 1;
    }
    proof {
        lemma_before_first_at(ct@, ';', e as int);
    }
    let ghost b = ct@.subrange(0, e as int);
    let mut i: usize = 0;
    while i < e && is_whitespace(ct[i])
        invariant
            i <= e <= ct@.len(),
            b == ct@.subrange(0, e as int),
            forall|j: int| 0 <= j < i ==> whitespace(b[j]),
        decreases e - i,
    {
        i = i + 1;
    }
    proof {
        lemma_trim_start_at(b, i as int);
    }
    let ghost t = b.subrange(i as int, b.len() as int);
    let mut k: usize = e;
    while k > i && is_whitespace(ct[k - 1])
        invariant
            i <= k <= e <= ct@.len(),
            b == ct@.subrange(0, e as int),
            t == b.subrange(i as int, b.len() as int),
            forall|j: int| k - i <= j < t.len() ==> whitespace(t[j]),
        decreases k - i,
    {
        k = k - 1;
    }
    proof {
        lemma_trim_end_at(t, k - i);
    }
    let mut r: Vec<char> = Vec::new();
    let mut m: usize = i;
    while m < k
        invariant
            i <= m <= k <= e <= ct@.len(),
            r@ == ct@.subrange(i as int, m as int),
        decreases k - m,
    {
        r.push(ct[m]);
        m = m + 1;
        assert(r@ =~= ct@.subrange(i as int, m as int));
    }
    assert(t.subrange(0, k - i) =~= ct@.subrange(i as int, k as int));
    r
}

/// The path as it stands in a file name (see [`clean_path`]).
pub fn clean_path_chars(path: &[char]) -> (r: Vec<char>)
    ensures
        r@ == clean_path(drop_leading_slashes(path@)),
{
    let mut start: usize = 0;
    while start < path.len() && path[start] == '/'
        invariant
            start <= path@.len(),
            forall|j: int| 0 <= j < start ==> path@[j] == '/',
        decreases path@.len() - start,
    {
        start = start + 1;
    }
    proof {
        lemma_drop_slashes_at(path@, start as int);
    }
    let mut r: Vec<char> = Vec::new();
    let mut i: usize = start;
    assert(path@.subrange(start as int, start as int) =~= Seq::<char>::empty());
    while i < path.len()
        invariant
            start <= i <= path@.len(),
            r@ == clean_path(path@.subrange(start as int, i as int)),
        decreases path@.len() - i,
    {
        let c = path[i];
        let m: char = if c == '/' || c == '?' || c == '&' || c == '=' { '_' } else { c };
        proof {
            assert(path@.subrange(start as int, i + 1).drop_last() =~= path@.subrange(start as int, i as int));
        }
        if m == '_' || m == '-' || is_alphanumeric(m) {
            r.push(m);
        }
        i = i + 1;
    }
    r
}

/// The UTF-8 width of a character (see [`utf8_width`]).
fn char_width(c: char) -> (r: usize)
    ensures
        r == utf8_width(c),
{
    let v = c as u32;
    if v < 0x80 {
        1
    } else if v < 0x800 {
        2
    } else if v < 0x10000 {
        3
    } else {
        4
    }
}

/// The longest prefix of `s` that takes at most `n` bytes in UTF-8.
pub fn truncate_to_bytes(s: &[char], n: usize) -> (r: Vec<char>)
    ensures
        r@ == truncate_bytes(s@, n as nat),
{
    let mut r: Vec<char> = Vec::new();
    let mut used: usize = 0;
    let mut k: usize = 0;
    assert(s@.subrange(0, 0) =~= Seq::<char>::empty());
    while k < s.len() && char_width(s[k]) <= n - used
        invariant
            k <= s@.len(),
            used == utf8_len(s@.subrange(0, k as int)),
            used <= n,
            r@ == s@.subrange(0, k as int),
        decreases s@.len() - k,
    {
        proof {
            assert(s@.subrange(0, k + 1).drop_last() =~= s@.subrange(0, k as int));
        }
        used = used + char_width(s[k]);
        r.push(s[k]);
        k = k + 1;
        assert(r@ =~= s@.subrange(0, k as int));
    }
    proof {
        if k < s@.len() {
            assert(s@.subrange(0, k + 1).drop_last() =~= s@.subrange(0, k as int));
        }
        lemma_truncate_at(s@, n as nat, k as int);
    }
    r
}

/// The timestamp as it stands in a file name (see [`clean_stamp`]).
pub fn clean_stamp_chars(stamp: &[char]) -> (r: Vec<char>)
    ensures
        r@ == clean_stamp(stamp@),
{
    let mut r: Vec<char> = Vec::new();
    let mut i: usize = 0;
    assert(stamp@.subrange(0, 0) =~= Seq::<char>::empty());
    while i < stamp.len()
        invariant
            i <= stamp@.len(),
            r@ == clean_stamp(stamp@.subrange(0, i as int)),
        decreases stamp@.len() - i,
    {
        let c = stamp[i];
        let m: char = if c == ' ' { '_' } else { c };
        proof {
            assert(stamp@.subrange(0, i + 1).drop_last() =~= stamp@.subrange(0, i as int));
        }
        if c != ':' && c != '.' && (m == '_' || is_alphanumeric(m)) {
            r.push(m);
        }
        i = i + 1;
    }
    assert(stamp@.subrange(0, stamp@.len() as int) =~= stamp@);
    r
}

/// The suggested file name for saving the body of a request with this
/// timestamp, path and headers (see [`file_name`]).
pub fn generate_filename(timestamp: &str, path: &str, headers: &[(String, String)]) -> (r: String)
    ensures
        r@ == file_name(timestamp@, path@, pairs_view(headers@)),
{
    let ct = content_type_or_plain(headers);
    let media = media_type(ct.as_slice());
    let ext = extension_of(media.as_slice());
    let path_chars = chars_of(path);
    let cleaned = clean_path_chars(path_chars.as_slice());
    let part = truncate_to_bytes(cleaned.as_slice(), 50);
    let stamp_chars = chars_of(timestamp);
    let when = clean_stamp_chars(stamp_chars.as_slice());
    let ext_chars = chars_of(ext);
    let mut out: Vec<char>;
    if part.len() == 0 {
        out = chars_of("request_");
        push_chars(&mut out, when.as_slice());
    } else {
        out = when;
        out.push('_');
        push_chars(&mut out, part.as_slice());
    }
    out.push('.');
    push_chars(&mut out, ext_chars.as_slice());
    let r = string_of(out.as_slice());
    proof {
        reveal_strlit(".");
        reveal_strlit("_");
        if part@.len() == 0 {
            assert(r@ =~= "request_"@ + clean_stamp(timestamp@) + "."@ + extension_for(media@));
        } else {
            assert(r@ =~= clean_stamp(timestamp@) + "_"@ + part@ + "."@ + extension_for(media@));
        }
    }
    r
}

} // verus!
