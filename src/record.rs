//! The captured request record and the rules that turn the raw parts of an
//! inbound request into one.

use vstd::prelude::*;
use crate::text::{chars_equal, chars_of};

verus! {

/// One captured inbound request.
#[derive(Clone, Debug)]
pub struct HttpRequest {
    pub timestamp: String,
    pub method: String,
    pub path: String,
    pub query_params: Vec<(String, String)>,
    pub headers: Vec<(String, String)>,
    pub remote_addr: String,
    pub body: String,
    pub body_size: usize,
}

/// The mathematical content of a captured request.
pub struct RequestRecord {
    pub timestamp: Seq<char>,
    pub method: Seq<char>,
    pub path: Seq<char>,
    pub query_params: Seq<(Seq<char>, Seq<char>)>,
    pub headers: Seq<(Seq<char>, Seq<char>)>,
    pub remote_addr: Seq<char>,
    pub body: Seq<char>,
    pub body_size: nat,
}

pub open spec fn pair_view(p: (String, String)) -> (Seq<char>, Seq<char>) {
    (p.0@, p.1@)
}

pub open spec fn pairs_view(v: Seq<(String, String)>) -> Seq<(Seq<char>, Seq<char>)> {
    v.map_values(|p: (String, String)| pair_view(p))
}

impl View for HttpRequest {
    type V = RequestRecord;

    open spec fn view(&self) -> RequestRecord {
        RequestRecord {
            timestamp: self.timestamp@,
            method: self.method@,
            path: self.path@,
            query_params: pairs_view(self.query_params@),
            headers: pairs_view(self.headers@),
            remote_addr: self.remote_addr@,
            body: self.body@,
            body_size: self.body_size as nat,
        }
    }
}

/// A copy of a list of text pairs, entry for entry.
pub fn copy_pairs(v: &Vec<(String, String)>) -> (r: Vec<(String, String)>)
    ensures
        pairs_view(r@) == pairs_view(v@),
{
    let mut r: Vec<(String, String)> = Vec::new();
    let mut i: usize = 0;
    while i < v.len()
        invariant
            i <= v@.len(),
            pairs_view(r@) == pairs_view(v@.subrange(0, i as int)),
        decreases v@.len() - i,
    {
        let a = v[i].0.clone();
        let b = v[i].1.clone();
        let ghost before = r@;
        r.push((a, b));
        proof {
            assert(pair_view((a, b)) == pair_view(v@[i as int]));
            assert(v@.subrange(0, i + 1) =~= v@.subrange(0, i as int).push(v@[i as int]));
            assert(pairs_view(r@) =~= pairs_view(before).push(pair_view((a, b))));
            assert(pairs_view(v@.subrange(0, i + 1)) =~= pairs_view(v@.subrange(0, i as int)).push(pair_view(v@[i as int])));
        }
        i = i + 1;
    }
    assert(v@.subrange(0, v@.len() as int) =~= v@);
    r
}

impl HttpRequest {
    /// An independent copy of this record, equal to it field for field.
    pub fn duplicate(&self) -> (r: HttpRequest)
        ensures
            r@ == self@,
    {
        HttpRequest {
            timestamp: self.timestamp.clone(),
            method: self.method.clone(),
            path: self.path.clone(),
            query_params: copy_pairs(&self.query_params),
            headers: copy_pairs(&self.headers),
            remote_addr: self.remote_addr.clone(),
            body: self.body.clone(),
            body_size: self.body_size,
        }
    }
}

/// The colour a request method is shown in.
#[derive(PartialEq, Eq, Structural, Clone, Copy, Debug)]
pub enum MethodColor {
    Green,
    Blue,
    Yellow,
    Red,
    White,
}

/// `GET` green, `POST` blue, `PUT` yellow, `DELETE` red, any other method white.
pub open spec fn color_of(method: Seq<char>) -> MethodColor {
    if method == "GET"@ {
        MethodColor::Green
    } else if method == "POST"@ {
        MethodColor::Blue
    } else if method == "PUT"@ {
        MethodColor::Yellow
    } else if method == "DELETE"@ {
        MethodColor::Red
    } else {
        MethodColor::White
    }
}

/// The colour of a request method (see [`color_of`]).
pub fn get_method_color(method: &str) -> (r: MethodColor)
    ensures
        r == color_of(method@),
{
    let m = chars_of(method);
    if chars_equal(m.as_slice(), "GET") {
        MethodColor::Green
    } else if chars_equal(m.as_slice(), "POST") {
        MethodColor::Blue
    } else if chars_equal(m.as_slice(), "PUT") {
        MethodColor::Yellow
    } else if chars_equal(m.as_slice(), "DELETE") {
        MethodColor::Red
    } else {
        MethodColor::White
    }
}

} // verus!
