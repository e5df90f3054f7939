//! Reading the `url` parameter out of an HTTP request target.

use vstd::prelude::*;

verus! {

/// The first index at or after `i` where `s` holds `c`, or `s.len()` when
/// there is none.
pub open spec fn index_from(s: Seq<char>, c: char, i: int) -> int
    decreases s.len() - i,
{
    if i >= s.len() {
        s.len() as int
    } else if s[i] == c {
        i
    } else {
        index_from(s, c, i + 1)
    }
}

/// The segment `t[i..end]` is a parameter whose key is literally `url`.
pub open spec fn has_url_key(t: Seq<char>, i: int, end: int) -> bool {
    &&& end - i >= 4
    &&& t[i] == 'u'
    &&& t[i + 1] == 'r'
    &&& t[i + 2] == 'l'
    &&& t[i + 3] == '='
}

/// The value of the first `url=` parameter among the `&`-separated
/// parameters that start at index `i` of `t`.
pub open spec fn url_value_from(t: Seq<char>, i: int) -> Option<Seq<char>>
    decreases t.len() - i,
{
    if i < 0 || i > t.len() {
        None
    } else {
        let end = index_from(t, '&', i);
        if has_url_key(t, i, end) {
            Some(t.subrange(i + 4, end))
        } else if end < i || end >= t.len() {
            None
        } else {
            url_value_from(t, end + 1)
        }
    }
}

/// The raw (still percent-encoded) value of the `url` query parameter of a
/// request target: the parameters are what follows the first `?`.
pub open spec fn url_param(t: Seq<char>) -> Option<Seq<char>> {
    let q = index_from(t, '?', 0);
    if q >= t.len() {
        None
    } else {
        url_value_from(t, q + 1)
    }
}

proof fn lemma_index_from_bounds(s: Seq<char>, c: char, i: int)
    requires
        0 <= i <= s.len(),
    ensures
        i <= index_from(s, c, i) <= s.len(),
        index_from(s, c, i) < s.len() ==> s[index_from(s, c, i)] == c,
    decreases s.len() - i,
{
    if i < s.len() && s[i] != c {
        lemma_index_from_bounds(s, c, i + 1);
    }
}

/// Finds `c` in `s` from index `i` on.
fn find_from(s: &str, n: usize, c: char, i: usize) -> (r: usize)
    requires
        n == s@.len(),
        i <= n,
    ensures
        r == index_from(s@, c, i as int),
{
    let mut j: usize = i;
    while j < n && s.get_char(j) != c
        invariant
            n == s@.len(),
            i <= j <= n,
            index_from(s@, c, j as int) == index_from(s@, c, i as int),
        decreases n - j,
    {
        j = j + 1;
    }
    j
}

/// The raw value of the `url` query parameter of `target`, if there is one.
pub fn find_url_param(target: &str) -> (r: Option<String>)
    ensures
        match r {
            Some(v) => url_param(target@) == Some(v@),
            None => url_param(target@) is None,
        },
{
    let n = target.unicode_len();
    let q = find_from(target, n, '?', 0);
    if q >= n {
        return None;
    }
    let mut i: usize = q + 1;
    loop
        invariant
            n == target@.len(),
            0 <= i <= n,
            url_value_from(target@, i as int) == url_param(target@),
        decreases n - i,
    {
        let end = find_from(target, n, '&', i);
        proof {
            lemma_index_from_bounds(target@, '&', i as int);
        }
        if end - i >= 4 && target.get_char(i) == 'u' && target.get_char(i + 1) == 'r'
            && target.get_char(i + 2) == 'l' && target.get_char(i + 3) == '=' {
            let v = target.substring_char(i + 4, end);
            return Some(String::from_str(v));
        }
        if end >= n {
            return None;
        }
        i = end + 1;
    }
}

/// Why a request target names no URL to fetch.
#[derive(Debug, Clone, Copy, PartialEq, Eq, Structural)]
pub enum BadRequest {
    /// The target has no `url` query parameter.
    MissingUrl,
    /// The parameter's value does not percent-decode to UTF-8 text.
    InvalidEncoding,
}

/// The text that percent-decoding `s` as UTF-8 gives, or `None` when the
/// decoded bytes are not UTF-8.
pub uninterp spec fn percent_decoded(s: Seq<char>) -> Option<Seq<char>>;

/// Relies on `percent_encoding::percent_decode_str` followed by
/// `PercentDecode::decode_utf8`: the result depends on `s` alone, and text
/// without a `%` decodes to itself.
#[verifier::external_body]
fn percent_decode(s: &str) -> (r: Option<String>)
    ensures
        r is Some <==> percent_decoded(s@) is Some,
        r is Some ==> percent_decoded(s@) == Some(r->Some_0@),
        (forall|i: int| 0 <= i < s@.len() ==> s@[i] != '%') ==> (r is Some && r->Some_0@ == s@),
{
    match percent_encoding::percent_decode_str(s).decode_utf8() {
        Ok(d) => Some(d.into_owned()),
        Err(_) => None,
    }
}

/// What reading the URL out of the request target `t` gives.
pub open spec fn request_url(t: Seq<char>) -> Result<Seq<char>, BadRequest> {
    match url_param(t) {
        None => Err(BadRequest::MissingUrl),
        Some(v) => match percent_decoded(v) {
            None => Err(BadRequest::InvalidEncoding),
            Some(d) => Ok(d),
        },
    }
}

/// The decoded URL that the request target `target` asks to fetch.
pub fn parse_request_target(target: &str) -> (r: Result<String, BadRequest>)
    ensures
        match r {
            Ok(u) => request_url(target@) == Ok::<Seq<char>, BadRequest>(u@),
            Err(e) => request_url(target@) == Err::<Seq<char>, BadRequest>(e),
        },
{
    match find_url_param(target) {
        None => Err(BadRequest::MissingUrl),
        Some(v) => match percent_decode(v.as_str()) {
            None => Err(BadRequest::InvalidEncoding),
            Some(d) => Ok(d),
        },
    }
}

} // verus!
