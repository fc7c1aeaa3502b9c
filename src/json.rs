//! JSON string tokens: quoting, unquoting, and finding where a token ends.
use vstd::prelude::*;

verus! {

/// The JSON string token that stands for `s`.
pub uninterp spec fn json_quoted(s: Seq<char>) -> Seq<char>;

/// The text that the JSON text `text` holds as a string, if it holds one.
pub uninterp spec fn json_string_value(text: Seq<char>) -> Option<Seq<char>>;

/// The position of the quote that closes a string token whose contents
/// start at `i`: a backslash escapes the character after it.
pub open spec fn closing(t: Seq<char>, i: int) -> Option<int>
    decreases t.len() - i,
{
    if i < 0 || i >= t.len() {
        None
    } else if t[i] == '"' {
        Some(i)
    } else if t[i] == '\\' {
        if i + 1 < t.len() {
            closing(t, i + 2)
        } else {
            None
        }
    } else {
        closing(t, i + 1)
    }
}

/// Whether `q` is one whole string token: a quote, contents, and the quote
/// that closes them.
pub open spec fn whole_token(q: Seq<char>) -> bool {
    q.len() >= 2 && q[0] == '"' && closing(q, 1) == Some(q.len() - 1)
}

/// Relies on `serde_json::to_string` on a `str`: a quote, the characters
/// with `"` and `\` and control characters written as escapes that start
/// with a backslash, and a closing quote; `serde_json::from_str` reads the
/// string back. Writing into a `Vec` cannot fail.
#[verifier::external_body]
pub(crate) fn quote(s: &str) -> (r: Result<String, ()>)
    ensures
        r is Ok,
        r matches Ok(q) ==> q@ == json_quoted(s@),
        r matches Ok(q) ==> whole_token(q@),
        r matches Ok(q) ==> json_string_value(q@) == Some(s@),
{
    match serde_json::to_string(s) {
        Ok(q) => Ok(q),
        Err(_) => Err(()),
    }
}

/// Relies on `serde_json::from_str::<String>`.
#[verifier::external_body]
pub(crate) fn unquote(text: &str) -> (r: Option<String>)
    ensures
        r is Some <==> json_string_value(text@) is Some,
        r matches Some(s) ==> json_string_value(text@) == Some(s@),
{
    match serde_json::from_str::<String>(text) {
        Ok(s) => Some(s),
        Err(_) => None,
    }
}

/// `closing` looks only forward from where it starts, up to the quote it finds.
pub proof fn lemma_closing_shift(pre: Seq<char>, q: Seq<char>, post: Seq<char>, i: int)
    requires
        0 <= i,
        closing(q, i) is Some,
    ensures
        closing(pre + q + post, pre.len() + i) == Some(pre.len() + closing(q, i)->Some_0),
    decreases q.len() - i,
{
    let t = pre + q + post;
    assert(t[pre.len() + i] == q[i]);
    if q[i] == '"' {
    } else if q[i] == '\\' {
        lemma_closing_shift(pre, q, post, i + 2);
        assert(pre.len() + i + 2 == pre.len() + (i + 2));
    } else {
        lemma_closing_shift(pre, q, post, i + 1);
        assert(pre.len() + i + 1 == pre.len() + (i + 1));
    }
}

/// The token that starts at `p`, and the position after it.
pub open spec fn token_at(t: Seq<char>, p: int) -> Option<(Seq<char>, int)> {
    if 0 <= p < t.len() && t[p] == '"' {
        match closing(t, p + 1) {
            Some(e) => Some((t.subrange(p, e + 1), e + 1)),
            None => None,
        }
    } else {
        None
    }
}

/// Finds the string token that starts at position `p` of `t`, whose length
/// in characters is `n`.
pub(crate) fn token(t: &str, n: usize, p: usize) -> (r: Option<(String, usize)>)
    requires
        n == t@.len(),
    ensures
        r is None ==> token_at(t@, p as int) is None,
        r matches Some(v) ==> token_at(t@, p as int) == Some((v.0@, v.1 as int)),
        r matches Some(v) ==> v.1 <= n,
{
    if p >= n || t.get_char(p) != '"' {
        return None;
    }
    let mut i: usize = p + 1;
    while i < n
        invariant
            n == t@.len(),
            p < n,
            t@[p as int] == '"',
            p + 1 <= i,
            closing(t@, p + 1) == closing(t@, i as int),
        decreases n - i,
    {
        let c = t.get_char(i);
        if c == '"' {
            let q = t.substring_char(p, i + 1);
            return Some((q.to_string(), i + 1));
        }
        if c == '\\' {
            if i + 1 >= n {
                return None;
            }
            i = i + 2;
        } else {
            i = i + 1;
        }
    }
    None
}

/// Whether `lit` stands in `t` at position `p`.
pub(crate) fn literal_at(t: &str, n: usize, p: usize, lit: &str) -> (r: bool)
    requires
        n == t@.len(),
    ensures
        r == (p + lit@.len() <= n && t@.subrange(p as int, p + lit@.len()) == lit@),
{
    let m = lit.unicode_len();
    if p > n || m > n - p {
        return false;
    }
    let mut k: usize = 0;
    while k < m
        invariant
            n == t@.len(),
            m == lit@.len(),
            p + m <= n,
            k <= m,
            t@.subrange(p as int, p + k) == lit@.subrange(0, k as int),
        decreases m - k,
    {
        if t.get_char(p + k) != lit.get_char(k) {
            assert(t@.subrange(p as int, p + m)[k as int] != lit@[k as int]);
            return false;
        }
        assert(t@.subrange(p as int, p + k + 1) =~= lit@.subrange(0, k + 1));
        k = k + 1;
    }
    assert(lit@.subrange(0, m as int) =~= lit@);
    true
}

} // verus!
