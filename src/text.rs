//! How single values are written inside a rendered line.
use vstd::prelude::*;
use crate::json::{Json, quote, quoted_of, compact, compact_text, no_esc, plain};

verus! {

/// A character that may stand unquoted after `key=`: printable ASCII other
/// than space and `=`.
pub open spec fn bare_char(c: char) -> bool {
    '!' <= c && c <= '~' && c != '='
}

/// Whether every character of `s` may stand unquoted.
pub open spec fn all_bare(s: Seq<char>) -> bool {
    forall|i: int| 0 <= i < s.len() ==> bare_char(#[trigger] s[i])
}

/// `s` as written after `key=`: bare where that is safe, else a JSON literal.
pub open spec fn shown(s: Seq<char>) -> Seq<char> {
    if all_bare(s) { s } else { quoted_of(s) }
}

/// `v` as written after `key=`: a string as `shown`, anything else as
/// compact JSON.
pub open spec fn atom_text(v: Json) -> Seq<char> {
    match v {
        Json::Str(s) => shown(s@),
        _ => compact_text(v),
    }
}

/// ` key=value` for a present, non-empty string; nothing otherwise.
pub open spec fn kv_text(key: Seq<char>, val: Option<Seq<char>>) -> Seq<char> {
    match val {
        Some(s) => if s.len() > 0 { " "@ + key + "="@ + shown(s) } else { Seq::empty() },
        None => Seq::empty(),
    }
}

/// `s` without its trailing run of `c`.
pub open spec fn strip_end(s: Seq<char>, c: char) -> Seq<char>
    decreases s.len(),
{
    if s.len() > 0 && s.last() == c {
        strip_end(s.drop_last(), c)
    } else {
        s
    }
}

/// A six-place decimal with its trailing zeros and then its trailing point
/// removed, and a negative zero written as `0`.
pub open spec fn trimmed_decimal(six: Seq<char>) -> Seq<char> {
    let t = strip_end(strip_end(six, '0'), '.');
    if t == "-0"@ { "0"@ } else { t }
}

/// ` key=number` for a present number, given as its six-place decimal.
pub open spec fn kv_num_text(key: Seq<char>, six: Option<Seq<char>>) -> Seq<char> {
    match six {
        Some(d) => " "@ + key + "="@ + trimmed_decimal(d),
        None => Seq::empty(),
    }
}

/// The characters of an optional string.
pub open spec fn opt_view(o: Option<&str>) -> Option<Seq<char>> {
    match o {
        Some(s) => Some(s@),
        None => None,
    }
}

/// Appends `piece` to `out`; a line stays free of escape characters while
/// its pieces are.
pub fn push_text(out: &mut String, piece: &str)
    ensures
        final(out)@ == old(out)@ + piece@,
        no_esc(old(out)@) && no_esc(piece@) ==> no_esc(final(out)@),
{
    out.append(piece);
}

/// `w` where `b` holds, else 0.
pub open spec fn weight(b: bool, w: int) -> int {
    if b { w } else { 0 }
}

/// `s`, where it is present and non-empty.
pub open spec fn nonempty(s: Option<Seq<char>>) -> Option<Seq<char>> {
    match s {
        Some(t) => if t.len() > 0 { Some(t) } else { None },
        None => None,
    }
}

/// `pre + s + post` for a present, non-empty `s`; nothing otherwise.
pub open spec fn around(pre: Seq<char>, s: Option<Seq<char>>, post: Seq<char>) -> Seq<char> {
    match nonempty(s) {
        Some(t) => pre + t + post,
        None => Seq::empty(),
    }
}

/// The characters of an optional `String`.
pub open spec fn opt_string(o: Option<String>) -> Option<Seq<char>> {
    match o {
        Some(s) => Some(s@),
        None => None,
    }
}

/// Writes `pre + s + post` for a present, non-empty `s`.
pub(crate) fn write_around(pre: &str, s: Option<&str>, post: &str) -> (r: String)
    ensures
        r@ == around(pre@, opt_view(s), post@),
        no_esc(pre@) && no_esc(post@) && (s matches Some(t) ==> no_esc(t@)) ==> no_esc(r@),
{
    match s {
        Some(t) => {
            if t.unicode_len() > 0 {
                let mut r = String::from_str(pre);
                r.append(t);
                r.append(post);
                r
            } else {
                String::new()
            }
        },
        None => String::new(),
    }
}

/// Whether `s` may be written unquoted.
pub fn is_bare(s: &str) -> (r: bool)
    ensures
        r == all_bare(s@),
{
    let n = s.unicode_len();
    let mut i: usize = 0;
    while i < n
        invariant
            n == s@.len(),
            i <= n,
            forall|j: int| 0 <= j < i ==> bare_char(#[trigger] s@[j]),
        decreases n - i,
    {
        let c = s.get_char(i);
        if !('!' <= c && c <= '~' && c != '=') {
            return false;
        }
        i += 1;
    }
    true
}

/// Writes a string value: bare where safe, else as a JSON literal.
pub fn show(s: &str) -> (r: String)
    ensures
        r@ == shown(s@),
        no_esc(r@),
{
    if is_bare(s) {
        String::from_str(s)
    } else {
        quote(s)
    }
}

/// Writes one value of a `key=value` list: a string as `show` writes it,
/// any other value as compact JSON.
pub fn write_json_atom(v: &Json) -> (r: String)
    ensures
        r@ == atom_text(*v),
        plain(*v) ==> no_esc(r@),
{
    match v {
        Json::Str(s) => show(s.as_str()),
        _ => compact(v),
    }
}

/// Writes ` key=value` for a present, non-empty string value.
pub fn write_kv_str(key: &str, val: Option<&str>) -> (r: String)
    ensures
        r@ == kv_text(key@, opt_view(val)),
        no_esc(key@) ==> no_esc(r@),
{
    proof {
        reveal_strlit(" ");
        reveal_strlit("=");
    }
    match val {
        Some(s) => {
            if s.unicode_len() == 0 {
                String::new()
            } else {
                let mut r = String::from_str(" ");
                r.append(key);
                r.append("=");
                let v = show(s);
                r.append(v.as_str());
                r
            }
        },
        None => String::new(),
    }
}

/// Length of `s` once its trailing run of `c` is removed.
fn strip_end_len(s: &str, c: char) -> (r: usize)
    ensures
        r <= s@.len(),
        s@.subrange(0, r as int) == strip_end(s@, c),
{
    let mut j: usize = s.unicode_len();
    assert(s@.subrange(0, j as int) == s@);
    while j > 0 && s.get_char(j - 1) == c
        invariant
            j <= s@.len(),
            strip_end(s@, c) == strip_end(s@.subrange(0, j as int), c),
        decreases j,
    {
        assert(s@.subrange(0, j as int).drop_last() == s@.subrange(0, j - 1));
        j -= 1;
    }
    j
}

/// The trimmed form of a six-place decimal: trailing zeros and then the
/// trailing point removed, negative zero written as `0`.
pub fn trim_decimal(six: &str) -> (r: String)
    ensures
        r@ == trimmed_decimal(six@),
        no_esc(six@) ==> no_esc(r@),
{
    proof {
        reveal_strlit("0");
    }
    let a = strip_end_len(six, '0');
    let t1 = six.substring_char(0, a);
    let b = strip_end_len(t1, '.');
    let t2 = t1.substring_char(0, b);
    if is_minus_zero(t2) {
        String::from_str("0")
    } else {
        String::from_str(t2)
    }
}

/// Whether `s` is `-0`.
fn is_minus_zero(s: &str) -> (r: bool)
    ensures
        r == (s@ == "-0"@),
{
    crate::json::same_text(s, "-0")
}

/// Writes ` key=number` for a present number, given as its six-place decimal.
pub fn write_kv_num(key: &str, six: Option<&str>) -> (r: String)
    ensures
        r@ == kv_num_text(key@, opt_view(six)),
        no_esc(key@) && (six matches Some(d) ==> no_esc(d@)) ==> no_esc(r@),
{
    proof {
        reveal_strlit(" ");
        reveal_strlit("=");
    }
    match six {
        Some(d) => {
            let mut r = String::from_str(" ");
            r.append(key);
            r.append("=");
            let t = trim_decimal(d);
            r.append(t.as_str());
            r
        },
        None => String::new(),
    }
}

} // verus!
