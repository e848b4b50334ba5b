//! The record model: a JSON value as plain data.
use vstd::prelude::*;

verus! {

/// A decoded JSON value.
///
/// A number is held as its JSON text. An object keeps its members in the
/// order in which its source iterates them.
pub enum Json {
    Null,
    Bool(bool),
    Number(String),
    Str(String),
    Array(Vec<Json>),
    Object(Vec<(String, Json)>),
}

/// The value of the first member named `k`, if any.
pub open spec fn find_member(members: Seq<(String, Json)>, k: Seq<char>) -> Option<Json>
    decreases members.len(),
{
    if members.len() == 0 {
        None
    } else if members[0].0@ == k {
        Some(members[0].1)
    } else {
        find_member(members.drop_first(), k)
    }
}

/// The member `k` of `v`, where `v` is an object that has one.
pub open spec fn member(v: Json, k: Seq<char>) -> Option<Json> {
    match v {
        Json::Object(members) => find_member(members@, k),
        _ => None,
    }
}

/// The text of `v`, where `v` is a string.
pub open spec fn str_of(v: Json) -> Option<Seq<char>> {
    match v {
        Json::Str(s) => Some(s@),
        _ => None,
    }
}

/// The text of the member `k` of `v`, where that member is a string.
pub open spec fn member_str(v: Json, k: Seq<char>) -> Option<Seq<char>> {
    match member(v, k) {
        Some(x) => str_of(x),
        None => None,
    }
}

/// Whether two strings hold the same characters.
pub fn same_text(a: &str, b: &str) -> (r: bool)
    ensures
        r == (a@ == b@),
{
    let n = a.unicode_len();
    if n != b.unicode_len() {
        return false;
    }
    let mut i: usize = 0;
    while i < n
        invariant
            n == a@.len(),
            n == b@.len(),
            i <= n,
            a@.subrange(0, i as int) == b@.subrange(0, i as int),
        decreases n - i,
    {
        if a.get_char(i) != b.get_char(i) {
            return false;
        }
        assert(a@.subrange(0, i + 1) == a@.subrange(0, i as int).push(a@[i as int]));
        assert(b@.subrange(0, i + 1) == b@.subrange(0, i as int).push(b@[i as int]));
        i += 1;
    }
    assert(a@ == a@.subrange(0, n as int));
    assert(b@ == b@.subrange(0, n as int));
    true
}

/// Whether `s` holds no escape character (ESC, `\x1b`).
pub open spec fn no_esc(s: Seq<char>) -> bool {
    forall|i: int| 0 <= i < s.len() ==> s[i] != '\x1b'
}

/// Whether no text in `v` (string, number or member name) holds an escape
/// character.
pub open spec fn plain(v: Json) -> bool
    decreases v, 1nat, 0int,
{
    match v {
        Json::Null => true,
        Json::Bool(_) => true,
        Json::Number(t) => no_esc(t@),
        Json::Str(s) => no_esc(s@),
        Json::Array(items) => items_plain(v, items@.len() as int),
        Json::Object(members) => members_plain(v, members@.len() as int),
    }
}

/// Whether the first `n` elements of the array `v` are plain.
pub open spec fn items_plain(v: Json, n: int) -> bool
    decreases v, 0nat, n,
{
    match v {
        Json::Array(items) => {
            if n <= 0 || n > items@.len() {
                true
            } else {
                items_plain(v, n - 1) && plain(items@[n - 1])
            }
        },
        _ => true,
    }
}

/// Whether the first `n` members of the object `v` are plain, names included.
pub open spec fn members_plain(v: Json, n: int) -> bool
    decreases v, 0nat, n,
{
    match v {
        Json::Object(members) => {
            if n <= 0 || n > members@.len() {
                true
            } else {
                members_plain(v, n - 1) && no_esc(members@[n - 1].0@) && plain(members@[n - 1].1)
            }
        },
        _ => true,
    }
}

proof fn lemma_find_member_plain(members: Seq<(String, Json)>, k: Seq<char>)
    requires
        forall|i: int| 0 <= i < members.len() ==> plain(#[trigger] members[i].1),
    ensures
        find_member(members, k) matches Some(x) ==> plain(x),
    decreases members.len(),
{
    if members.len() > 0 {
        assert(plain(members[0].1));
        let rest = members.drop_first();
        assert forall|i: int| 0 <= i < rest.len() implies plain(#[trigger] rest[i].1) by {
            assert(rest[i] == members[i + 1]);
        }
        lemma_find_member_plain(rest, k);
    }
}

/// A member of a plain value is plain.
pub proof fn lemma_member_plain(v: Json, k: Seq<char>)
    requires
        plain(v),
    ensures
        member(v, k) matches Some(x) ==> plain(x),
        member_str(v, k) matches Some(s) ==> no_esc(s),
{
    match v {
        Json::Object(members) => {
            assert forall|i: int| 0 <= i < members@.len() implies plain(#[trigger] members@[i].1) by {
                lemma_entry_plain(members, members@.len() as int, i);
            }
            lemma_find_member_plain(members@, k);
        },
        _ => {},
    }
}

proof fn lemma_item_plain(items: Vec<Json>, n: int, i: int)
    requires
        0 <= i < n <= items@.len(),
        items_plain(Json::Array(items), n),
    ensures
        plain(items@[i]),
    decreases n,
{
    if i < n - 1 {
        lemma_item_plain(items, n - 1, i);
    }
}

pub(crate) proof fn lemma_entry_plain(members: Vec<(String, Json)>, n: int, i: int)
    requires
        0 <= i < n <= members@.len(),
        members_plain(Json::Object(members), n),
    ensures
        plain(members@[i].1),
        no_esc(members@[i].0@),
    decreases n,
{
    if i < n - 1 {
        lemma_entry_plain(members, n - 1, i);
    }
}

/// What `serde_json` writes for the string `s`: a JSON string literal.
pub uninterp spec fn quoted_of(s: Seq<char>) -> Seq<char>;

/// Relies on `serde_json::to_string` on a `str`: it writes the string as a
/// JSON literal into a `Vec`, which cannot fail. Control characters are
/// written as escapes, so the literal holds none.
#[verifier::external_body]
pub(crate) fn quote(s: &str) -> (r: String)
    ensures
        r@ == quoted_of(s@),
        forall|i: int| 0 <= i < r@.len() ==> (r@[i] as u32) >= 0x20,
{
    serde_json::to_string(s).unwrap_or_default()
}

/// The compact JSON text of `v`, as `serde_json` writes it: no whitespace,
/// strings quoted by `serde_json`, numbers as their own text.
pub open spec fn compact_text(v: Json) -> Seq<char>
    decreases v, 1nat, 0int,
{
    match v {
        Json::Null => "null"@,
        Json::Bool(b) => if b { "true"@ } else { "false"@ },
        Json::Number(t) => t@,
        Json::Str(s) => quoted_of(s@),
        Json::Array(items) => "["@ + items_text(v, items@.len() as int) + "]"@,
        Json::Object(members) => "{"@ + members_text(v, members@.len() as int) + "}"@,
    }
}

/// The first `n` elements of the array `v`, compact and comma-separated.
pub open spec fn items_text(v: Json, n: int) -> Seq<char>
    decreases v, 0nat, n,
{
    match v {
        Json::Array(items) => {
            if n <= 0 || n > items@.len() {
                Seq::empty()
            } else if n == 1 {
                compact_text(items@[0])
            } else {
                items_text(v, n - 1) + ","@ + compact_text(items@[n - 1])
            }
        },
        _ => Seq::empty(),
    }
}

/// The compact text of one object member.
pub open spec fn member_text(k: Seq<char>, val_text: Seq<char>) -> Seq<char> {
    quoted_of(k) + ":"@ + val_text
}

/// The first `n` members of the object `v`, compact and comma-separated.
pub open spec fn members_text(v: Json, n: int) -> Seq<char>
    decreases v, 0nat, n,
{
    match v {
        Json::Object(members) => {
            if n <= 0 || n > members@.len() {
                Seq::empty()
            } else if n == 1 {
                member_text(members@[0].0@, compact_text(members@[0].1))
            } else {
                members_text(v, n - 1) + ","@ + member_text(
                    members@[n - 1].0@,
                    compact_text(members@[n - 1].1),
                )
            }
        },
        _ => Seq::empty(),
    }
}

/// Writes `v` as compact JSON.
pub fn compact(v: &Json) -> (r: String)
    ensures
        r@ == compact_text(*v),
        plain(*v) ==> no_esc(r@),
    decreases v,
{
    proof {
        reveal_strlit("null");
        reveal_strlit("true");
        reveal_strlit("false");
        reveal_strlit("[");
        reveal_strlit("]");
        reveal_strlit("{");
        reveal_strlit("}");
        reveal_strlit(",");
        reveal_strlit(":");
    }
    match v {
        Json::Null => String::from_str("null"),
        Json::Bool(b) => if *b { String::from_str("true") } else { String::from_str("false") },
        Json::Number(t) => t.clone(),
        Json::Str(s) => quote(s.as_str()),
        Json::Array(items) => {
            let mut out = String::new();
            let mut i: usize = 0;
            while i < items.len()
                invariant
                    *v == Json::Array(*items),
                    i <= items@.len(),
                    out@ == items_text(*v, i as int),
                    plain(*v) ==> no_esc(out@),
                decreases items.len() - i,
            {
                assert(decreases_to!(*v => items@[i as int]));
                proof {
                    reveal_strlit(",");
                    if plain(*v) {
                        lemma_item_plain(*items, items@.len() as int, i as int);
                    }
                }
                let t = compact(&items[i]);
                if i > 0 {
                    out.append(",");
                }
                out.append(t.as_str());
                i += 1;
            }
            let mut r = String::from_str("[");
            r.append(out.as_str());
            r.append("]");
            r
        },
        Json::Object(members) => {
            let mut out = String::new();
            let mut i: usize = 0;
            while i < members.len()
                invariant
                    *v == Json::Object(*members),
                    i <= members@.len(),
                    out@ == members_text(*v, i as int),
                    plain(*v) ==> no_esc(out@),
                decreases members.len() - i,
            {
                assert(decreases_to!(*v => members@[i as int].1));
                proof {
                    reveal_strlit(",");
                    reveal_strlit(":");
                    if plain(*v) {
                        lemma_entry_plain(*members, members@.len() as int, i as int);
                    }
                }
                let t = compact(&members[i].1);
                if i > 0 {
                    out.append(",");
                }
                let k = quote(members[i].0.as_str());
                out.append(k.as_str());
                out.append(":");
                out.append(t.as_str());
                i += 1;
            }
            let mut r = String::from_str("{");
            r.append(out.as_str());
            r.append("}");
            r
        },
    }
}

impl Json {
    /// The member `k` of this value, where it is an object that has one.
    pub fn get(&self, k: &str) -> (r: Option<&Json>)
        ensures
            r matches Some(x) ==> member(*self, k@) == Some(*x),
            r is None ==> member(*self, k@) is None,
    {
        match self {
            Json::Object(members) => {
                let mut i: usize = 0;
                assert(members@.subrange(0, members@.len() as int) == members@);
                while i < members.len()
                    invariant
                        *self == Json::Object(*members),
                        i <= members@.len(),
                        find_member(members@, k@) == find_member(members@.subrange(i as int, members@.len() as int), k@),
                    decreases members.len() - i,
                {
                    assert(members@.subrange(i as int, members@.len() as int).drop_first()
                        == members@.subrange(i + 1, members@.len() as int));
                    assert(members@.subrange(i as int, members@.len() as int)[0] == members@[i as int]);
                    if same_text(members[i].0.as_str(), k) {
                        return Some(&members[i].1);
                    }
                    i += 1;
                }
                None
            },
            _ => None,
        }
    }

    /// The text of the member `k`, where this is an object whose member
    /// `k` is a string.
    pub fn get_str(&self, k: &str) -> (r: Option<&str>)
        ensures
            r matches Some(s) ==> member_str(*self, k@) == Some(s@),
            r is None ==> member_str(*self, k@) is None,
    {
        match self.get(k) {
            Some(x) => x.as_str(),
            None => None,
        }
    }

    /// The text of this value, where it is a string.
    pub fn as_str(&self) -> (r: Option<&str>)
        ensures
            r matches Some(s) ==> str_of(*self) == Some(s@),
            r is None ==> str_of(*self) is None,
    {
        match self {
            Json::Str(s) => Some(s.as_str()),
            _ => None,
        }
    }
}

} // verus!
