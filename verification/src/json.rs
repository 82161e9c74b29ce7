//! A JSON document as plain values, the lookups the page logic performs on it,
//! and the parser that produces it.

use vstd::prelude::*;

use crate::errors::{json_io_kind, json_text};

verus! {

/// A JSON value.  Numbers are kept as their text: nothing here computes with
/// them.  An object keeps its members in the order the parser produced them.
#[derive(Debug)]
pub enum JsonValue {
    Null,
    Bool(bool),
    Number(String),
    Str(String),
    Array(Vec<JsonValue>),
    Object(Vec<(String, JsonValue)>),
}

/// The value of the first member named `key` among `entries`.
pub open spec fn entries_lookup(entries: Seq<(String, JsonValue)>, key: Seq<char>) -> Option<JsonValue>
    decreases entries.len(),
{
    if entries.len() == 0 {
        None
    } else if entries[0].0@ == key {
        Some(entries[0].1)
    } else {
        entries_lookup(entries.drop_first(), key)
    }
}

/// The member `key` of an object; nothing for any other value.
pub open spec fn member(v: JsonValue, key: Seq<char>) -> Option<JsonValue> {
    match v {
        JsonValue::Object(entries) => entries_lookup(entries@, key),
        _ => None,
    }
}

/// The value reached from `v` by following the members named in `path`, in order.
pub open spec fn path_lookup(v: JsonValue, path: Seq<Seq<char>>) -> Option<JsonValue>
    decreases path.len(),
{
    if path.len() == 0 {
        Some(v)
    } else {
        match member(v, path[0]) {
            Some(child) => path_lookup(child, path.drop_first()),
            None => None,
        }
    }
}

/// The names held by a list of strings.
pub open spec fn names(tags: Seq<String>) -> Seq<Seq<char>> {
    tags.map_values(|t: String| t@)
}

/// The member named `key` among `entries` is the value of the first entry
/// with that name; there is none when no entry has it.
pub proof fn lemma_entries_lookup(entries: Seq<(String, JsonValue)>, key: Seq<char>, i: int)
    ensures
        0 <= i < entries.len() && entries[i].0@ == key && (forall|j: int|
            0 <= j < i ==> (#[trigger] entries[j]).0@ != key) ==> entries_lookup(entries, key) == Some(
            entries[i].1,
        ),
        (forall|j: int| 0 <= j < entries.len() ==> (#[trigger] entries[j]).0@ != key)
            ==> entries_lookup(entries, key) is None,
    decreases entries.len(),
{
    if entries.len() > 0 {
        lemma_entries_lookup(entries.drop_first(), key, i - 1);
        if 0 < i < entries.len() && entries[i].0@ == key && (forall|j: int|
            0 <= j < i ==> (#[trigger] entries[j]).0@ != key) {
            assert(entries[0].0@ != key);
            assert forall|j: int| 0 <= j < i - 1 implies (#[trigger] entries.drop_first()[j]).0@
                != key by {
                assert(entries.drop_first()[j] == entries[j + 1]);
            }
            assert(entries.drop_first()[i - 1] == entries[i]);
        }
        if forall|j: int| 0 <= j < entries.len() ==> (#[trigger] entries[j]).0@ != key {
            assert(entries[0].0@ != key);
            assert forall|j: int| 0 <= j < entries.len() - 1 implies (
            #[trigger] entries.drop_first()[j]).0@ != key by {
                assert(entries.drop_first()[j] == entries[j + 1]);
            }
        }
    }
}

/// Only an object has members: its member `key` is found among its entries.
pub proof fn lemma_member(v: JsonValue, key: Seq<char>)
    ensures
        v matches JsonValue::Object(entries) ==> member(v, key) == entries_lookup(entries@, key),
        !(v is Object) ==> member(v, key) is None,
        path_lookup(v, Seq::<Seq<char>>::empty()) == Some(v),
        path_lookup(v, seq![key]) == member(v, key),
{
    assert(seq![key].drop_first() =~= Seq::<Seq<char>>::empty());
    if let Some(c) = member(v, key) {
        assert(path_lookup(c, Seq::<Seq<char>>::empty()) == Some(c));
    }
}

/// Following `p` and then `q` reaches what following `p + q` reaches.
pub proof fn lemma_path_concat(v: JsonValue, p: Seq<Seq<char>>, q: Seq<Seq<char>>)
    ensures
        path_lookup(v, p + q) == match path_lookup(v, p) {
            Some(w) => path_lookup(w, q),
            None => None,
        },
    decreases p.len(),
{
    if p.len() == 0 {
        assert(p + q =~= q);
    } else {
        assert((p + q).drop_first() =~= p.drop_first() + q);
        assert((p + q)[0] == p[0]);
        match member(v, p[0]) {
            Some(child) => lemma_path_concat(child, p.drop_first(), q),
            None => {},
        }
    }
}

impl JsonValue {
    /// The member `key` of this value, when it is an object that has one.
    pub fn get(&self, key: &String) -> (r: Option<&JsonValue>)
        ensures
            match r {
                Some(x) => member(*self, key@) == Some(*x),
                None => member(*self, key@) is None,
            },
    {
        match self {
            JsonValue::Object(entries) => {
                let n = entries.len();
                let mut i: usize = 0;
                assert(entries@.skip(0) =~= entries@);
                while i < n
                    invariant
                        n == entries@.len(),
                        member(*self, key@) == entries_lookup(entries@, key@),
                        i <= n,
                        entries_lookup(entries@, key@) == entries_lookup(entries@.skip(i as int), key@),
                    decreases n - i,
                {
                    assert(entries@.skip(i as int).drop_first() =~= entries@.skip(i + 1));
                    assert(entries@.skip(i as int)[0] == entries@[i as int]);
                    if entries[i].0 == *key {
                        return Some(&entries[i].1);
                    }
                    i = i + 1;
                }
                None
            },
            _ => None,
        }
    }

    /// The member `key` of this value, moved out of it.
    pub fn into_member(self, key: &String) -> (r: Option<JsonValue>)
        ensures
            r == member(self, key@),
    {
        match self {
            JsonValue::Object(entries) => {
                let ghost orig = entries@;
                assert(member(self, key@) == entries_lookup(orig, key@));
                let mut entries = entries;
                let n = entries.len();
                let mut i: usize = 0;
                assert(orig.skip(0) =~= orig);
                while i < n
                    invariant
                        n == entries@.len(),
                        entries@ == orig,
                        member(self, key@) == entries_lookup(orig, key@),
                        i <= n,
                        entries_lookup(orig, key@) == entries_lookup(orig.skip(i as int), key@),
                    decreases n - i,
                {
                    assert(orig.skip(i as int).drop_first() =~= orig.skip(i + 1));
                    assert(orig.skip(i as int)[0] == orig[i as int]);
                    if entries[i].0 == *key {
                        let (_, value) = entries.remove(i);
                        return Some(value);
                    }
                    i = i + 1;
                }
                None
            },
            _ => None,
        }
    }

    /// The value reached by following the members named in `tags`.
    pub fn lookup_path<'a>(&'a self, tags: &[String]) -> (r: Option<&'a JsonValue>)
        ensures
            match r {
                Some(x) => path_lookup(*self, names(tags@)) == Some(*x),
                None => path_lookup(*self, names(tags@)) is None,
            },
    {
        let n = tags.len();
        let ghost all = names(tags@);
        let mut cur: &JsonValue = self;
        let mut i: usize = 0;
        assert(all.skip(0) =~= all);
        while i < n
            invariant
                n == tags@.len(),
                all == names(tags@),
                i <= n,
                path_lookup(*self, all) == path_lookup(*cur, all.skip(i as int)),
            decreases n - i,
        {
            assert(all.skip(i as int).drop_first() =~= all.skip(i + 1));
            assert(all.skip(i as int)[0] == tags@[i as int]@);
            match cur.get(&tags[i]) {
                Some(next) => {
                    cur = next;
                },
                None => {
                    return None;
                },
            }
            i = i + 1;
        }
        assert(all.skip(n as int) =~= Seq::<Seq<char>>::empty());
        Some(cur)
    }

    /// The value reached by following the members named in `tags`, moved out of this one.
    pub fn into_path(self, tags: &[String]) -> (r: Option<JsonValue>)
        ensures
            r == path_lookup(self, names(tags@)),
    {
        let n = tags.len();
        let ghost all = names(tags@);
        let ghost root = self;
        let mut cur = self;
        let mut i: usize = 0;
        assert(all.skip(0) =~= all);
        while i < n
            invariant
                n == tags@.len(),
                all == names(tags@),
                i <= n,
                root == self,
                path_lookup(root, all) == path_lookup(cur, all.skip(i as int)),
            decreases n - i,
        {
            assert(all.skip(i as int).drop_first() =~= all.skip(i + 1));
            assert(all.skip(i as int)[0] == tags@[i as int]@);
            let ghost before = cur;
            match cur.into_member(&tags[i]) {
                Some(next) => {
                    cur = next;
                },
                None => {
                    return None;
                },
            }
            i = i + 1;
        }
        assert(all.skip(n as int) =~= Seq::<Seq<char>>::empty());
        Some(cur)
    }

    /// The text of a string value.
    pub fn as_str(&self) -> (r: Option<&String>)
        ensures
            match r {
                Some(s) => *self == JsonValue::Str(*s),
                None => !(*self is Str),
            },
    {
        match self {
            JsonValue::Str(s) => Some(s),
            _ => None,
        }
    }
}

} // verus!

verus! {

/// The error type of `serde_json`.
#[verifier::external_type_specification]
#[verifier::external_body]
pub struct ExJsonError(serde_json::Error);

/// The document type of `serde_json`.
#[verifier::external_type_specification]
#[verifier::external_body]
pub struct ExJsonDocument(serde_json::Value);

/// What `serde_json` makes of the bytes: the document, converted to a
/// `JsonValue`, or the error it refuses them with, taken by its text.
pub uninterp spec fn parsed_json(bytes: Seq<u8>) -> Result<JsonValue, Seq<char>>;

/// Converts a `serde_json::Value` into a `JsonValue`, variant by variant
/// (a number becomes its `to_string` text, an object keeps the order of
/// its map).  Nothing is claimed of it.
#[verifier::external_body]
fn document_into_value(v: serde_json::Value) -> JsonValue {
    match v {
        serde_json::Value::Null => JsonValue::Null,
        serde_json::Value::Bool(b) => JsonValue::Bool(b),
        serde_json::Value::Number(n) => JsonValue::Number(n.to_string()),
        serde_json::Value::String(s) => JsonValue::Str(s),
        serde_json::Value::Array(a) => JsonValue::Array(a.into_iter().map(document_into_value).collect()),
        serde_json::Value::Object(m) => JsonValue::Object(
            m.into_iter().map(|(k, x)| (k, document_into_value(x))).collect(),
        ),
    }
}

/// `serde_json::from_slice` into a `serde_json::Value`.  The contract claims
/// that its outcome depends on the bytes alone: the converted document, or
/// the error's text, is `parsed_json(bytes)`.
/// A slice is read without I/O, so its errors carry no I/O error kind
/// (serde_json makes those only where it reads from an `io::Read`).
#[verifier::external_body]
pub(crate) fn parse_json(bytes: &[u8]) -> (r: Result<JsonValue, serde_json::Error>)
    ensures
        match r {
            Ok(v) => parsed_json(bytes@) == Ok::<JsonValue, Seq<char>>(v),
            Err(e) => json_io_kind(e) is None && parsed_json(bytes@) == Err::<JsonValue, Seq<char>>(
                json_text(e),
            ),
        },
{
    match serde_json::from_slice::<serde_json::Value>(bytes) {
        Ok(v) => Ok(document_into_value(v)),
        Err(e) => Err(e),
    }
}

} // verus!
