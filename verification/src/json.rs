//! The JSON values that the role logic reads: scalars in full, and compound
//! values only as their JSON text. Objects are lists of entries; a JSON object
//! never repeats a key, and a lookup takes the first entry with the key.
use vstd::prelude::*;

use crate::text::{str_eq, parse_i64_seq, push_char, decimal, append_decimal};

verus! {

/// A JSON value as the role logic sees it.
#[derive(Debug)]
pub enum JsonValue {
    Null,
    Bool(bool),
    /// A number that `as_i64` accepts.
    Int(i64),
    /// Any other number (above `i64::MAX`, or with a fraction or exponent),
    /// kept as its JSON text.
    Number(String),
    Str(String),
    /// An array or an object, kept as its JSON text.
    Composite(String),
}

/// The mathematical value of a [`JsonValue`].
pub enum JsonValueView {
    Null,
    Bool(bool),
    Int(i64),
    Number(Seq<char>),
    Str(Seq<char>),
    Composite(Seq<char>),
}

impl View for JsonValue {
    type V = JsonValueView;

    open spec fn view(&self) -> JsonValueView {
        match self {
            JsonValue::Null => JsonValueView::Null,
            JsonValue::Bool(b) => JsonValueView::Bool(*b),
            JsonValue::Int(i) => JsonValueView::Int(*i),
            JsonValue::Number(s) => JsonValueView::Number(s@),
            JsonValue::Str(s) => JsonValueView::Str(s@),
            JsonValue::Composite(s) => JsonValueView::Composite(s@),
        }
    }
}

impl JsonValueView {
    /// `Value::as_i64`.
    pub open spec fn as_i64(self) -> Option<i64> {
        match self {
            JsonValueView::Int(i) => Some(i),
            _ => None,
        }
    }

    /// `Value::as_str`.
    pub open spec fn as_str(self) -> Option<Seq<char>> {
        match self {
            JsonValueView::Str(s) => Some(s),
            _ => None,
        }
    }
}

/// `opt.unwrap_or(default)` on an optional integer.
pub open spec fn or_i64(o: Option<i64>, default: i64) -> i64 {
    match o {
        Some(v) => v,
        None => default,
    }
}

impl JsonValue {
    pub fn as_i64(&self) -> (r: Option<i64>)
        ensures
            r == self@.as_i64(),
    {
        match self {
            JsonValue::Int(i) => Some(*i),
            _ => None,
        }
    }

    pub fn as_str(&self) -> (r: Option<&str>)
        ensures
            r is Some == self@.as_str() is Some,
            r is Some ==> r->0@ == self@.as_str()->0,
    {
        match self {
            JsonValue::Str(s) => Some(s.as_str()),
            _ => None,
        }
    }

    /// A copy with the same value.
    pub fn duplicate(&self) -> (r: JsonValue)
        ensures
            r@ == self@,
    {
        match self {
            JsonValue::Null => JsonValue::Null,
            JsonValue::Bool(b) => JsonValue::Bool(*b),
            JsonValue::Int(i) => JsonValue::Int(*i),
            JsonValue::Number(s) => JsonValue::Number(s.clone()),
            JsonValue::Str(s) => JsonValue::Str(s.clone()),
            JsonValue::Composite(s) => JsonValue::Composite(s.clone()),
        }
    }
}

/// The entries of an object (or of a map), as mathematical values.
pub type Entries = Seq<(Seq<char>, JsonValueView)>;

/// The view of a list of entries.
pub open spec fn entries_view(e: Seq<(String, JsonValue)>) -> Entries {
    Seq::new(e.len(), |i: int| (e[i].0@, e[i].1@))
}

/// The value under `key` in a list of object entries: the first entry with
/// that key, or `Null` when there is none (as `Value`'s indexing gives).
pub open spec fn lookup(entries: Entries, key: Seq<char>) -> JsonValueView
    decreases entries.len(),
{
    if entries.len() == 0 {
        JsonValueView::Null
    } else if entries[0].0 == key {
        entries[0].1
    } else {
        lookup(entries.drop_first(), key)
    }
}

/// The index of the first entry with `key`.
pub fn find_key(entries: &Vec<(String, JsonValue)>, key: &str) -> (r: Option<usize>)
    ensures
        r is None ==> lookup(entries_view(entries@), key@) == JsonValueView::Null,
        r is None ==> forall|i: int| 0 <= i < entries@.len() ==> entries@[i].0@ != key@,
        r matches Some(i) ==> i < entries@.len() && entries@[i as int].0@ == key@
            && lookup(entries_view(entries@), key@) == entries@[i as int].1@,
{
    let ghost ev = entries_view(entries@);
    let n: usize = entries.len();
    let mut i: usize = 0;
    assert(ev.subrange(0, n as int) =~= ev);
    while i < n
        invariant
            n == entries@.len(),
            ev == entries_view(entries@),
            i <= n,
            lookup(ev, key@) == lookup(ev.subrange(i as int, n as int), key@),
            forall|k: int| 0 <= k < i ==> entries@[k].0@ != key@,
        decreases n - i,
    {
        let ghost rest = ev.subrange(i as int, n as int);
        assert(rest[0] == ev[i as int]);
        if str_eq(entries[i].0.as_str(), key) {
            return Some(i);
        }
        assert(rest.drop_first() =~= ev.subrange(i + 1, n as int));
        i = i + 1;
    }
    None
}

/// `value[key].as_i64()` on an object given by its entries.
pub fn get_i64(entries: &Vec<(String, JsonValue)>, key: &str) -> (r: Option<i64>)
    ensures
        r == lookup(entries_view(entries@), key@).as_i64(),
{
    match find_key(entries, key) {
        Some(i) => entries[i].1.as_i64(),
        None => None,
    }
}

/// `value[key].as_str()` on an object given by its entries.
pub fn get_str<'a>(entries: &'a Vec<(String, JsonValue)>, key: &str) -> (r: Option<&'a str>)
    ensures
        r is Some == lookup(entries_view(entries@), key@).as_str() is Some,
        r is Some ==> r->0@ == lookup(entries_view(entries@), key@).as_str()->0,
{
    match find_key(entries, key) {
        Some(i) => entries[i].1.as_str(),
        None => None,
    }
}

/// `map.get(key)` on a map given by its entries.
pub open spec fn map_get(entries: Entries, key: Seq<char>) -> Option<JsonValueView> {
    if has_key(entries, key) {
        Some(lookup(entries, key))
    } else {
        None
    }
}

/// The view of an optional borrowed value.
pub open spec fn opt_ref_view(v: Option<&JsonValue>) -> Option<JsonValueView> {
    match v {
        Some(x) => Some(x@),
        None => None,
    }
}

/// `map.get(key)` on a map given by its entries.
pub fn get_entry<'a>(entries: &'a Vec<(String, JsonValue)>, key: &str) -> (r: Option<&'a JsonValue>)
    ensures
        opt_ref_view(r) == map_get(entries_view(entries@), key@),
{
    match find_key(entries, key) {
        Some(i) => {
            assert(entries_view(entries@)[i as int].0 == key@);
            Some(&entries[i].1)
        },
        None => None,
    }
}

/// Whether no key occurs twice among the entries, as in a map.
pub open spec fn keys_unique(entries: Entries) -> bool {
    forall|i: int, j: int|
        0 <= i < j < entries.len() ==> (#[trigger] entries[i]).0 != (#[trigger] entries[j]).0
}

/// Whether a map, given by its entries, has `key`.
pub open spec fn has_key(entries: Entries, key: Seq<char>) -> bool {
    exists|i: int| 0 <= i < entries.len() && entries[i].0 == key
}

/// Reading an optional number the way the configuration form sends it: a
/// JSON string counts as text, a JSON number counts as a number (its text
/// as empty), anything else as absent.
pub open spec fn form_text(v: Option<JsonValueView>) -> Seq<char> {
    match v {
        Some(JsonValueView::Str(s)) => s,
        _ => Seq::empty(),
    }
}

/// The integer a form value holds: its number, or else its text parsed.
pub open spec fn form_int(v: Option<JsonValueView>) -> Option<i64> {
    match v {
        Some(JsonValueView::Int(i)) => Some(i),
        _ => parse_i64_seq(form_text(v)),
    }
}

/// The JSON string literal for `s`, as `serde_json` writes it.
pub uninterp spec fn json_quote(s: Seq<char>) -> Seq<char>;

/// The JSON text of a value.
pub open spec fn json_text(v: JsonValueView) -> Seq<char> {
    match v {
        JsonValueView::Null => seq!['n', 'u', 'l', 'l'],
        JsonValueView::Bool(b) => if b {
            seq!['t', 'r', 'u', 'e']
        } else {
            seq!['f', 'a', 'l', 's', 'e']
        },
        JsonValueView::Int(i) => decimal(i as int),
        JsonValueView::Number(t) => t,
        JsonValueView::Str(s) => json_quote(s),
        JsonValueView::Composite(t) => t,
    }
}

/// A lookup finds the first entry with its key.
pub proof fn lemma_lookup_first(e: Entries, i: int, key: Seq<char>)
    requires
        0 <= i < e.len(),
        e[i].0 == key,
        forall|j: int| 0 <= j < i ==> e[j].0 != key,
    ensures
        lookup(e, key) == e[i].1,
        map_get(e, key) == Some(e[i].1),
    decreases i,
{
    if i > 0 {
        let t = e.drop_first();
        assert forall|j: int| 0 <= j < i - 1 implies t[j].0 != key by {
            assert(t[j] == e[j + 1]);
        }
        lemma_lookup_first(t, i - 1, key);
    }
    assert(has_key(e, key));
}

/// `"key":value` in a JSON object, the value given as JSON text.
pub open spec fn json_member(key: Seq<char>, value: Seq<char>) -> Seq<char> {
    json_quote(key) + seq![':'] + value
}

/// The members of a JSON object with the given entries, comma-separated.
pub open spec fn members_text(entries: Entries) -> Seq<char>
    decreases entries.len(),
{
    if entries.len() == 0 {
        Seq::empty()
    } else if entries.len() == 1 {
        json_member(entries[0].0, json_text(entries[0].1))
    } else {
        members_text(entries.drop_last()) + seq![','] + json_member(
            entries.last().0,
            json_text(entries.last().1),
        )
    }
}

/// The JSON text of an object with the given entries, in order.
pub open spec fn object_text(entries: Entries) -> Seq<char> {
    seq!['{'] + members_text(entries) + seq!['}']
}

/// The JSON string literal for a text.
///
/// Trusted: calls `serde_json::to_string` on the `&str`, which serialises it
/// as a JSON string (quotes, escapes); serialising a `str` into memory does
/// not fail. The literal is only named, `json_quote`, a function of the
/// text's characters.
#[verifier::external_body]
fn json_string_literal(s: &str) -> (r: String)
    ensures
        r@ == json_quote(s@),
{
    serde_json::to_string(s).unwrap()
}

/// Appends `s` as a JSON string literal.
pub fn append_json_string(out: &mut String, s: &str)
    ensures
        final(out)@ == old(out)@ + json_quote(s@),
{
    let literal: String = json_string_literal(s);
    out.append(literal.as_str());
}

/// Appends the JSON text of a value.
pub fn append_json_value(out: &mut String, v: &JsonValue)
    ensures
        final(out)@ == old(out)@ + json_text(v@),
{
    let ghost start: Seq<char> = out@;
    match v {
        JsonValue::Null => {
            push_char(out, 'n');
            push_char(out, 'u');
            push_char(out, 'l');
            push_char(out, 'l');
        },
        JsonValue::Bool(b) => {
            if *b {
                push_char(out, 't');
                push_char(out, 'r');
                push_char(out, 'u');
                push_char(out, 'e');
            } else {
                push_char(out, 'f');
                push_char(out, 'a');
                push_char(out, 'l');
                push_char(out, 's');
                push_char(out, 'e');
            }
        },
        JsonValue::Int(i) => append_decimal(out, *i),
        JsonValue::Number(t) => out.append(t.as_str()),
        JsonValue::Str(t) => append_json_string(out, t.as_str()),
        JsonValue::Composite(t) => out.append(t.as_str()),
    }
    assert(out@ =~= start + json_text(v@));
}

} // verus!
