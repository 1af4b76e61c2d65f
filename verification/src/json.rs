//! JSON documents, read and written with the `json` crate.
//!
//! A parsed document is held as a [`JsonTree`]: its kind at each level, the
//! text of strings, and the members of objects and arrays in order. Numbers
//! are kept only as numbers; nothing here reads their value.
use vstd::prelude::*;
use crate::text::{chars_of, str_eq};

verus! {

/// A value of the `json` crate.
#[verifier::external_type_specification]
#[verifier::external_body]
pub struct ExJsonValue(json::JsonValue);

/// A parsed JSON value.
#[derive(Debug)]
pub enum JsonTree {
    Null,
    Boolean(bool),
    Number,
    /// A string.
    Text(String),
    /// An object: its keys with their values, in order.
    Object(Vec<(String, JsonTree)>),
    /// An array: its members, in order.
    Array(Vec<JsonTree>),
}

/// The mathematical value of a [`JsonTree`].
pub enum JsonValueSpec {
    Null,
    Boolean(bool),
    Number,
    Text(Seq<char>),
    Object(Seq<(Seq<char>, JsonValueSpec)>),
    Array(Seq<JsonValueSpec>),
}

/// The mathematical value of a [`JsonTree`].
pub open spec fn tree_view(t: JsonTree) -> JsonValueSpec
    decreases t,
{
    match t {
        JsonTree::Null => JsonValueSpec::Null,
        JsonTree::Boolean(b) => JsonValueSpec::Boolean(b),
        JsonTree::Number => JsonValueSpec::Number,
        JsonTree::Text(s) => JsonValueSpec::Text(s@),
        JsonTree::Object(entries) => JsonValueSpec::Object(
            Seq::new(
                entries@.len(),
                |i: int|
                    if 0 <= i < entries@.len() {
                        (entries@[i].0@, tree_view(entries@[i].1))
                    } else {
                        (Seq::empty(), JsonValueSpec::Null)
                    },
            ),
        ),
        JsonTree::Array(members) => JsonValueSpec::Array(
            Seq::new(
                members@.len(),
                |i: int|
                    if 0 <= i < members@.len() {
                        tree_view(members@[i])
                    } else {
                        JsonValueSpec::Null
                    },
            ),
        ),
    }
}

/// The entries of an object, each key with the value of its member.
pub open spec fn members_view(entries: Seq<(String, JsonTree)>) -> Seq<(Seq<char>, JsonValueSpec)> {
    Seq::new(
        entries.len(),
        |i: int|
            if 0 <= i < entries.len() {
                (entries[i].0@, tree_view(entries[i].1))
            } else {
                (Seq::empty(), JsonValueSpec::Null)
            },
    )
}

/// What `json::parse` makes of a text: the value, or the text of the error
/// (its `Display`).
pub uninterp spec fn json_parse(text: Seq<char>) -> Result<JsonValueSpec, Seq<char>>;

/// The text `json` writes for an object of string values with keys in the
/// given order, indented by `spaces`.
pub uninterp spec fn json_pretty_object(entries: Seq<(Seq<char>, Seq<char>)>, spaces: u16) -> Seq<char>;

/// The number of `0` characters in a row that end just before index `i` of
/// `s`.
pub open spec fn zeros_before(s: Seq<char>, i: int) -> nat
    decreases i,
{
    if i <= 0 || i > s.len() || s[i - 1] != '0' {
        0
    } else {
        1 + zeros_before(s, i - 1)
    }
}

/// The most zeros right after a decimal point that `json::parse` is handed.
/// It counts the digits of a fraction down in an `i16` exponent, one per
/// digit while the mantissa still grows; the mantissa is a `u64`, so past
/// the leading zeros at most 32 more digits count, and 32768 in all stay
/// within the exponent.
pub const MAX_FRACTION_ZEROS: usize = 32736;

/// No `.` in `s` is followed by more than [`MAX_FRACTION_ZEROS`] zeros in a
/// row.
pub open spec fn fraction_zeros_bounded(s: Seq<char>) -> bool {
    forall|j: int|
        0 <= j <= s.len() && #[trigger] zeros_before(s, j) > MAX_FRACTION_ZEROS ==> !(j - zeros_before(s, j)
            >= 1 && s[j - zeros_before(s, j) - 1] == '.')
}

/// Whether a text can be handed to the JSON parser: no `.` in it is followed
/// by more than [`MAX_FRACTION_ZEROS`] zeros in a row.
pub fn fraction_zeros_within_bound(s: &str) -> (r: bool)
    ensures
        r == fraction_zeros_bounded(s@),
{
    let v = chars_of(s);
    let mut run: usize = 0;
    let mut after_dot = false;
    let mut pos: usize = 0;
    while pos < v.len()
        invariant
            v@ == s@,
            pos <= v@.len(),
            run <= pos,
            run == zeros_before(s@, pos as int),
            after_dot == (pos - run >= 1 && s@[pos - run - 1] == '.'),
            forall|j: int|
                0 <= j <= pos && #[trigger] zeros_before(s@, j) > MAX_FRACTION_ZEROS ==> !(j - zeros_before(s@, j)
                    >= 1 && s@[j - zeros_before(s@, j) - 1] == '.'),
        decreases v@.len() - pos,
    {
        let c = v[pos];
        if c == '0' {
            run = run + 1;
        } else {
            run = 0;
            after_dot = c == '.';
        }
        pos = pos + 1;
        assert(run == zeros_before(s@, pos as int));
        if run > MAX_FRACTION_ZEROS && after_dot {
            assert(!fraction_zeros_bounded(s@)) by {
                assert(zeros_before(s@, pos as int) > MAX_FRACTION_ZEROS);
            }
            return false;
        }
    }
    true
}

/// Copies a value of the `json` crate into a [`JsonTree`], member for
/// member (strings as text, numbers as their kind alone).
#[verifier::external_body]
fn tree_of(value: &json::JsonValue) -> JsonTree {
    match value {
        json::JsonValue::Null => JsonTree::Null,
        json::JsonValue::Short(s) => JsonTree::Text(s.as_str().to_string()),
        json::JsonValue::String(s) => JsonTree::Text(s.clone()),
        json::JsonValue::Number(_) => JsonTree::Number,
        json::JsonValue::Boolean(b) => JsonTree::Boolean(*b),
        json::JsonValue::Object(o) => JsonTree::Object(o.iter().map(|(k, v)| (k.to_string(), tree_of(v))).collect()),
        json::JsonValue::Array(a) => JsonTree::Array(a.iter().map(tree_of).collect()),
    }
}

/// Parses a JSON text (calls `json::parse`; an error is kept as the text
/// its `Display` gives). The result is named by `json_parse`; the contract
/// says nothing more of it.
///
/// `json::parse` counts the digits after a decimal point down in an `i16`
/// exponent, which can overflow (a panic where overflow checks are on) only
/// when more than [`MAX_FRACTION_ZEROS`] zeros follow the point; such texts
/// are left out.
#[verifier::external_body]
pub(crate) fn parse_json(text: &str) -> (res: Result<JsonTree, String>)
    requires
        fraction_zeros_bounded(text@),
    ensures
        match res {
            Ok(t) => json_parse(text@) == Ok::<JsonValueSpec, Seq<char>>(tree_view(t)),
            Err(m) => json_parse(text@) == Err::<JsonValueSpec, Seq<char>>(m@),
        },
{
    match json::parse(text) {
        Ok(value) => Ok(tree_of(&value)),
        Err(error) => Err(error.to_string()),
    }
}

/// The key-value pairs of an object of strings, as character sequences.
pub open spec fn entries_view(entries: Seq<(String, String)>) -> Seq<(Seq<char>, Seq<char>)> {
    entries.map_values(|e: (String, String)| (e.0@, e.1@))
}

/// Writes an object whose values are strings, keys in the given order,
/// indented by `spaces` (calls `JsonValue::insert` for each entry of a new
/// object, then `JsonValue::pretty`). The result is named by
/// `json_pretty_object`; the contract says nothing more of it.
#[verifier::external_body]
pub(crate) fn pretty_object(entries: &Vec<(String, String)>, spaces: u16) -> (res: String)
    ensures
        res@ == json_pretty_object(entries_view(entries@), spaces),
{
    let mut object = json::JsonValue::new_object();
    for (key, value) in entries {
        object.insert(key, value.as_str()).ok();
    }
    object.pretty(spaces)
}

/// The value under `key` in a list of object entries: the first entry
/// with that key.
pub open spec fn spec_lookup(entries: Seq<(Seq<char>, JsonValueSpec)>, key: Seq<char>) -> Option<JsonValueSpec>
    decreases entries.len(),
{
    if entries.len() == 0 {
        None
    } else if entries[0].0 == key {
        Some(entries[0].1)
    } else {
        spec_lookup(entries.drop_first(), key)
    }
}

/// Finds the value under `key` among the entries of an object.
pub fn lookup<'a>(entries: &'a Vec<(String, JsonTree)>, key: &str) -> (res: Option<&'a JsonTree>)
    ensures
        match spec_lookup(members_view(entries@), key@) {
            Some(v) => res matches Some(r) && tree_view(*r) == v,
            None => res is None,
        },
{
    let mut i: usize = 0;
    assert(members_view(entries@).skip(0) =~= members_view(entries@));
    while i < entries.len()
        invariant
            i <= entries@.len(),
            spec_lookup(members_view(entries@), key@) == spec_lookup(members_view(entries@).skip(i as int), key@),
        decreases entries@.len() - i,
    {
        let ghost rest = members_view(entries@).skip(i as int);
        assert(rest.drop_first() =~= members_view(entries@).skip(i + 1));
        assert(rest[0] == members_view(entries@)[i as int]);
        if str_eq(entries[i].0.as_str(), key) {
            return Some(&entries[i].1);
        }
        i = i + 1;
    }
    None
}

} // verus!
