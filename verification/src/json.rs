//! A plain model of parsed JSON documents.
//!
//! The schema checker never needs more of a number than whether it is an
//! unsigned integer and, if so, its value, so numbers are modelled as
//! either a `u64` or an opaque "some other number" marker.

use vstd::prelude::*;

verus! {

/// A parsed JSON value. Object fields keep their source order; keys are
/// looked up by first match.
pub enum Json {
    Null,
    Boolean(bool),
    /// A number that is an integer representable as `u64`.
    UintNumber(u64),
    /// Any other number: negative, fractional, or too large for `u64`.
    OtherNumber,
    Text(String),
    Sequence(Vec<Json>),
    Object(Vec<(String, Json)>),
}

/// The coarse shape of a value, as reported in diagnostics.
#[derive(Clone, Copy, Debug, PartialEq, Eq, Structural)]
pub enum Shape {
    Null,
    Boolean,
    Number,
    Text,
    Sequence,
    Object,
    /// An unsigned integer that fits in 32 bits (only ever expected, never found).
    Unsigned32,
    /// An unsigned integer that fits in 16 bits (only ever expected, never found).
    Unsigned16,
}

pub open spec fn shape_of(j: Json) -> Shape {
    match j {
        Json::Null => Shape::Null,
        Json::Boolean(_) => Shape::Boolean,
        Json::UintNumber(_) => Shape::Number,
        Json::OtherNumber => Shape::Number,
        Json::Text(_) => Shape::Text,
        Json::Sequence(_) => Shape::Sequence,
        Json::Object(_) => Shape::Object,
    }
}

/// The fields of an object value; meaningful only when `j is Object`.
pub open spec fn obj_fields(j: Json) -> Seq<(String, Json)>
    recommends
        j is Object,
{
    match j {
        Json::Object(fields) => fields@,
        _ => arbitrary(),
    }
}

/// The elements of a sequence value; meaningful only when `j is Sequence`.
pub open spec fn seq_elems(j: Json) -> Seq<Json>
    recommends
        j is Sequence,
{
    match j {
        Json::Sequence(elems) => elems@,
        _ => arbitrary(),
    }
}

/// First-match lookup of a key among an object's fields.
pub open spec fn lookup(fields: Seq<(String, Json)>, name: Seq<char>) -> Option<Json>
    decreases fields.len(),
{
    if fields.len() == 0 {
        None
    } else if fields[0].0@ == name {
        Some(fields[0].1)
    } else {
        lookup(fields.drop_first(), name)
    }
}

/// Computes the shape used in a "found ..." diagnostic.
pub fn shape(j: &Json) -> (s: Shape)
    ensures
        s == shape_of(*j),
{
    match j {
        Json::Null => Shape::Null,
        Json::Boolean(_) => Shape::Boolean,
        Json::UintNumber(_) => Shape::Number,
        Json::OtherNumber => Shape::Number,
        Json::Text(_) => Shape::Text,
        Json::Sequence(_) => Shape::Sequence,
        Json::Object(_) => Shape::Object,
    }
}

/// Skipping fields whose key does not match leaves the lookup unchanged.
proof fn lemma_lookup_skip(fields: Seq<(String, Json)>, name: Seq<char>, i: int)
    requires
        0 <= i <= fields.len(),
        forall|k: int| 0 <= k < i ==> fields[k].0@ != name,
    ensures
        lookup(fields, name) == lookup(fields.skip(i), name),
    decreases i,
{
    if i > 0 {
        lemma_lookup_skip(fields.drop_first(), name, i - 1);
        assert(fields.drop_first().skip(i - 1) =~= fields.skip(i));
    } else {
        assert(fields.skip(0) =~= fields);
    }
}

/// Inserting a field under a different key anywhere in an object leaves
/// the lookup of a name unchanged.
pub proof fn lemma_lookup_insert(
    fields: Seq<(String, Json)>,
    k: int,
    e: (String, Json),
    name: Seq<char>,
)
    requires
        0 <= k <= fields.len(),
        e.0@ != name,
    ensures
        lookup(fields.insert(k, e), name) == lookup(fields, name),
    decreases fields.len(),
{
    let ins = fields.insert(k, e);
    if k == 0 {
        assert(ins[0] == e);
        assert(ins.drop_first() =~= fields);
    } else {
        assert(ins[0] == fields[0]);
        if fields[0].0@ != name {
            assert(ins.drop_first() =~= fields.drop_first().insert(k - 1, e));
            lemma_lookup_insert(fields.drop_first(), k - 1, e, name);
        }
    }
}

/// Finds the first field with the given key, if any.
pub fn find_field<'a>(fields: &'a Vec<(String, Json)>, name: &String) -> (r: Option<&'a Json>)
    ensures
        match r {
            Some(v) => lookup(fields@, name@) == Some(*v),
            None => lookup(fields@, name@) is None,
        },
{
    let n = fields.len();
    for i in 0..n
        invariant
            n == fields.len(),
            forall|k: int| 0 <= k < i ==> fields@[k].0@ != name@,
    {
        if fields[i].0 == *name {
            proof {
                lemma_lookup_skip(fields@, name@, i as int);
                assert(fields@.skip(i as int)[0] == fields@[i as int]);
            }
            return Some(&fields[i].1);
        }
    }
    proof {
        lemma_lookup_skip(fields@, name@, n as int);
        assert(fields@.skip(n as int).len() == 0);
    }
    None
}

} // verus!
