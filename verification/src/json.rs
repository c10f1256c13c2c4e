//! JSON as `serde_json` holds, reads and writes it.
//!
//! `serde_json::Value` and `serde_json::Map` are opaque to the verifier. What they hold is
//! given by [`value_of`] and [`members_of`], in terms of the model [`Json`]; the contracts in
//! this file are taken from the crate's source and are not proved. They speak of the crate
//! with its default features.

use serde_json::Value;
use vstd::prelude::*;
use vstd::utf8::encode_utf8;

verus! {

/// How many arrays and objects `serde_json` reads inside one another.
pub const MAX_NESTING: usize = 127;

/// The number of bytes up to which `serde_json` is sure to read a text. (It counts the digits of
/// a number in 32 bits, and a longer text may hold a number with more of them.)
pub const MAX_TEXT: usize = 0x7fff_ffff;

/// A JSON value.
#[verifier::ext_equal]
pub enum Json {
    Null,
    Bool(bool),
    /// A number without fraction and exponent, in the range of `i64` or `u64`.
    Integer(int),
    /// Any other number, as the text in which it is written.
    Decimal(Seq<char>),
    Text(Seq<char>),
    List(Seq<Json>),
    Object(Map<Seq<char>, Json>),
}

/// Whether at most `depth` lists and objects of `j` are inside one another.
pub open spec fn nested_within(j: Json, depth: nat) -> bool
    decreases depth,
{
    match j {
        Json::List(items) => {
            &&& depth > 0
            &&& forall|i: int|
                0 <= i < items.len() ==> nested_within(#[trigger] items[i], (depth - 1) as nat)
        },
        Json::Object(members) => {
            &&& depth > 0
            &&& forall|k: Seq<char>| #[trigger]
                members.contains_key(k) ==> nested_within(members[k], (depth - 1) as nat)
        },
        _ => true,
    }
}

/// Whether the reader gives back a number that is not an integer, written as `text`, without
/// rounding it to another one.
pub open spec fn reads_exactly(text: Seq<char>) -> bool {
    parsed(encode_utf8(text)) matches Ok(j) && j == Json::Decimal(text)
}

/// Whether every [`Json::Decimal`] in the topmost `depth` levels of lists and objects of `j`
/// is one that the reader gives back.
pub open spec fn decimals_read_exactly(j: Json, depth: nat) -> bool
    decreases depth,
{
    match j {
        Json::Decimal(text) => reads_exactly(text),
        Json::List(items) => depth > 0 ==> forall|i: int|
            0 <= i < items.len() ==> decimals_read_exactly(#[trigger] items[i], (depth - 1) as nat),
        Json::Object(members) => depth > 0 ==> forall|k: Seq<char>| #[trigger]
            members.contains_key(k) ==> decimals_read_exactly(members[k], (depth - 1) as nat),
        _ => true,
    }
}

/// Whether `j` comes back unchanged when it is written and read again: it is not nested too
/// deeply to be read, and holds no number that the reader rounds.
pub open spec fn survives_rereading(j: Json) -> bool {
    &&& nested_within(j, MAX_NESTING as nat)
    &&& decimals_read_exactly(j, MAX_NESTING as nat)
}

/// The members of an object that has none.
pub open spec fn no_members() -> Map<Seq<char>, Json> {
    Map::empty()
}

/// The values of a list.
pub open spec fn values_of(list: Seq<Value>) -> Seq<Json> {
    Seq::new(list.len(), |i: int| value_of(list[i]))
}

/// A JSON value of `serde_json`.
#[verifier::external_type_specification]
#[verifier::external_body]
pub struct ExValue(serde_json::Value);

/// The members of a JSON object of `serde_json`.
#[verifier::external_type_specification]
#[verifier::external_body]
#[verifier::reject_recursive_types(K)]
#[verifier::reject_recursive_types(V)]
pub struct ExMap<K, V>(serde_json::Map<K, V>);

/// The reason for which `serde_json` did not read a text.
#[verifier::external_type_specification]
#[verifier::external_body]
pub struct ExError(serde_json::Error);

/// What a `serde_json::Value` holds.
pub uninterp spec fn value_of(v: serde_json::Value) -> Json;

/// What a `serde_json::Map` holds: a value for each of its keys.
pub uninterp spec fn members_of(m: serde_json::Map<String, serde_json::Value>) -> Map<Seq<char>, Json>;

/// The text of a `serde_json::Error` about bytes in memory: what was wrong with them, and in which
/// line and column.
pub uninterp spec fn reason_text(e: serde_json::Error) -> Seq<char>;

/// What `serde_json::from_slice` reads in `bytes`, or the text of the error that it reports.
pub uninterp spec fn parsed(bytes: Seq<u8>) -> Result<Json, Seq<char>>;

/// The bytes that `serde_json::to_vec` writes for `j`.
pub uninterp spec fn encoded(j: Json) -> Seq<u8>;

/// `serde_json::Map::new` gives a map without members.
pub assume_specification[ serde_json::Map::<String, serde_json::Value>::new ]() -> (m: serde_json::Map<
    String,
    serde_json::Value,
>)
    ensures
        members_of(m) == no_members(),
;

/// `serde_json::Map::insert` sets the value of one key, leaves the other members as they are,
/// and gives back the value that the key had.
pub assume_specification[ serde_json::Map::<String, serde_json::Value>::insert ](
    m: &mut serde_json::Map<String, serde_json::Value>,
    k: String,
    v: serde_json::Value,
) -> (previous: Option<serde_json::Value>)
    ensures
        members_of(*final(m)) == members_of(*old(m)).insert(k@, value_of(v)),
        match previous {
            Some(p) => members_of(*old(m)).contains_key(k@) && value_of(p) == members_of(*old(m))[k@],
            None => !members_of(*old(m)).contains_key(k@),
        },
;

/// `serde_json::Value::as_object_mut` hands out the members of an object, and nothing for
/// any other value. What becomes of the members becomes of the object.
pub assume_specification[ serde_json::Value::as_object_mut ](v: &mut serde_json::Value) -> (members: Option<
    &mut serde_json::Map<String, serde_json::Value>,
>)
    ensures
        match members {
            Some(m) => {
                &&& value_of(*old(v)) == Json::Object(members_of(*m))
                &&& value_of(*final(v)) == Json::Object(members_of(*final(m)))
            },
            None => {
                &&& !(value_of(*old(v)) is Object)
                &&& *final(v) == *old(v)
            },
        },
;

/// `serde_json::Value::clone` gives an equal value.
pub assume_specification[ <serde_json::Value as Clone>::clone ](v: &serde_json::Value) -> (copy: serde_json::Value)
    ensures
        value_of(copy) == value_of(*v),
;

/// `serde_json::Map::clone` gives a map with the same members.
pub assume_specification[ <serde_json::Map<String, serde_json::Value> as Clone>::clone ](
    m: &serde_json::Map<String, serde_json::Value>,
) -> (copy: serde_json::Map<String, serde_json::Value>)
    ensures
        members_of(copy) == members_of(*m),
;

/// `serde_json::Map::iter` yields each member once, with its key. The members are copied;
/// their order is left open.
#[verifier::external_body]
pub(crate) fn entries(members: &serde_json::Map<String, Value>) -> (list: Vec<(String, Value)>)
    ensures
        forall|i: int, j: int|
            0 <= i < j < list@.len() ==> (#[trigger] list@[i]).0@ != (#[trigger] list@[j]).0@,
        forall|i: int|
            0 <= i < list@.len() ==> members_of(*members).contains_key((#[trigger] list@[i]).0@)
                && members_of(*members)[list@[i].0@] == value_of(list@[i].1),
        forall|k: Seq<char>| #[trigger]
            members_of(*members).contains_key(k) ==> exists|i: int|
                0 <= i < list@.len() && (#[trigger] list@[i]).0@ == k,
{
    members.iter().map(|(key, value)| (key.clone(), value.clone())).collect()
}

/// `serde_json::from_slice` reads a JSON value, or reports an error; which of the two, and
/// which value or which text of the error, depends on the bytes alone. What it reads is not nested
/// beyond its limit. On a number of more digits than an `i32` counts it may panic, which the bound
/// on the length rules out.
#[verifier::external_body]
pub(crate) fn from_slice(bytes: &[u8]) -> (read: Result<Value, serde_json::Error>)
    requires
        bytes@.len() <= MAX_TEXT,
    ensures
        match read {
            Ok(v) => {
                &&& parsed(bytes@) matches Ok(j) && j == value_of(v)
                &&& nested_within(value_of(v), MAX_NESTING as nat)
            },
            Err(e) => parsed(bytes@) matches Err(text) && text == reason_text(e),
        },
{
    serde_json::from_slice(bytes)
}

/// `serde_json::to_vec` writes a `Value` without failing, in bytes that depend on what the
/// value holds alone (the keys of an object are written in order). `from_slice` reads the
/// value back, unless it is nested beyond the limit of the reader or holds a number with a
/// fraction or an exponent that the reader rounds in its last place.
#[verifier::external_body]
pub(crate) fn to_vec(value: &Value) -> (written: Result<Vec<u8>, serde_json::Error>)
    ensures
        written is Ok,
        written matches Ok(bytes) ==> bytes@ == encoded(value_of(*value)),
        written matches Ok(bytes) ==> survives_rereading(value_of(*value)) ==> (parsed(bytes@)
            matches Ok(j) && j == value_of(*value)),
{
    serde_json::to_vec(value)
}

/// `serde_json::Value::from`, given a string, makes a JSON string of it.
#[verifier::external_body]
pub(crate) fn text_value(text: &str) -> (v: Value)
    ensures
        value_of(v) == Json::Text(text@),
{
    Value::from(text)
}

/// `serde_json::Value::from`, given an integer, makes a JSON number of it.
#[verifier::external_body]
pub(crate) fn integer_value(n: u64) -> (v: Value)
    ensures
        value_of(v) == Json::Integer(n as int),
{
    Value::from(n)
}

/// `serde_json::Value::Array` is a JSON array of the given values.
#[verifier::external_body]
pub(crate) fn list_value(list: Vec<Value>) -> (v: Value)
    ensures
        value_of(v) == Json::List(values_of(list@)),
{
    Value::Array(list)
}

/// `serde_json::Value::Object` is a JSON object with the given members.
#[verifier::external_body]
pub(crate) fn object_value(members: serde_json::Map<String, Value>) -> (v: Value)
    ensures
        value_of(v) == Json::Object(members_of(members)),
{
    Value::Object(members)
}

/// When an object survives rereading, in terms of its members.
pub(crate) proof fn lemma_object(members: Map<Seq<char>, Json>, depth: nat)
    ensures
        nested_within(Json::Object(members), depth) <==> depth > 0 && (forall|k: Seq<char>| #[trigger]
            members.contains_key(k) ==> nested_within(members[k], (depth - 1) as nat)),
        decimals_read_exactly(Json::Object(members), depth) <==> (depth > 0 ==> (forall|
            k: Seq<char>,
        | #[trigger]
            members.contains_key(k) ==> decimals_read_exactly(members[k], (depth - 1) as nat))),
{
    let j = Json::Object(members);
    assert(j->Object_0 == members);
    if depth > 0 {
        assert(nested_within(j, depth) <==> (forall|k: Seq<char>| #[trigger]
            j->Object_0.contains_key(k) ==> nested_within(j->Object_0[k], (depth - 1) as nat)));
        assert(decimals_read_exactly(j, depth) <==> (forall|k: Seq<char>| #[trigger]
            j->Object_0.contains_key(k) ==> decimals_read_exactly(
                j->Object_0[k],
                (depth - 1) as nat,
            )));
    }
}

/// When a list survives rereading, in terms of its items.
pub(crate) proof fn lemma_list(items: Seq<Json>, depth: nat)
    ensures
        nested_within(Json::List(items), depth) <==> depth > 0 && (forall|i: int|
            0 <= i < items.len() ==> nested_within(#[trigger] items[i], (depth - 1) as nat)),
        decimals_read_exactly(Json::List(items), depth) <==> (depth > 0 ==> (forall|i: int|
            0 <= i < items.len() ==> decimals_read_exactly(
                #[trigger] items[i],
                (depth - 1) as nat,
            ))),
{
    let j = Json::List(items);
    assert(j->List_0 == items);
    if depth > 0 {
        assert(nested_within(j, depth) <==> (forall|i: int|
            0 <= i < j->List_0.len() ==> nested_within(
                #[trigger] j->List_0[i],
                (depth - 1) as nat,
            )));
        assert(decimals_read_exactly(j, depth) <==> (forall|i: int|
            0 <= i < j->List_0.len() ==> decimals_read_exactly(
                #[trigger] j->List_0[i],
                (depth - 1) as nat,
            )));
    }
}

} // verus!
