//! The extension fields of requests that concern vector indexes.

use crate::interceptor::collected;
use crate::interceptor::JsonBodyInjectInterceptor;
use crate::json::decimals_read_exactly;
use crate::json::integer_value;
use crate::json::lemma_list;
use crate::json::lemma_object;
use crate::json::list_value;
use crate::json::nested_within;
use crate::json::object_value;
use crate::json::survives_rereading;
use crate::json::text_value;
use crate::json::value_of;
use crate::json::values_of;
use crate::json::Json;
use crate::json::MAX_NESTING;
use serde_json::Value;
use vstd::prelude::*;

verus! {

/// The attribute that holds the vector of an item.
pub const VECTOR_ATTRIBUTE: &'static str = "v";

/// The number of dimensions of a vector.
pub const DIMENSIONS: u64 = 3;

/// A change of the vector indexes of a table.
#[verifier::ext_equal]
pub enum IndexUpdate {
    Create(Seq<char>),
    Delete(Seq<char>),
}

/// The description of the vector index `name`.
pub open spec fn index_description(name: Seq<char>) -> Json {
    Json::Object(
        map![
            "IndexName"@ => Json::Text(name),
            "VectorAttribute"@ => Json::Object(map![
                "AttributeName"@ => Json::Text(VECTOR_ATTRIBUTE@),
                "Dimensions"@ => Json::Integer(DIMENSIONS as int),
            ]),
        ],
    )
}

/// A change of the vector indexes of a table, in JSON.
pub open spec fn update_description(update: IndexUpdate) -> Json {
    match update {
        IndexUpdate::Create(name) => Json::Object(map!["Create"@ => index_description(name)]),
        IndexUpdate::Delete(name) => Json::Object(
            map!["Delete"@ => Json::Object(map!["IndexName"@ => Json::Text(name)])],
        ),
    }
}

/// The field that gives a new table the vector index `name`.
pub open spec fn vector_indexes(name: Seq<char>) -> Map<Seq<char>, Json> {
    map!["VectorIndexes"@ => Json::List(seq![index_description(name)])]
}

/// The field that changes the vector indexes of a table.
pub open spec fn vector_index_updates(updates: Seq<IndexUpdate>) -> Map<Seq<char>, Json> {
    map![
        "VectorIndexUpdates"@ => Json::List(
            Seq::new(updates.len(), |i: int| update_description(updates[i])),
        ),
    ]
}

/// A number of a vector, as DynamoDB writes it.
pub open spec fn number_attribute(text: Seq<char>) -> Json {
    Json::Object(map!["N"@ => Json::Text(text)])
}

/// The field that makes a query search for the items nearest to the vector (1, 2, 3).
pub open spec fn vector_search() -> Map<Seq<char>, Json> {
    map![
        "VectorSearch"@ => Json::Object(map![
            "QueryVector"@ => Json::Object(map![
                "L"@ => Json::List(seq![
                    number_attribute("1"@),
                    number_attribute("2"@),
                    number_attribute("3"@),
                ]),
            ]),
        ]),
    ]
}

/// An object with one member.
fn object_of(key: &str, value: Value) -> (object: Value)
    ensures
        value_of(object) == Json::Object(map![key@ => value_of(value)]),
{
    let mut members: serde_json::Map<String, Value> = serde_json::Map::new();
    members.insert(String::from_str(key), value);
    object_value(members)
}

/// An object with two members.
fn object_of_two(key1: &str, value1: Value, key2: &str, value2: Value) -> (object: Value)
    ensures
        value_of(object) == Json::Object(
            map![key1@ => value_of(value1), key2@ => value_of(value2)],
        ),
{
    let mut members: serde_json::Map<String, Value> = serde_json::Map::new();
    members.insert(String::from_str(key1), value1);
    members.insert(String::from_str(key2), value2);
    object_value(members)
}

/// An interceptor that injects one field.
fn inject_field(key: &str, value: Value) -> (interceptor: JsonBodyInjectInterceptor)
    ensures
        interceptor@ == map![key@ => value_of(value)],
{
    let mut fields: Vec<(String, Value)> = Vec::new();
    fields.push((String::from_str(key), value));
    proof {
        reveal_with_fuel(collected, 2);
        assert(fields@.drop_last() =~= Seq::empty());
    }
    JsonBodyInjectInterceptor::new(fields)
}

/// The description of the vector index `name`.
fn index_value(name: &str) -> (v: Value)
    ensures
        value_of(v) == index_description(name@),
{
    object_of_two(
        "IndexName",
        text_value(name),
        "VectorAttribute",
        object_of_two(
            "AttributeName",
            text_value(VECTOR_ATTRIBUTE),
            "Dimensions",
            integer_value(DIMENSIONS),
        ),
    )
}

/// The request that the vector index `name` be created.
pub(crate) fn create_update(name: &str) -> (v: Value)
    ensures
        value_of(v) == update_description(IndexUpdate::Create(name@)),
{
    object_of("Create", index_value(name))
}

/// The request that the vector index `name` be deleted.
pub(crate) fn delete_update(name: &str) -> (v: Value)
    ensures
        value_of(v) == update_description(IndexUpdate::Delete(name@)),
{
    object_of("Delete", object_of("IndexName", text_value(name)))
}

/// Gives a new table the vector index `name`.
pub fn inject_vector_index(name: &str) -> (interceptor: JsonBodyInjectInterceptor)
    ensures
        interceptor@ == vector_indexes(name@),
{
    let mut list: Vec<Value> = Vec::new();
    list.push(index_value(name));
    assert(values_of(list@) =~= seq![index_description(name@)]);
    inject_field("VectorIndexes", list_value(list))
}

/// Changes the vector indexes of a table as `list` says.
pub(crate) fn inject_index_updates(list: Vec<Value>) -> (interceptor: JsonBodyInjectInterceptor)
    ensures
        interceptor@ == map!["VectorIndexUpdates"@ => Json::List(values_of(list@))],
{
    inject_field("VectorIndexUpdates", list_value(list))
}

/// Makes a query search for the items nearest to the vector (1, 2, 3).
pub fn inject_vector_search() -> (interceptor: JsonBodyInjectInterceptor)
    ensures
        interceptor@ == vector_search(),
{
    let mut list: Vec<Value> = Vec::new();
    list.push(object_of("N", text_value("1")));
    list.push(object_of("N", text_value("2")));
    list.push(object_of("N", text_value("3")));
    assert(values_of(list@) =~= seq![
        number_attribute("1"@),
        number_attribute("2"@),
        number_attribute("3"@),
    ]);
    inject_field("VectorSearch", object_of("QueryVector", object_of("L", list_value(list))))
}

/// The description of an index is nested two levels deep, and holds no fractions.
proof fn lemma_index_description_survives(name: Seq<char>, depth: nat)
    requires
        depth >= 2,
    ensures
        nested_within(index_description(name), depth),
        decimals_read_exactly(index_description(name), depth),
{
    let attribute = map![
        "AttributeName"@ => Json::Text(VECTOR_ATTRIBUTE@),
        "Dimensions"@ => Json::Integer(DIMENSIONS as int),
    ];
    let description = map![
        "IndexName"@ => Json::Text(name),
        "VectorAttribute"@ => Json::Object(attribute),
    ];
    lemma_object(attribute, (depth - 1) as nat);
    lemma_object(description, depth);
}

/// A change of indexes is nested three levels deep, and holds no fractions.
proof fn lemma_update_description_survives(update: IndexUpdate, depth: nat)
    requires
        depth >= 3,
    ensures
        nested_within(update_description(update), depth),
        decimals_read_exactly(update_description(update), depth),
{
    match update {
        IndexUpdate::Create(name) => {
            lemma_index_description_survives(name, (depth - 1) as nat);
            lemma_object(map!["Create"@ => index_description(name)], depth);
        },
        IndexUpdate::Delete(name) => {
            let named = map!["IndexName"@ => Json::Text(name)];
            lemma_object(named, (depth - 1) as nat);
            lemma_object(map!["Delete"@ => Json::Object(named)], depth);
        },
    }
}

/// What is injected to create a table with an index is read back by the receiver as it was
/// written.
pub proof fn lemma_vector_indexes_survive(name: Seq<char>)
    ensures
        survives_rereading(Json::Object(vector_indexes(name))),
{
    let depth = MAX_NESTING as nat;
    let list = seq![index_description(name)];
    lemma_index_description_survives(name, (depth - 2) as nat);
    lemma_list(list, (depth - 1) as nat);
    lemma_object(vector_indexes(name), depth);
}

/// What is injected to change the indexes of a table is read back by the receiver as it was
/// written.
pub proof fn lemma_vector_index_updates_survive(updates: Seq<IndexUpdate>)
    ensures
        survives_rereading(Json::Object(vector_index_updates(updates))),
{
    let depth = MAX_NESTING as nat;
    let list = Seq::new(updates.len(), |i: int| update_description(updates[i]));
    assert forall|i: int| 0 <= i < list.len() implies nested_within(
        #[trigger] list[i],
        (depth - 2) as nat,
    ) && decimals_read_exactly(list[i], (depth - 2) as nat) by {
        lemma_update_description_survives(updates[i], (depth - 2) as nat);
    }
    lemma_list(list, (depth - 1) as nat);
    lemma_object(vector_index_updates(updates), depth);
}

/// What is injected to search for a vector is read back by the receiver as it was written.
pub proof fn lemma_vector_search_survives()
    ensures
        survives_rereading(Json::Object(vector_search())),
{
    let depth = MAX_NESTING as nat;
    let numbers = seq![number_attribute("1"@), number_attribute("2"@), number_attribute("3"@)];
    let list = map!["L"@ => Json::List(numbers)];
    let vector = map!["QueryVector"@ => Json::Object(list)];
    lemma_object(map!["N"@ => Json::Text("1"@)], (depth - 4) as nat);
    lemma_object(map!["N"@ => Json::Text("2"@)], (depth - 4) as nat);
    lemma_object(map!["N"@ => Json::Text("3"@)], (depth - 4) as nat);
    lemma_list(numbers, (depth - 3) as nat);
    lemma_object(list, (depth - 2) as nat);
    lemma_object(vector, (depth - 1) as nat);
    lemma_object(vector_search(), depth);
}

/// Whether `json` describes the index `name` of vectors with three dimensions, held by the
/// attribute `v`, and says nothing else.
pub open spec fn describes_index(json: Json, name: Seq<char>) -> bool {
    &&& json matches Json::Object(members)
    &&& members.dom() == set!["IndexName"@, "VectorAttribute"@]
    &&& members["IndexName"@] == Json::Text(name)
    &&& members["VectorAttribute"@] matches Json::Object(attribute)
    &&& attribute.dom() == set!["AttributeName"@, "Dimensions"@]
    &&& attribute["AttributeName"@] == Json::Text("v"@)
    &&& attribute["Dimensions"@] == Json::Integer(3)
}

/// Whether `json` holds the number that `text` writes, and nothing else.
pub open spec fn holds_number(json: Json, text: Seq<char>) -> bool {
    &&& json matches Json::Object(members)
    &&& members.dom() == set!["N"@]
    &&& members["N"@] == Json::Text(text)
}

/// The keys of the description of an index differ.
proof fn lemma_description_keys_differ()
    ensures
        "IndexName"@ != "VectorAttribute"@,
        "AttributeName"@ != "Dimensions"@,
{
    reveal_strlit("IndexName");
    reveal_strlit("VectorAttribute");
    reveal_strlit("AttributeName");
    reveal_strlit("Dimensions");
    assert("IndexName"@.len() != "VectorAttribute"@.len());
    assert("AttributeName"@.len() != "Dimensions"@.len());
}

/// The description of an index describes it.
proof fn lemma_description_describes_index(name: Seq<char>)
    ensures
        describes_index(index_description(name), name),
{
    lemma_description_keys_differ();
    let members = index_description(name)->Object_0;
    let attribute = members["VectorAttribute"@]->Object_0;
    assert(members.dom() =~= set!["IndexName"@, "VectorAttribute"@]);
    assert(attribute.dom() =~= set!["AttributeName"@, "Dimensions"@]);
}

/// A new table is asked for with one vector index, which is that with the given name.
pub proof fn lemma_one_index_is_asked_for(name: Seq<char>)
    ensures
        vector_indexes(name).dom() == set!["VectorIndexes"@],
        vector_indexes(name)["VectorIndexes"@] matches Json::List(indexes) && indexes.len() == 1
            && describes_index(indexes[0], name),
{
    lemma_description_describes_index(name);
    assert(vector_indexes(name).dom() =~= set!["VectorIndexes"@]);
}

/// Each change of the indexes is asked for, in its place: a creation with the description of the
/// index, and a deletion with its name.
pub proof fn lemma_each_update_is_asked_for(updates: Seq<IndexUpdate>, i: int)
    requires
        0 <= i < updates.len(),
    ensures
        vector_index_updates(updates).dom() == set!["VectorIndexUpdates"@],
        ({
            &&& vector_index_updates(updates)["VectorIndexUpdates"@] matches Json::List(items)
            &&& items.len() == updates.len()
            &&& items[i] matches Json::Object(members)
            &&& match updates[i] {
                IndexUpdate::Create(name) => {
                    &&& members.dom() == set!["Create"@]
                    &&& describes_index(members["Create"@], name)
                },
                IndexUpdate::Delete(name) => {
                    &&& members.dom() == set!["Delete"@]
                    &&& members["Delete"@] matches Json::Object(named)
                    &&& named.dom() == set!["IndexName"@]
                    &&& named["IndexName"@] == Json::Text(name)
                },
            }
        }),
{
    assert(vector_index_updates(updates).dom() =~= set!["VectorIndexUpdates"@]);
    match updates[i] {
        IndexUpdate::Create(name) => {
            lemma_description_describes_index(name);
            assert(update_description(updates[i])->Object_0.dom() =~= set!["Create"@]);
        },
        IndexUpdate::Delete(name) => {
            let members = update_description(updates[i])->Object_0;
            assert(members.dom() =~= set!["Delete"@]);
            assert(members["Delete"@]->Object_0.dom() =~= set!["IndexName"@]);
        },
    }
}

/// What is searched for is the vector (1, 2, 3), and nothing else is asked.
pub proof fn lemma_vector_is_searched_for()
    ensures
        vector_search().dom() == set!["VectorSearch"@],
        ({
            &&& vector_search()["VectorSearch"@] matches Json::Object(search)
            &&& search.dom() == set!["QueryVector"@]
            &&& search["QueryVector"@] matches Json::Object(vector)
            &&& vector.dom() == set!["L"@]
            &&& vector["L"@] matches Json::List(numbers)
            &&& numbers.len() == 3
            &&& holds_number(numbers[0], "1"@)
            &&& holds_number(numbers[1], "2"@)
            &&& holds_number(numbers[2], "3"@)
        }),
{
    let search = vector_search()["VectorSearch"@]->Object_0;
    let vector = search["QueryVector"@]->Object_0;
    let numbers = vector["L"@]->List_0;
    assert(vector_search().dom() =~= set!["VectorSearch"@]);
    assert(search.dom() =~= set!["QueryVector"@]);
    assert(vector.dom() =~= set!["L"@]);
    assert(numbers[0]->Object_0.dom() =~= set!["N"@]);
    assert(numbers[1]->Object_0.dom() =~= set!["N"@]);
    assert(numbers[2]->Object_0.dom() =~= set!["N"@]);
}

} // verus!
