//! The operations of which scenarios consist.

use crate::interceptor::JsonBodyInjectInterceptor;
use crate::json::Json;
use crate::naming::alternator_keyspace;
use crate::naming::keyspace_of;
use crate::naming::IndexId;
use crate::naming::IndexInfo;
use crate::payload::describes_index;
use crate::payload::inject_vector_index;
use crate::payload::lemma_one_index_is_asked_for;
use crate::payload::vector_indexes;
use vstd::prelude::*;

verus! {

/// The type of an attribute that is part of a key.
#[derive(Debug, Clone, Copy, PartialEq, Eq, Structural)]
pub enum ScalarAttributeType {
    S,
    N,
    B,
}

/// The part that an attribute plays in a key.
#[derive(Debug, Clone, Copy, PartialEq, Eq, Structural)]
pub enum KeyType {
    Hash,
    Range,
}

/// How the use of a table is charged.
#[derive(Debug, Clone, Copy, PartialEq, Eq, Structural)]
pub enum BillingMode {
    PayPerRequest,
    Provisioned,
}

/// The definition of a table.
#[derive(Debug)]
pub struct TableDefinition {
    pub table_name: String,
    pub attribute_definitions: Vec<(String, ScalarAttributeType)>,
    pub key_schema: Vec<(String, KeyType)>,
    pub billing_mode: BillingMode,
}

/// What a [`TableDefinition`] says.
#[verifier::ext_equal]
pub struct TableShape {
    pub name: Seq<char>,
    pub attributes: Seq<(Seq<char>, ScalarAttributeType)>,
    pub key: Seq<(Seq<char>, KeyType)>,
    pub billing: BillingMode,
}

impl View for TableDefinition {
    type V = TableShape;

    open spec fn view(&self) -> TableShape {
        TableShape {
            name: self.table_name@,
            attributes: Seq::new(
                self.attribute_definitions@.len(),
                |i: int|
                    (self.attribute_definitions@[i].0@, self.attribute_definitions@[i].1),
            ),
            key: Seq::new(
                self.key_schema@.len(),
                |i: int| (self.key_schema@[i].0@, self.key_schema@[i].1),
            ),
            billing: self.billing_mode,
        }
    }
}

/// The table `name` whose only key attribute is the string `pk`.
pub open spec fn pk_table(name: Seq<char>) -> TableShape {
    TableShape {
        name,
        attributes: seq![("pk"@, ScalarAttributeType::S)],
        key: seq![("pk"@, KeyType::Hash)],
        billing: BillingMode::PayPerRequest,
    }
}

/// A request to the database, or a wait for the Vector Store.
#[derive(Debug)]
#[allow(inconsistent_fields)]
pub enum Operation {
    CreateTable { table: TableDefinition, inject: Option<JsonBodyInjectInterceptor> },
    UpdateTable { table_name: String, inject: JsonBodyInjectInterceptor },
    PutItem { table_name: String, pk: String, v: [u8; 3] },
    Query { table_name: String, limit: u16, inject: JsonBodyInjectInterceptor },
    DeleteTable { table_name: String },
    /// Waits until the Vector Store serves the index.
    AwaitIndex { index: IndexInfo },
    /// Waits until the Vector Store has dropped the index.
    AwaitNoIndex { index: IndexInfo },
}

/// What an [`Operation`] asks for.
#[verifier::ext_equal]
#[allow(inconsistent_fields)]
pub enum Action {
    CreateTable { table: TableShape, fields: Option<Map<Seq<char>, Json>> },
    UpdateTable { table: Seq<char>, fields: Map<Seq<char>, Json> },
    PutItem { table: Seq<char>, pk: Seq<char>, v: Seq<u8> },
    Query { table: Seq<char>, limit: nat, fields: Map<Seq<char>, Json> },
    DeleteTable { table: Seq<char> },
    AwaitIndex { index: IndexId },
    AwaitNoIndex { index: IndexId },
}

impl View for Operation {
    type V = Action;

    open spec fn view(&self) -> Action {
        match *self {
            Operation::CreateTable { table, inject } => Action::CreateTable {
                table: table@,
                fields: match inject {
                    Some(interceptor) => Some(interceptor@),
                    None => None,
                },
            },
            Operation::UpdateTable { table_name, inject } => Action::UpdateTable {
                table: table_name@,
                fields: inject@,
            },
            Operation::PutItem { table_name, pk, v } => Action::PutItem {
                table: table_name@,
                pk: pk@,
                v: v@,
            },
            Operation::Query { table_name, limit, inject } => Action::Query {
                table: table_name@,
                limit: limit as nat,
                fields: inject@,
            },
            Operation::DeleteTable { table_name } => Action::DeleteTable { table: table_name@ },
            Operation::AwaitIndex { index } => Action::AwaitIndex { index: index@ },
            Operation::AwaitNoIndex { index } => Action::AwaitNoIndex { index: index@ },
        }
    }
}

/// An operation, and what is said when it is refused. A wait is not refused.
#[derive(Debug)]
pub struct Step {
    pub operation: Operation,
    pub failure: Option<String>,
}

/// What a [`Step`] consists of.
#[verifier::ext_equal]
pub struct StepModel {
    pub action: Action,
    pub failure: Option<Seq<char>>,
}

impl View for Step {
    type V = StepModel;

    open spec fn view(&self) -> StepModel {
        StepModel {
            action: self.operation@,
            failure: match self.failure {
                Some(text) => Some(text@),
                None => None,
            },
        }
    }
}

/// What a list of steps consists of.
pub open spec fn script_of(steps: Seq<Step>) -> Seq<StepModel> {
    Seq::new(steps.len(), |i: int| steps[i]@)
}

/// The step that creates a table without a vector index.
pub open spec fn plain_table_created(table: Seq<char>) -> StepModel {
    StepModel {
        action: Action::CreateTable { table: pk_table(table), fields: None },
        failure: Some("CreateTable should succeed"@),
    }
}

/// The step that creates a table with the vector index `index`.
pub open spec fn indexed_table_created(
    table: Seq<char>,
    index: Seq<char>,
    failure: Seq<char>,
) -> StepModel {
    StepModel {
        action: Action::CreateTable {
            table: pk_table(table),
            fields: Some(vector_indexes(index)),
        },
        failure: Some(failure),
    }
}

/// The step that deletes a table.
pub open spec fn table_deleted(table: Seq<char>) -> StepModel {
    StepModel {
        action: Action::DeleteTable { table },
        failure: Some("DeleteTable should succeed"@),
    }
}

/// The index `index` of the table `table`, as the Vector Store identifies it.
pub open spec fn index_of(table: Seq<char>, index: Seq<char>) -> IndexId {
    IndexId { keyspace: keyspace_of(table), index }
}

/// The step that waits until the index `index` of `table` is served.
pub open spec fn index_served(table: Seq<char>, index: Seq<char>) -> StepModel {
    StepModel { action: Action::AwaitIndex { index: index_of(table, index) }, failure: None }
}

/// The step that waits until the index `index` of `table` is dropped.
pub open spec fn index_dropped(table: Seq<char>, index: Seq<char>) -> StepModel {
    StepModel { action: Action::AwaitNoIndex { index: index_of(table, index) }, failure: None }
}

/// Defines the table `table_name` whose only key attribute is the string `pk`.
fn define_pk_table(table_name: &str) -> (table: TableDefinition)
    ensures
        table@ == pk_table(table_name@),
{
    let mut attribute_definitions: Vec<(String, ScalarAttributeType)> = Vec::new();
    attribute_definitions.push((String::from_str("pk"), ScalarAttributeType::S));
    let mut key_schema: Vec<(String, KeyType)> = Vec::new();
    key_schema.push((String::from_str("pk"), KeyType::Hash));
    let table = TableDefinition {
        table_name: String::from_str(table_name),
        attribute_definitions,
        key_schema,
        billing_mode: BillingMode::PayPerRequest,
    };
    assert(table@ =~= pk_table(table_name@));
    table
}

/// Builds the standard single-partition-key table without any vector index.
pub fn create_plain_table(table_name: &str) -> (step: Step)
    ensures
        step@ == plain_table_created(table_name@),
{
    Step {
        operation: Operation::CreateTable { table: define_pk_table(table_name), inject: None },
        failure: Some(String::from_str("CreateTable should succeed")),
    }
}

/// Creates a table with the vector index `index_name`; `failure` is said where that is refused.
pub(crate) fn create_indexed_table(
    table_name: &str,
    index_name: &str,
    failure: &str,
) -> (step: Step)
    ensures
        step@ == indexed_table_created(table_name@, index_name@, failure@),
{
    Step {
        operation: Operation::CreateTable {
            table: define_pk_table(table_name),
            inject: Some(inject_vector_index(index_name)),
        },
        failure: Some(String::from_str(failure)),
    }
}

/// Creates a table with a single `pk` (HASH, STRING) key and a vector index on the `v`
/// attribute (3 dimensions).
pub fn create_table_with_vector_index(table_name: &str, index_name: &str) -> (step: Step)
    ensures
        step@ == indexed_table_created(
            table_name@,
            index_name@,
            "CreateTable with VectorIndex should succeed"@,
        ),
{
    create_indexed_table(table_name, index_name, "CreateTable with VectorIndex should succeed")
}

/// Deletes a table.
pub fn delete_table(table_name: &str) -> (step: Step)
    ensures
        step@ == table_deleted(table_name@),
{
    Step {
        operation: Operation::DeleteTable { table_name: String::from_str(table_name) },
        failure: Some(String::from_str("DeleteTable should succeed")),
    }
}

/// Waits until the index `index_name` of `table_name` is served.
pub fn await_index(table_name: &str, index_name: &str) -> (step: Step)
    ensures
        step@ == index_served(table_name@, index_name@),
{
    let keyspace = alternator_keyspace(table_name);
    Step {
        operation: Operation::AwaitIndex {
            index: IndexInfo::new(keyspace.as_str(), index_name),
        },
        failure: None,
    }
}

/// Waits until the index `index_name` of `table_name` is dropped.
pub fn await_no_index(table_name: &str, index_name: &str) -> (step: Step)
    ensures
        step@ == index_dropped(table_name@, index_name@),
{
    let keyspace = alternator_keyspace(table_name);
    Step {
        operation: Operation::AwaitNoIndex {
            index: IndexInfo::new(keyspace.as_str(), index_name),
        },
        failure: None,
    }
}

/// The value of an attribute of an item.
#[derive(Debug)]
pub enum AttributeValue {
    /// A string.
    S(String),
    /// A number, as text.
    N(String),
    /// A list.
    L(Vec<AttributeValue>),
}

/// The attribute value for a list of numbers, given by their texts.
pub fn dynamo_number_list(numbers: Vec<String>) -> (list: AttributeValue)
    ensures
        list matches AttributeValue::L(items) && {
            &&& items@.len() == numbers@.len()
            &&& forall|i: int|
                0 <= i < numbers@.len() ==> #[trigger] items@[i] == AttributeValue::N(numbers@[i])
        },
{
    let mut items: Vec<AttributeValue> = Vec::new();
    let mut i: usize = 0;
    while i < numbers.len()
        invariant
            i <= numbers@.len(),
            items@.len() == i,
            forall|j: int|
                0 <= j < i ==> #[trigger] items@[j] == AttributeValue::N(numbers@[j]),
        decreases numbers@.len() - i,
    {
        items.push(AttributeValue::N(numbers[i].clone()));
        i = i + 1;
    }
    AttributeValue::L(items)
}

/// The attributes of an item with the given `pk` (S) and `v`.
pub fn put_item(pk: &str, v: AttributeValue) -> (item: Vec<(String, AttributeValue)>)
    ensures
        item@.len() == 2,
        item@[0].0@ == "pk"@,
        item@[0].1 matches AttributeValue::S(text) && text@ == pk@,
        item@[1].0@ == "v"@,
        item@[1].1 == v,
{
    let mut item: Vec<(String, AttributeValue)> = Vec::new();
    item.push((String::from_str("pk"), AttributeValue::S(String::from_str(pk))));
    item.push((String::from_str("v"), v));
    item
}

/// What is modelled of a table is its name, its attributes, its key and its billing, each as it is
/// defined.
pub proof fn lemma_table_is_as_defined(table: TableDefinition)
    ensures
        table@.name == table.table_name@,
        table@.billing == table.billing_mode,
        table@.attributes.len() == table.attribute_definitions@.len(),
        forall|i: int|
            0 <= i < table@.attributes.len() ==> (#[trigger] table@.attributes[i]).0
                == table.attribute_definitions@[i].0@ && table@.attributes[i].1
                == table.attribute_definitions@[i].1,
        table@.key.len() == table.key_schema@.len(),
        forall|i: int|
            0 <= i < table@.key.len() ==> (#[trigger] table@.key[i]).0 == table.key_schema@[i].0@
                && table@.key[i].1 == table.key_schema@[i].1,
{
}

/// What is modelled of an operation is its kind and all that it is asked for with.
pub proof fn lemma_operation_is_as_asked(operation: Operation)
    ensures
        match operation {
            Operation::CreateTable { table: t, inject: i } => {
                &&& operation@ matches Action::CreateTable { table, fields }
                &&& table == t@
                &&& fields is Some <==> i is Some
                &&& i is Some ==> fields->0 == i->0@
            },
            Operation::UpdateTable { table_name, inject } => {
                &&& operation@ matches Action::UpdateTable { table, fields }
                &&& table == table_name@
                &&& fields == inject@
            },
            Operation::PutItem { table_name, pk: k, v: vector } => {
                &&& operation@ matches Action::PutItem { table, pk, v }
                &&& table == table_name@
                &&& pk == k@
                &&& v == vector@
            },
            Operation::Query { table_name, limit: l, inject } => {
                &&& operation@ matches Action::Query { table, limit, fields }
                &&& table == table_name@
                &&& limit == l
                &&& fields == inject@
            },
            Operation::DeleteTable { table_name } => {
                &&& operation@ matches Action::DeleteTable { table }
                &&& table == table_name@
            },
            Operation::AwaitIndex { index: i } => {
                &&& operation@ matches Action::AwaitIndex { index }
                &&& index.keyspace == i.keyspace@
                &&& index.index == i.index@
            },
            Operation::AwaitNoIndex { index: i } => {
                &&& operation@ matches Action::AwaitNoIndex { index }
                &&& index.keyspace == i.keyspace@
                &&& index.index == i.index@
            },
        },
{
}

/// What is modelled of a list of steps is the operation of each, and what is said when it is
/// refused.
pub proof fn lemma_script_is_as_written(steps: Seq<Step>)
    ensures
        script_of(steps).len() == steps.len(),
        forall|i: int|
            0 <= i < steps.len() ==> {
                &&& (#[trigger] script_of(steps)[i]).action == steps[i].operation@
                &&& script_of(steps)[i].failure is Some <==> steps[i].failure is Some
                &&& steps[i].failure is Some ==> script_of(steps)[i].failure->0
                    == steps[i].failure->0@
            },
{
}

/// Whether `shape` is that of the table `name` with one attribute, the string `pk`, which is the
/// hash key, and with requests that are paid for one by one.
pub open spec fn has_string_key(shape: TableShape, name: Seq<char>) -> bool {
    &&& shape.name == name
    &&& shape.attributes.len() == 1
    &&& shape.attributes[0] == ("pk"@, ScalarAttributeType::S)
    &&& shape.key.len() == 1
    &&& shape.key[0] == ("pk"@, KeyType::Hash)
    &&& shape.billing == BillingMode::PayPerRequest
}

/// A table is created with a string key, without and with a vector index.
pub proof fn lemma_tables_are_created(table: Seq<char>, name: Seq<char>, text: Seq<char>)
    ensures
        ({
            &&& plain_table_created(table).action matches Action::CreateTable {
                table: shape,
                fields,
            }
            &&& has_string_key(shape, table)
            &&& fields is None
            &&& plain_table_created(table).failure == Some("CreateTable should succeed"@)
        }),
        ({
            &&& indexed_table_created(table, name, text).action matches Action::CreateTable {
                table: shape,
                fields: Some(fields),
            }
            &&& has_string_key(shape, table)
            &&& fields.dom() == set!["VectorIndexes"@]
            &&& fields["VectorIndexes"@] matches Json::List(indexes)
            &&& indexes.len() == 1
            &&& describes_index(indexes[0], name)
            &&& indexed_table_created(table, name, text).failure == Some(text)
        }),
{
    lemma_one_index_is_asked_for(name);
}

/// A deletion and the waits concern the given table and index, which the Vector Store finds under
/// the keyspace of the table.
pub proof fn lemma_steps_concern_table(table: Seq<char>, name: Seq<char>)
    ensures
        ({
            &&& table_deleted(table).action matches Action::DeleteTable { table: t }
            &&& t == table
            &&& table_deleted(table).failure == Some("DeleteTable should succeed"@)
        }),
        ({
            &&& index_served(table, name).action matches Action::AwaitIndex { index }
            &&& index.keyspace == "alternator_"@ + table
            &&& index.index == name
            &&& index_served(table, name).failure is None
        }),
        ({
            &&& index_dropped(table, name).action matches Action::AwaitNoIndex { index }
            &&& index.keyspace == "alternator_"@ + table
            &&& index.index == name
            &&& index_dropped(table, name).failure is None
        }),
        index_of(table, name).keyspace == "alternator_"@ + table,
        index_of(table, name).index == name,
{
}

/// Whether the step creates `table`, with a string key and the one vector index `name`.
pub open spec fn creates_with_index(step: StepModel, table: Seq<char>, name: Seq<char>) -> bool {
    &&& step.action matches Action::CreateTable { table: shape, fields: Some(fields) }
    &&& has_string_key(shape, table)
    &&& fields.dom() == set!["VectorIndexes"@]
    &&& fields["VectorIndexes"@] matches Json::List(indexes)
    &&& indexes.len() == 1
    &&& describes_index(indexes[0], name)
}

/// Whether the step waits until the index `name` of `table` is served, or until it is gone.
pub open spec fn awaits(step: StepModel, table: Seq<char>, name: Seq<char>, served: bool) -> bool {
    match step.action {
        Action::AwaitIndex { index } => served && index.keyspace == "alternator_"@ + table
            && index.index == name,
        Action::AwaitNoIndex { index } => !served && index.keyspace == "alternator_"@ + table
            && index.index == name,
        _ => false,
    }
}

/// Whether the step deletes `table`.
pub open spec fn deletes(step: StepModel, table: Seq<char>) -> bool {
    step.action matches Action::DeleteTable { table: t } && t == table && step.failure == Some(
        "DeleteTable should succeed"@,
    )
}

} // verus!
