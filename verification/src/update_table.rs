//! Creation, deletion and replacement of a vector index of a table that exists.

use crate::cluster::Timeout;
use crate::json::values_of;
use crate::json::Json;
use crate::operations::await_index;
use crate::operations::await_no_index;
use crate::operations::awaits;
use crate::operations::create_indexed_table;
use crate::operations::create_plain_table;
use crate::operations::create_table_with_vector_index;
use crate::operations::creates_with_index;
use crate::operations::delete_table;
use crate::operations::deletes;
use crate::operations::has_string_key;
use crate::operations::index_dropped;
use crate::operations::index_served;
use crate::operations::indexed_table_created;
use crate::operations::plain_table_created;
use crate::operations::script_of;
use crate::operations::table_deleted;
use crate::operations::Action;
use crate::operations::Operation;
use crate::operations::Step;
use crate::operations::StepModel;
use crate::payload::create_update;
use crate::payload::delete_update;
use crate::payload::describes_index;
use crate::payload::inject_index_updates;
use crate::payload::lemma_each_update_is_asked_for;
use crate::payload::lemma_one_index_is_asked_for;
use crate::payload::update_description;
use crate::payload::vector_index_updates;
use crate::payload::IndexUpdate;
use crate::scenario::case_of;
use crate::scenario::INDEX_NAME;
use crate::scenario::Scenario;
use crate::scenario::TestCase;
use serde_json::Value;
use vstd::prelude::*;

verus! {

/// The name of the index that is replaced.
pub const INDEX_A_NAME: &'static str = "v-idx-a";

/// The name of the index that replaces it.
pub const INDEX_B_NAME: &'static str = "v-idx-b";

/// The step that changes the vector indexes of `table`.
pub open spec fn indexes_updated(
    table: Seq<char>,
    updates: Seq<IndexUpdate>,
    failure: Seq<char>,
) -> StepModel {
    StepModel {
        action: Action::UpdateTable { table, fields: vector_index_updates(updates) },
        failure: Some(failure),
    }
}

/// The steps of [`create_vector_index_via_update_table`].
pub open spec fn create_script(table: Seq<char>) -> Seq<StepModel> {
    seq![
        plain_table_created(table),
        indexes_updated(
            table,
            seq![IndexUpdate::Create(INDEX_NAME@)],
            "UpdateTable with VectorIndexUpdates Create should succeed"@,
        ),
        index_served(table, INDEX_NAME@),
        table_deleted(table),
    ]
}

/// The steps of [`delete_vector_index_via_update_table`].
pub open spec fn delete_script(table: Seq<char>) -> Seq<StepModel> {
    seq![
        indexed_table_created(
            table,
            INDEX_NAME@,
            "CreateTable with VectorIndex should succeed"@,
        ),
        index_served(table, INDEX_NAME@),
        indexes_updated(
            table,
            seq![IndexUpdate::Delete(INDEX_NAME@)],
            "UpdateTable with VectorIndexUpdates Delete should succeed"@,
        ),
        index_dropped(table, INDEX_NAME@),
        table_deleted(table),
    ]
}

/// The steps of [`replace_vector_index_via_update_table`].
pub open spec fn replace_script(table: Seq<char>) -> Seq<StepModel> {
    seq![
        indexed_table_created(
            table,
            INDEX_A_NAME@,
            "CreateTable with first VectorIndex should succeed"@,
        ),
        index_served(table, INDEX_A_NAME@),
        indexes_updated(
            table,
            seq![IndexUpdate::Create(INDEX_B_NAME@), IndexUpdate::Delete(INDEX_A_NAME@)],
            "UpdateTable with simultaneous Create+Delete VectorIndexUpdates should succeed"@,
        ),
        index_served(table, INDEX_B_NAME@),
        index_dropped(table, INDEX_A_NAME@),
        table_deleted(table),
    ]
}

/// Changes the vector indexes of `table_name` as `list` says.
fn update_indexes(
    table_name: &str,
    list: Vec<Value>,
    failure: &str,
    Ghost(updates): Ghost<Seq<IndexUpdate>>,
) -> (step: Step)
    requires
        values_of(list@) == Seq::new(updates.len(), |i: int| update_description(updates[i])),
    ensures
        step@ == indexes_updated(table_name@, updates, failure@),
{
    Step {
        operation: Operation::UpdateTable {
            table_name: String::from_str(table_name),
            inject: inject_index_updates(list),
        },
        failure: Some(String::from_str(failure)),
    }
}

/// Creates a plain table (no vector index), then adds a vector index to it and waits for the
/// Vector Store to start serving the new index.
pub fn create_vector_index_via_update_table(table_name: &str) -> (steps: Vec<Step>)
    ensures
        script_of(steps@) == create_script(table_name@),
{
    let mut steps: Vec<Step> = Vec::new();
    steps.push(create_plain_table(table_name));
    let mut list: Vec<Value> = Vec::new();
    list.push(create_update(INDEX_NAME));
    let ghost updates = seq![IndexUpdate::Create(INDEX_NAME@)];
    assert(values_of(list@) =~= Seq::new(
        updates.len(),
        |i: int| update_description(updates[i]),
    ));
    steps.push(
        update_indexes(
            table_name,
            list,
            "UpdateTable with VectorIndexUpdates Create should succeed",
            Ghost(updates),
        ),
    );
    steps.push(await_index(table_name, INDEX_NAME));
    steps.push(delete_table(table_name));
    assert(script_of(steps@) =~= create_script(table_name@));
    steps
}

/// Creates a table that has a vector index, waits for the Vector Store to serve it, then
/// deletes the index and confirms that it disappears.
pub fn delete_vector_index_via_update_table(table_name: &str) -> (steps: Vec<Step>)
    ensures
        script_of(steps@) == delete_script(table_name@),
{
    let mut steps: Vec<Step> = Vec::new();
    steps.push(create_table_with_vector_index(table_name, INDEX_NAME));
    steps.push(await_index(table_name, INDEX_NAME));
    let mut list: Vec<Value> = Vec::new();
    list.push(delete_update(INDEX_NAME));
    let ghost updates = seq![IndexUpdate::Delete(INDEX_NAME@)];
    assert(values_of(list@) =~= Seq::new(
        updates.len(),
        |i: int| update_description(updates[i]),
    ));
    steps.push(
        update_indexes(
            table_name,
            list,
            "UpdateTable with VectorIndexUpdates Delete should succeed",
            Ghost(updates),
        ),
    );
    steps.push(await_no_index(table_name, INDEX_NAME));
    steps.push(delete_table(table_name));
    assert(script_of(steps@) =~= delete_script(table_name@));
    steps
}

/// Creates a table with a first vector index, waits for the Vector Store to serve it, then in a
/// single request creates a second index and deletes the first one. Both the appearance of the
/// new index and the disappearance of the old index are waited for.
pub fn replace_vector_index_via_update_table(table_name: &str) -> (steps: Vec<Step>)
    ensures
        script_of(steps@) == replace_script(table_name@),
{
    let mut steps: Vec<Step> = Vec::new();
    steps.push(
        create_indexed_table(
            table_name,
            INDEX_A_NAME,
            "CreateTable with first VectorIndex should succeed",
        ),
    );
    steps.push(await_index(table_name, INDEX_A_NAME));
    let mut list: Vec<Value> = Vec::new();
    list.push(create_update(INDEX_B_NAME));
    list.push(delete_update(INDEX_A_NAME));
    let ghost updates = seq![
        IndexUpdate::Create(INDEX_B_NAME@),
        IndexUpdate::Delete(INDEX_A_NAME@),
    ];
    assert(values_of(list@) =~= Seq::new(
        updates.len(),
        |i: int| update_description(updates[i]),
    ));
    steps.push(
        update_indexes(
            table_name,
            list,
            "UpdateTable with simultaneous Create+Delete VectorIndexUpdates should succeed",
            Ghost(updates),
        ),
    );
    steps.push(await_index(table_name, INDEX_B_NAME));
    steps.push(await_no_index(table_name, INDEX_A_NAME));
    steps.push(delete_table(table_name));
    assert(script_of(steps@) =~= replace_script(table_name@));
    steps
}

/// Registers the scenarios.
pub fn new(timeout: Timeout) -> (case: TestCase)
    ensures
        case@ == case_of(
            timeout,
            seq![
                ("create_vector_index_via_update_table"@, Scenario::CreateVectorIndexViaUpdateTable),
                ("delete_vector_index_via_update_table"@, Scenario::DeleteVectorIndexViaUpdateTable),
                ("replace_vector_index_via_update_table"@, Scenario::ReplaceVectorIndexViaUpdateTable),
            ],
        ),
{
    TestCase::empty().with_init(timeout).with_cleanup(timeout).with_test(
        "create_vector_index_via_update_table",
        timeout,
        Scenario::CreateVectorIndexViaUpdateTable,
    ).with_test(
        "delete_vector_index_via_update_table",
        timeout,
        Scenario::DeleteVectorIndexViaUpdateTable,
    ).with_test(
        "replace_vector_index_via_update_table",
        timeout,
        Scenario::ReplaceVectorIndexViaUpdateTable,
    )
}

/// Whether the step asks for exactly the given changes of the vector indexes of `table`.
pub open spec fn updates_indexes(
    step: StepModel,
    table: Seq<char>,
    updates: Seq<IndexUpdate>,
) -> bool {
    &&& step.action matches Action::UpdateTable { table: t, fields }
    &&& t == table
    &&& fields.dom() == set!["VectorIndexUpdates"@]
    &&& fields["VectorIndexUpdates"@] matches Json::List(items)
    &&& items.len() == updates.len()
    &&& forall|i: int|
        0 <= i < updates.len() ==> match #[trigger] updates[i] {
            IndexUpdate::Create(name) => {
                &&& items[i] matches Json::Object(members)
                &&& members.dom() == set!["Create"@]
                &&& describes_index(members["Create"@], name)
            },
            IndexUpdate::Delete(name) => {
                &&& items[i] matches Json::Object(members)
                &&& members.dom() == set!["Delete"@]
                &&& members["Delete"@] matches Json::Object(named)
                &&& named.dom() == set!["IndexName"@]
                &&& named["IndexName"@] == Json::Text(name)
            },
        }
}

/// A step that changes indexes asks for exactly the changes that it is made of.
pub proof fn lemma_updates_are_asked_for(
    table: Seq<char>,
    updates: Seq<IndexUpdate>,
    failure: Seq<char>,
)
    ensures
        updates_indexes(indexes_updated(table, updates, failure), table, updates),
        indexes_updated(table, updates, failure).failure == Some(failure),
{
    let fields = vector_index_updates(updates);
    assert(fields.dom() =~= set!["VectorIndexUpdates"@]);
    let items = fields["VectorIndexUpdates"@]->List_0;
    assert forall|i: int| 0 <= i < updates.len() implies match #[trigger] updates[i] {
        IndexUpdate::Create(name) => {
            &&& items[i] matches Json::Object(members)
            &&& members.dom() == set!["Create"@]
            &&& describes_index(members["Create"@], name)
        },
        IndexUpdate::Delete(name) => {
            &&& items[i] matches Json::Object(members)
            &&& members.dom() == set!["Delete"@]
            &&& members["Delete"@] matches Json::Object(named)
            &&& named.dom() == set!["IndexName"@]
            &&& named["IndexName"@] == Json::Text(name)
        },
    } by {
        lemma_each_update_is_asked_for(updates, i);
    }
}

/// The table is created without an index; the index that is created then is awaited served before
/// the table is deleted.
pub proof fn lemma_index_created_by_update_is_awaited(table: Seq<char>)
    ensures
        create_script(table).len() == 4,
        ({
            &&& create_script(table)[0].action matches Action::CreateTable { table: shape, fields }
            &&& has_string_key(shape, table)
            &&& fields is None
            &&& create_script(table)[0].failure == Some("CreateTable should succeed"@)
        }),
        updates_indexes(create_script(table)[1], table, seq![IndexUpdate::Create("v-idx"@)]),
        create_script(table)[1].failure == Some(
            "UpdateTable with VectorIndexUpdates Create should succeed"@,
        ),
        awaits(create_script(table)[2], table, "v-idx"@, true),
        deletes(create_script(table)[3], table),
{
    lemma_updates_are_asked_for(
        table,
        seq![IndexUpdate::Create("v-idx"@)],
        "UpdateTable with VectorIndexUpdates Create should succeed"@,
    );
}

/// The index with which the table was created is awaited served before it is deleted, and awaited
/// gone after that, before the table is deleted.
pub proof fn lemma_index_deleted_by_update_is_awaited_gone(table: Seq<char>)
    ensures
        delete_script(table).len() == 5,
        creates_with_index(delete_script(table)[0], table, "v-idx"@),
        delete_script(table)[0].failure == Some("CreateTable with VectorIndex should succeed"@),
        awaits(delete_script(table)[1], table, "v-idx"@, true),
        updates_indexes(delete_script(table)[2], table, seq![IndexUpdate::Delete("v-idx"@)]),
        delete_script(table)[2].failure == Some(
            "UpdateTable with VectorIndexUpdates Delete should succeed"@,
        ),
        awaits(delete_script(table)[3], table, "v-idx"@, false),
        deletes(delete_script(table)[4], table),
{
    lemma_one_index_is_asked_for("v-idx"@);
    lemma_updates_are_asked_for(
        table,
        seq![IndexUpdate::Delete("v-idx"@)],
        "UpdateTable with VectorIndexUpdates Delete should succeed"@,
    );
}

/// After the one request that replaces the index, the new index is awaited served and the old one
/// is awaited gone, before the table is deleted.
pub proof fn lemma_replaced_index_is_awaited_gone(table: Seq<char>)
    ensures
        replace_script(table).len() == 6,
        creates_with_index(replace_script(table)[0], table, "v-idx-a"@),
        replace_script(table)[0].failure == Some(
            "CreateTable with first VectorIndex should succeed"@,
        ),
        awaits(replace_script(table)[1], table, "v-idx-a"@, true),
        updates_indexes(
            replace_script(table)[2],
            table,
            seq![IndexUpdate::Create("v-idx-b"@), IndexUpdate::Delete("v-idx-a"@)],
        ),
        replace_script(table)[2].failure == Some(
            "UpdateTable with simultaneous Create+Delete VectorIndexUpdates should succeed"@,
        ),
        awaits(replace_script(table)[3], table, "v-idx-b"@, true),
        awaits(replace_script(table)[4], table, "v-idx-a"@, false),
        deletes(replace_script(table)[5], table),
{
    lemma_one_index_is_asked_for("v-idx-a"@);
    lemma_updates_are_asked_for(
        table,
        seq![IndexUpdate::Create("v-idx-b"@), IndexUpdate::Delete("v-idx-a"@)],
        "UpdateTable with simultaneous Create+Delete VectorIndexUpdates should succeed"@,
    );
}

} // verus!
