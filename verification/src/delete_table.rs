//! Deletion of a table that has a vector index.

use crate::cluster::Timeout;
use crate::operations::await_index;
use crate::operations::await_no_index;
use crate::operations::awaits;
use crate::operations::create_table_with_vector_index;
use crate::operations::creates_with_index;
use crate::operations::delete_table;
use crate::operations::deletes;
use crate::operations::index_dropped;
use crate::operations::index_served;
use crate::operations::indexed_table_created;
use crate::operations::script_of;
use crate::operations::table_deleted;
use crate::operations::Step;
use crate::operations::StepModel;
use crate::payload::lemma_one_index_is_asked_for;
use crate::scenario::case_of;
use crate::scenario::INDEX_NAME;
use crate::scenario::Scenario;
use crate::scenario::TestCase;
use vstd::prelude::*;

verus! {

/// The steps of [`delete_table_removes_vector_index`].
pub open spec fn script(table: Seq<char>) -> Seq<StepModel> {
    seq![
        indexed_table_created(
            table,
            INDEX_NAME@,
            "CreateTable with VectorIndex should succeed"@,
        ),
        index_served(table, INDEX_NAME@),
        table_deleted(table),
        index_dropped(table, INDEX_NAME@),
    ]
}

/// Creates a table with a vector index, waits for the Vector Store to serve it, then deletes
/// the table and confirms that the index disappears from the Vector Store.
pub fn delete_table_removes_vector_index(table_name: &str) -> (steps: Vec<Step>)
    ensures
        script_of(steps@) == script(table_name@),
{
    let mut steps: Vec<Step> = Vec::new();
    steps.push(create_table_with_vector_index(table_name, INDEX_NAME));
    steps.push(await_index(table_name, INDEX_NAME));
    steps.push(delete_table(table_name));
    steps.push(await_no_index(table_name, INDEX_NAME));
    assert(script_of(steps@) =~= script(table_name@));
    steps
}

/// Registers the scenario.
pub fn new(timeout: Timeout) -> (case: TestCase)
    ensures
        case@ == case_of(
            timeout,
            seq![
                ("delete_table_removes_vector_index"@, Scenario::DeleteTableRemovesVectorIndex),
            ],
        ),
{
    TestCase::empty().with_init(timeout).with_cleanup(timeout).with_test(
        "delete_table_removes_vector_index",
        timeout,
        Scenario::DeleteTableRemovesVectorIndex,
    )
}

/// The table is deleted after its index was served, and then the index is awaited gone.
pub proof fn lemma_index_of_deleted_table_is_awaited_gone(table: Seq<char>)
    ensures
        script(table).len() == 4,
        creates_with_index(script(table)[0], table, "v-idx"@),
        script(table)[0].failure == Some("CreateTable with VectorIndex should succeed"@),
        awaits(script(table)[1], table, "v-idx"@, true),
        deletes(script(table)[2], table),
        awaits(script(table)[3], table, "v-idx"@, false),
{
    lemma_one_index_is_asked_for("v-idx"@);
}

} // verus!
