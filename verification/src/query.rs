//! Search for vectors in a table.

use crate::cluster::Timeout;
use crate::operations::await_index;
use crate::operations::awaits;
use crate::operations::create_table_with_vector_index;
use crate::operations::creates_with_index;
use crate::operations::delete_table;
use crate::operations::deletes;
use crate::operations::index_served;
use crate::operations::indexed_table_created;
use crate::operations::script_of;
use crate::operations::table_deleted;
use crate::operations::Action;
use crate::operations::Operation;
use crate::operations::Step;
use crate::operations::StepModel;
use crate::payload::inject_vector_search;
use crate::payload::lemma_one_index_is_asked_for;
use crate::payload::vector_search;
use crate::scenario::case_of;
use crate::scenario::INDEX_NAME;
use crate::scenario::Scenario;
use crate::scenario::TestCase;
use crate::text::decimal;
use crate::text::decimal_text;
use crate::text::lemma_decimal_writes;
use crate::text::lemma_written_one_way;
use crate::text::writes;
use vstd::prelude::*;

verus! {

/// How many items are inserted.
pub const ITEMS: u8 = 5;

/// How many items are asked for.
pub const QUERY_LIMIT: u16 = 2;

/// The step that inserts the item with the number `i`, whose vector is (i, i + 1, i + 2).
pub open spec fn item_put(table: Seq<char>, i: int) -> StepModel {
    StepModel {
        action: Action::PutItem {
            table,
            pk: "pk-"@ + decimal(i as nat),
            v: seq![i as u8, (i + 1) as u8, (i + 2) as u8],
        },
        failure: Some("PutItem should succeed"@),
    }
}

/// The step that searches for the vector (1, 2, 3).
pub open spec fn vector_searched(table: Seq<char>) -> StepModel {
    StepModel {
        action: Action::Query { table, limit: QUERY_LIMIT as nat, fields: vector_search() },
        failure: Some("Query with VectorSearch should succeed"@),
    }
}

/// The steps of [`query_with_vector_search`].
pub open spec fn script(table: Seq<char>) -> Seq<StepModel> {
    seq![
        indexed_table_created(
            table,
            INDEX_NAME@,
            "CreateTable with VectorIndex should succeed"@,
        ),
    ] + Seq::new(ITEMS as nat, |i: int| item_put(table, i)) + seq![
        index_served(table, INDEX_NAME@),
        vector_searched(table),
        table_deleted(table),
    ]
}

/// What is wrong with an answer of `count` items to a search for at most `limit` of them.
pub open spec fn complaint_about(limit: nat, count: nat) -> Option<Seq<char>> {
    if count == 0 {
        Some("Query with VectorSearch should return at least one item"@)
    } else if count > limit {
        Some(
            "Query with VectorSearch Limit="@ + decimal(limit) + " should return at most "@
                + decimal(limit) + " items, got "@ + decimal(count),
        )
    } else {
        None
    }
}

/// Checks the number of items in the answer to a search for at most `limit` of them: there has
/// to be one, and the limit has to be respected.
pub fn check_items(limit: u16, count: usize) -> (complaint: Option<String>)
    ensures
        match complaint {
            Some(text) => complaint_about(limit as nat, count as nat) == Some(text@),
            None => complaint_about(limit as nat, count as nat) is None,
        },
        complaint is None <==> 1 <= count <= limit,
{
    if count == 0 {
        Some(String::from_str("Query with VectorSearch should return at least one item"))
    } else if count > limit as usize {
        let limit_text: String = decimal_text(limit as u64);
        Some(
            String::from_str("Query with VectorSearch Limit=").concat(limit_text.as_str()).concat(
                " should return at most ",
            ).concat(limit_text.as_str()).concat(" items, got ").concat(
                decimal_text(count as u64).as_str(),
            ),
        )
    } else {
        None
    }
}

/// Inserts the item with the number `i`.
fn put_numbered_item(table_name: &str, i: u8) -> (step: Step)
    requires
        i < ITEMS,
    ensures
        step@ == item_put(table_name@, i as int),
{
    let v: [u8; 3] = [i, i + 1, i + 2];
    assert(v@ =~= seq![i, (i + 1) as u8, (i + 2) as u8]);
    Step {
        operation: Operation::PutItem {
            table_name: String::from_str(table_name),
            pk: String::from_str("pk-").concat(decimal_text(i as u64).as_str()),
            v,
        },
        failure: Some(String::from_str("PutItem should succeed")),
    }
}

/// Creates a table with a vector index, inserts 5 items, waits for the index to be served, then
/// searches for a vector (without a key condition) and asks for 2 items.
pub fn query_with_vector_search(table_name: &str) -> (steps: Vec<Step>)
    ensures
        script_of(steps@) == script(table_name@),
{
    let mut steps: Vec<Step> = Vec::new();
    steps.push(create_table_with_vector_index(table_name, INDEX_NAME));
    let mut i: u8 = 0;
    while i < ITEMS
        invariant
            i <= ITEMS,
            steps@.len() == i + 1,
            script_of(steps@) == script(table_name@).take(i + 1),
        decreases ITEMS - i,
    {
        steps.push(put_numbered_item(table_name, i));
        i = i + 1;
        assert(script_of(steps@) =~= script(table_name@).take(i + 1));
    }
    let ghost inserted = steps@;
    steps.push(await_index(table_name, INDEX_NAME));
    steps.push(
        Step {
            operation: Operation::Query {
                table_name: String::from_str(table_name),
                limit: QUERY_LIMIT,
                inject: inject_vector_search(),
            },
            failure: Some(String::from_str("Query with VectorSearch should succeed")),
        },
    );
    steps.push(delete_table(table_name));
    assert(script_of(steps@).take(ITEMS + 1) =~= script_of(inserted));
    assert forall|j: int| 0 <= j < steps@.len() implies script_of(steps@)[j] == script(
        table_name@,
    )[j] by {
        if j <= ITEMS {
            assert(script_of(steps@)[j] == script_of(steps@).take(ITEMS + 1)[j]);
            assert(script(table_name@)[j] == script(table_name@).take(ITEMS + 1)[j]);
        }
    }
    assert(script_of(steps@) =~= script(table_name@));
    steps
}

/// Registers the scenario.
pub fn new(timeout: Timeout) -> (case: TestCase)
    ensures
        case@ == case_of(
            timeout,
            seq![("query_with_vector_search"@, Scenario::QueryWithVectorSearch)],
        ),
{
    TestCase::empty().with_init(timeout).with_cleanup(timeout).with_test(
        "query_with_vector_search",
        timeout,
        Scenario::QueryWithVectorSearch,
    )
}

/// An answer is accepted exactly if it holds an item, and not more of them than were asked for.
/// Of another it is said what is wrong with it, with the numbers.
pub proof fn lemma_answer_respects_limit(
    limit: nat,
    count: nat,
    limit_digits: Seq<char>,
    count_digits: Seq<char>,
)
    requires
        writes(limit_digits, limit),
        writes(count_digits, count),
    ensures
        complaint_about(limit, count) is None <==> 1 <= count <= limit,
        count == 0 ==> complaint_about(limit, count) == Some(
            "Query with VectorSearch should return at least one item"@,
        ),
        count > limit && count > 0 ==> complaint_about(limit, count) == Some(
            "Query with VectorSearch Limit="@ + limit_digits + " should return at most "@
                + limit_digits + " items, got "@ + count_digits,
        ),
{
    lemma_written_one_way(limit_digits, limit);
    lemma_written_one_way(count_digits, count);
}

/// Five items are inserted into the table before its index is awaited: the item with the number n
/// has the key `pk-n` and the vector (n, n + 1, n + 2). Then two items are asked for, and the
/// table is deleted.
pub proof fn lemma_query_follows_items(table: Seq<char>, n: int)
    requires
        0 <= n < 5,
    ensures
        script(table).len() == 9,
        creates_with_index(script(table)[0], table, "v-idx"@),
        script(table)[0].failure == Some("CreateTable with VectorIndex should succeed"@),
        ({
            &&& script(table)[n + 1].action matches Action::PutItem { table: t, pk, v }
            &&& t == table
            &&& pk.take(3) == "pk-"@
            &&& writes(pk.skip(3), n as nat)
            &&& v.len() == 3
            &&& v[0] == n
            &&& v[1] == n + 1
            &&& v[2] == n + 2
            &&& script(table)[n + 1].failure == Some("PutItem should succeed"@)
        }),
        awaits(script(table)[6], table, "v-idx"@, true),
        ({
            &&& script(table)[7].action matches Action::Query { table: t, limit, fields }
            &&& t == table
            &&& limit == 2
            &&& fields == vector_search()
            &&& script(table)[7].failure == Some("Query with VectorSearch should succeed"@)
        }),
        deletes(script(table)[8], table),
{
    lemma_one_index_is_asked_for("v-idx"@);
    lemma_decimal_writes(n as nat);
    reveal_strlit("pk-");
    let pk = "pk-"@ + decimal(n as nat);
    assert(pk.take(3) =~= "pk-"@);
    assert(pk.skip(3) =~= decimal(n as nat));
    assert(script(table)[n + 1] == item_put(table, n));
}

} // verus!
