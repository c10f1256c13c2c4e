//! A model of what the operations of a scenario do to the tables of a database, and why in this
//! model no scenario waits for something that does not come.

use crate::create_table;
use crate::delete_table;
use crate::json::Json;
use crate::naming::keyspace_of;
use crate::naming::lemma_keyspaces_differ;
use crate::naming::IndexId;
use crate::operations::awaits;
use crate::operations::index_of;
use crate::operations::Action;
use crate::operations::StepModel;
use crate::payload::index_description;
use crate::payload::update_description;
use crate::payload::vector_index_updates;
use crate::payload::vector_indexes;
use crate::payload::IndexUpdate;
use crate::query;
use crate::scenario::INDEX_NAME;
use crate::scenario::Scenario;
use crate::update_table;
use crate::update_table::INDEX_A_NAME;
use crate::update_table::INDEX_B_NAME;
use vstd::prelude::*;

verus! {

/// The tables of a database, each with the names of its vector indexes.
pub type Tables = Map<Seq<char>, Set<Seq<char>>>;

/// Whether `json` is an object whose `IndexName` is `name`.
pub open spec fn names_index(json: Json, name: Seq<char>) -> bool {
    json matches Json::Object(members) && members.contains_key("IndexName"@)
        && members["IndexName"@] == Json::Text(name)
}

/// Whether `json` is an object whose member `verb` names the index `name`.
pub open spec fn applies_to(json: Json, verb: Seq<char>, name: Seq<char>) -> bool {
    json matches Json::Object(members) && members.contains_key(verb) && names_index(
        members[verb],
        name,
    )
}

/// The items of the list that the field `key` holds.
pub open spec fn listed(fields: Map<Seq<char>, Json>, key: Seq<char>) -> Seq<Json> {
    if fields.contains_key(key) {
        match fields[key] {
            Json::List(items) => items,
            _ => Seq::empty(),
        }
    } else {
        Seq::empty()
    }
}

/// The vector indexes that the fields of a request give a new table.
pub open spec fn new_indexes(fields: Map<Seq<char>, Json>) -> Set<Seq<char>> {
    Set::new(
        |name: Seq<char>|
            exists|i: int|
                0 <= i < listed(fields, "VectorIndexes"@).len() && #[trigger] names_index(
                    listed(fields, "VectorIndexes"@)[i],
                    name,
                ),
    )
}

/// The vector indexes for which the fields of a request ask `verb`.
pub open spec fn updated_indexes(fields: Map<Seq<char>, Json>, verb: Seq<char>) -> Set<Seq<char>> {
    Set::new(
        |name: Seq<char>|
            exists|i: int|
                0 <= i < listed(fields, "VectorIndexUpdates"@).len() && #[trigger] applies_to(
                    listed(fields, "VectorIndexUpdates"@)[i],
                    verb,
                    name,
                ),
    )
}

/// Whether some table has the index.
pub open spec fn has_index(tables: Tables, index: IndexId) -> bool {
    exists|table: Seq<char>| #[trigger]
        tables.contains_key(table) && keyspace_of(table) == index.keyspace
            && tables[table].contains(index.index)
}

/// Whether a database with these tables grants the action. It grants a wait when what is waited
/// for is the case.
pub open spec fn grants(tables: Tables, action: Action) -> bool {
    match action {
        Action::CreateTable { table, .. } => !tables.contains_key(table.name),
        Action::UpdateTable { table, fields } => {
            &&& tables.contains_key(table)
            &&& updated_indexes(fields, "Create"@).disjoint(tables[table])
            &&& updated_indexes(fields, "Delete"@).subset_of(tables[table])
        },
        Action::PutItem { table, .. } => tables.contains_key(table),
        Action::Query { table, .. } => {
            &&& tables.contains_key(table)
            &&& exists|name: Seq<char>| tables[table].contains(name)
        },
        Action::DeleteTable { table } => tables.contains_key(table),
        Action::AwaitIndex { index } => has_index(tables, index),
        Action::AwaitNoIndex { index } => !has_index(tables, index),
    }
}

/// The tables after the action.
pub open spec fn tables_after(tables: Tables, action: Action) -> Tables {
    match action {
        Action::CreateTable { table, fields } => tables.insert(
            table.name,
            match fields {
                Some(members) => new_indexes(members),
                None => Set::empty(),
            },
        ),
        Action::UpdateTable { table, fields } => tables.insert(
            table,
            tables[table].union(updated_indexes(fields, "Create"@)).difference(
                updated_indexes(fields, "Delete"@),
            ),
        ),
        Action::DeleteTable { table } => tables.remove(table),
        _ => tables,
    }
}

/// The tables after the first `count` steps of `script`.
pub open spec fn tables_after_steps(tables: Tables, script: Seq<StepModel>, count: nat) -> Tables
    decreases count,
{
    if count == 0 {
        tables
    } else {
        tables_after(
            tables_after_steps(tables, script, (count - 1) as nat),
            script[count - 1].action,
        )
    }
}

/// Whether each step of `script` is granted when its turn comes.
pub open spec fn can_be_played(tables: Tables, script: Seq<StepModel>) -> bool {
    forall|i: int|
        0 <= i < script.len() ==> grants(
            tables_after_steps(tables, script, i as nat),
            (#[trigger] script[i]).action,
        )
}

/// A new table has exactly the index that is asked for.
pub proof fn lemma_new_index(name: Seq<char>)
    ensures
        new_indexes(vector_indexes(name)) == set![name],
{
    let fields = vector_indexes(name);
    let items = listed(fields, "VectorIndexes"@);
    assert(items =~= seq![index_description(name)]);
    lemma_keys_differ();
    assert forall|other: Seq<char>| new_indexes(fields).contains(other) <==> other == name by {
        assert(names_index(items[0], name));
        if new_indexes(fields).contains(other) {
            let i = choose|i: int| 0 <= i < items.len() && #[trigger] names_index(items[i], other);
            assert(i == 0);
        }
    }
    assert(new_indexes(fields) =~= set![name]);
}

/// The keys of the descriptions differ.
proof fn lemma_keys_differ()
    ensures
        "IndexName"@ != "VectorAttribute"@,
        "Create"@ != "Delete"@,
{
    reveal_strlit("IndexName");
    reveal_strlit("VectorAttribute");
    reveal_strlit("Create");
    reveal_strlit("Delete");
    assert("IndexName"@.len() != "VectorAttribute"@.len());
    assert("Create"@[0] != "Delete"@[0]);
}

/// A request to change indexes asks for exactly the changes that it is made of.
pub proof fn lemma_updated_indexes(updates: Seq<IndexUpdate>, name: Seq<char>)
    ensures
        updated_indexes(vector_index_updates(updates), "Create"@).contains(name)
            <==> updates.contains(IndexUpdate::Create(name)),
        updated_indexes(vector_index_updates(updates), "Delete"@).contains(name)
            <==> updates.contains(IndexUpdate::Delete(name)),
{
    let fields = vector_index_updates(updates);
    let items = listed(fields, "VectorIndexUpdates"@);
    assert(items =~= Seq::new(updates.len(), |i: int| update_description(updates[i])));
    lemma_keys_differ();
    assert forall|i: int| 0 <= i < updates.len() implies {
        &&& applies_to(#[trigger] items[i], "Create"@, name) <==> updates[i]
            == IndexUpdate::Create(name)
        &&& applies_to(items[i], "Delete"@, name) <==> updates[i] == IndexUpdate::Delete(name)
    } by {
        match updates[i] {
            IndexUpdate::Create(_) => {},
            IndexUpdate::Delete(_) => {},
        }
    }
    if updates.contains(IndexUpdate::Create(name)) {
        let i = choose|i: int| 0 <= i < updates.len() && updates[i] == IndexUpdate::Create(name);
        assert(applies_to(items[i], "Create"@, name));
    }
    if updates.contains(IndexUpdate::Delete(name)) {
        let i = choose|i: int| 0 <= i < updates.len() && updates[i] == IndexUpdate::Delete(name);
        assert(applies_to(items[i], "Delete"@, name));
    }
}

/// The Vector Store knows an index of a table apart from the indexes of other tables: the index
/// is there exactly if the table has it.
pub proof fn lemma_index_is_found_by_keyspace(tables: Tables, table: Seq<char>, name: Seq<char>)
    ensures
        has_index(tables, index_of(table, name)) <==> tables.contains_key(table)
            && tables[table].contains(name),
{
    if has_index(tables, index_of(table, name)) {
        let other = choose|other: Seq<char>| #[trigger]
            tables.contains_key(other) && keyspace_of(other) == keyspace_of(table)
                && tables[other].contains(name);
        if other != table {
            lemma_keyspaces_differ(other, table);
        }
    }
}

/// The tables after one step more.
proof fn lemma_next_step(tables: Tables, script: Seq<StepModel>, count: nat, now: Tables)
    requires
        tables_after_steps(tables, script, count) == now,
    ensures
        tables_after_steps(tables, script, count + 1) == tables_after(
            now,
            script[count as int].action,
        ),
{
}

/// A new table with one index: what is granted then, and that its deletion undoes its creation.
proof fn lemma_indexed_table(tables: Tables, table: Seq<char>, name: Seq<char>)
    requires
        !tables.contains_key(table),
    ensures
        tables.insert(table, new_indexes(vector_indexes(name))) == tables.insert(
            table,
            set![name],
        ),
        has_index(tables.insert(table, set![name]), index_of(table, name)),
        !has_index(tables, index_of(table, name)),
        tables.insert(table, set![name]).remove(table) == tables,
{
    lemma_new_index(name);
    lemma_index_is_found_by_keyspace(tables, table, name);
    lemma_index_is_found_by_keyspace(tables.insert(table, set![name]), table, name);
    assert(tables.insert(table, set![name]).remove(table) =~= tables);
}

proof fn lemma_create_table_can_be_played(tables: Tables, table: Seq<char>)
    requires
        !tables.contains_key(table),
    ensures
        can_be_played(tables, create_table::script(table)),
        tables_after_steps(tables, create_table::script(table), create_table::script(table).len())
            == tables,
{
    let script = create_table::script(table);
    let indexed = tables.insert(table, set![INDEX_NAME@]);
    lemma_indexed_table(tables, table, INDEX_NAME@);
    lemma_next_step(tables, script, 0, tables);
    lemma_next_step(tables, script, 1, indexed);
    lemma_next_step(tables, script, 2, indexed);
}

proof fn lemma_delete_table_can_be_played(tables: Tables, table: Seq<char>)
    requires
        !tables.contains_key(table),
    ensures
        can_be_played(tables, delete_table::script(table)),
        tables_after_steps(tables, delete_table::script(table), delete_table::script(table).len())
            == tables,
{
    let script = delete_table::script(table);
    let indexed = tables.insert(table, set![INDEX_NAME@]);
    lemma_indexed_table(tables, table, INDEX_NAME@);
    lemma_next_step(tables, script, 0, tables);
    lemma_next_step(tables, script, 1, indexed);
    lemma_next_step(tables, script, 2, indexed);
    lemma_next_step(tables, script, 3, tables);
}

proof fn lemma_query_can_be_played(tables: Tables, table: Seq<char>)
    requires
        !tables.contains_key(table),
    ensures
        can_be_played(tables, query::script(table)),
        tables_after_steps(tables, query::script(table), query::script(table).len()) == tables,
{
    let script = query::script(table);
    let indexed = tables.insert(table, set![INDEX_NAME@]);
    lemma_indexed_table(tables, table, INDEX_NAME@);
    lemma_next_step(tables, script, 0, tables);
    lemma_next_step(tables, script, 1, indexed);
    lemma_next_step(tables, script, 2, indexed);
    lemma_next_step(tables, script, 3, indexed);
    lemma_next_step(tables, script, 4, indexed);
    lemma_next_step(tables, script, 5, indexed);
    lemma_next_step(tables, script, 6, indexed);
    lemma_next_step(tables, script, 7, indexed);
    lemma_next_step(tables, script, 8, indexed);
    assert(indexed[table].contains(INDEX_NAME@));
}

proof fn lemma_create_index_can_be_played(tables: Tables, table: Seq<char>)
    requires
        !tables.contains_key(table),
    ensures
        can_be_played(tables, update_table::create_script(table)),
        tables_after_steps(
            tables,
            update_table::create_script(table),
            update_table::create_script(table).len(),
        ) == tables,
{
    let script = update_table::create_script(table);
    let plain = tables.insert(table, Set::empty());
    let indexed = tables.insert(table, set![INDEX_NAME@]);
    let updates = seq![IndexUpdate::Create(INDEX_NAME@)];
    lemma_indexed_table(tables, table, INDEX_NAME@);
    assert(updates.contains(updates[0]));
    let created = updated_indexes(vector_index_updates(updates), "Create"@);
    let deleted = updated_indexes(vector_index_updates(updates), "Delete"@);
    assert forall|name: Seq<char>| #[trigger] created.contains(name) <==> name == INDEX_NAME@ by {
        lemma_updated_indexes(updates, name);
    }
    assert forall|name: Seq<char>| !#[trigger] deleted.contains(name) by {
        lemma_updated_indexes(updates, name);
    }
    lemma_next_step(tables, script, 0, tables);
    lemma_next_step(tables, script, 1, plain);
    assert(tables_after(plain, script[1].action) =~~= indexed);
    lemma_next_step(tables, script, 2, indexed);
    lemma_next_step(tables, script, 3, indexed);
}

proof fn lemma_delete_index_can_be_played(tables: Tables, table: Seq<char>)
    requires
        !tables.contains_key(table),
    ensures
        can_be_played(tables, update_table::delete_script(table)),
        tables_after_steps(
            tables,
            update_table::delete_script(table),
            update_table::delete_script(table).len(),
        ) == tables,
{
    let script = update_table::delete_script(table);
    let plain = tables.insert(table, Set::empty());
    let indexed = tables.insert(table, set![INDEX_NAME@]);
    let updates = seq![IndexUpdate::Delete(INDEX_NAME@)];
    lemma_indexed_table(tables, table, INDEX_NAME@);
    lemma_index_is_found_by_keyspace(plain, table, INDEX_NAME@);
    assert(updates.contains(updates[0]));
    let created = updated_indexes(vector_index_updates(updates), "Create"@);
    let deleted = updated_indexes(vector_index_updates(updates), "Delete"@);
    assert forall|name: Seq<char>| #[trigger] deleted.contains(name) <==> name == INDEX_NAME@ by {
        lemma_updated_indexes(updates, name);
    }
    assert forall|name: Seq<char>| !#[trigger] created.contains(name) by {
        lemma_updated_indexes(updates, name);
    }
    lemma_next_step(tables, script, 0, tables);
    lemma_next_step(tables, script, 1, indexed);
    lemma_next_step(tables, script, 2, indexed);
    assert(tables_after(indexed, script[2].action) =~~= plain);
    lemma_next_step(tables, script, 3, plain);
    lemma_next_step(tables, script, 4, plain);
    assert(plain.remove(table) =~= tables);
}

proof fn lemma_replace_index_can_be_played(tables: Tables, table: Seq<char>)
    requires
        !tables.contains_key(table),
    ensures
        can_be_played(tables, update_table::replace_script(table)),
        tables_after_steps(
            tables,
            update_table::replace_script(table),
            update_table::replace_script(table).len(),
        ) == tables,
{
    let script = update_table::replace_script(table);
    let first = tables.insert(table, set![INDEX_A_NAME@]);
    let second = tables.insert(table, set![INDEX_B_NAME@]);
    let updates = seq![IndexUpdate::Create(INDEX_B_NAME@), IndexUpdate::Delete(INDEX_A_NAME@)];
    assert(INDEX_A_NAME@ != INDEX_B_NAME@) by {
        reveal_strlit("v-idx-a");
        reveal_strlit("v-idx-b");
        assert(INDEX_A_NAME@[6] != INDEX_B_NAME@[6]);
    }
    lemma_indexed_table(tables, table, INDEX_A_NAME@);
    lemma_indexed_table(tables, table, INDEX_B_NAME@);
    lemma_index_is_found_by_keyspace(second, table, INDEX_A_NAME@);
    assert(updates.contains(updates[0]));
    assert(updates.contains(updates[1]));
    let created = updated_indexes(vector_index_updates(updates), "Create"@);
    let deleted = updated_indexes(vector_index_updates(updates), "Delete"@);
    assert forall|name: Seq<char>| #[trigger] created.contains(name) <==> name == INDEX_B_NAME@ by {
        lemma_updated_indexes(updates, name);
    }
    assert forall|name: Seq<char>| #[trigger] deleted.contains(name) <==> name == INDEX_A_NAME@ by {
        lemma_updated_indexes(updates, name);
    }
    lemma_next_step(tables, script, 0, tables);
    lemma_next_step(tables, script, 1, first);
    lemma_next_step(tables, script, 2, first);
    assert(tables_after(first, script[2].action) =~~= second);
    lemma_next_step(tables, script, 3, second);
    lemma_next_step(tables, script, 4, second);
    lemma_next_step(tables, script, 5, second);
}

/// In this model, a scenario that is started on a table that does not exist yet meets no refusal,
/// waits for nothing that does not come, and leaves the database with the tables that it had.
pub proof fn lemma_scenario_can_be_played(scenario: Scenario, tables: Tables, table: Seq<char>)
    requires
        !tables.contains_key(table),
    ensures
        can_be_played(tables, scenario.script(table)),
        tables_after_steps(tables, scenario.script(table), scenario.script(table).len()) == tables,
{
    match scenario {
        Scenario::CreateTableWithVectorIndex => lemma_create_table_can_be_played(tables, table),
        Scenario::DeleteTableRemovesVectorIndex => lemma_delete_table_can_be_played(tables, table),
        Scenario::QueryWithVectorSearch => lemma_query_can_be_played(tables, table),
        Scenario::CreateVectorIndexViaUpdateTable => lemma_create_index_can_be_played(
            tables,
            table,
        ),
        Scenario::DeleteVectorIndexViaUpdateTable => lemma_delete_index_can_be_played(
            tables,
            table,
        ),
        Scenario::ReplaceVectorIndexViaUpdateTable => lemma_replace_index_can_be_played(
            tables,
            table,
        ),
    }
}

/// Whether the two databases agree on `table`.
pub open spec fn agree_on(a: Tables, b: Tables, table: Seq<char>) -> bool {
    &&& a.contains_key(table) == b.contains_key(table)
    &&& a.contains_key(table) ==> a[table] == b[table]
}

/// Scenarios on different tables can be played at the same time: in this model, a step of one is
/// granted or refused, and where granted changes its table, whatever other tables there are, and
/// it leaves those alone.
pub proof fn lemma_scenarios_keep_apart(
    scenario: Scenario,
    table: Seq<char>,
    i: int,
    a: Tables,
    b: Tables,
    other: Seq<char>,
)
    requires
        0 <= i < scenario.script(table).len(),
        agree_on(a, b, table),
        other != table,
    ensures
        grants(a, scenario.script(table)[i].action) == grants(b, scenario.script(table)[i].action),
        grants(a, scenario.script(table)[i].action) ==> agree_on(
            tables_after(a, scenario.script(table)[i].action),
            tables_after(b, scenario.script(table)[i].action),
            table,
        ),
        agree_on(a, tables_after(a, scenario.script(table)[i].action), other),
{
    let action = scenario.script(table)[i].action;
    match action {
        Action::AwaitIndex { index } => {
            lemma_index_is_found_by_keyspace(a, table, index.index);
            lemma_index_is_found_by_keyspace(b, table, index.index);
        },
        Action::AwaitNoIndex { index } => {
            lemma_index_is_found_by_keyspace(a, table, index.index);
            lemma_index_is_found_by_keyspace(b, table, index.index);
        },
        _ => {},
    }
}

/// Whether a step of `script` after the step `i` waits for the index `name` of `table`, to be
/// served or to be gone, and no step between the two deletes a table.
pub open spec fn awaited_after(
    script: Seq<StepModel>,
    i: int,
    table: Seq<char>,
    name: Seq<char>,
    served: bool,
) -> bool {
    exists|j: int|
        #![trigger awaits(script[j], table, name, served)]
        i < j < script.len() && awaits(script[j], table, name, served) && forall|k: int|
            i < k < j ==> !((#[trigger] script[k]).action is DeleteTable)
}

/// Every index that a request creates is awaited served, and every index that a request deletes is
/// awaited gone, before the table is deleted.
pub proof fn lemma_every_change_is_awaited(
    scenario: Scenario,
    table: Seq<char>,
    i: int,
    name: Seq<char>,
)
    requires
        0 <= i < scenario.script(table).len(),
    ensures
        match scenario.script(table)[i].action {
            Action::CreateTable { fields: Some(fields), .. } => new_indexes(fields).contains(name)
                ==> awaited_after(scenario.script(table), i, table, name, true),
            Action::UpdateTable { fields, .. } => {
                &&& updated_indexes(fields, "Create"@).contains(name) ==> awaited_after(
                    scenario.script(table),
                    i,
                    table,
                    name,
                    true,
                )
                &&& updated_indexes(fields, "Delete"@).contains(name) ==> awaited_after(
                    scenario.script(table),
                    i,
                    table,
                    name,
                    false,
                )
            },
            _ => true,
        },
{
    let script = scenario.script(table);
    lemma_new_index(INDEX_NAME@);
    lemma_new_index(INDEX_A_NAME@);
    match scenario {
        Scenario::CreateTableWithVectorIndex => {
            assert(awaits(script[1], table, INDEX_NAME@, true));
        },
        Scenario::DeleteTableRemovesVectorIndex => {
            assert(awaits(script[1], table, INDEX_NAME@, true));
        },
        Scenario::QueryWithVectorSearch => {
            assert(awaits(script[6], table, INDEX_NAME@, true));
        },
        Scenario::CreateVectorIndexViaUpdateTable => {
            lemma_updated_indexes(seq![IndexUpdate::Create(INDEX_NAME@)], name);
            assert(awaits(script[2], table, INDEX_NAME@, true));
        },
        Scenario::DeleteVectorIndexViaUpdateTable => {
            lemma_updated_indexes(seq![IndexUpdate::Delete(INDEX_NAME@)], name);
            assert(awaits(script[1], table, INDEX_NAME@, true));
            assert(awaits(script[3], table, INDEX_NAME@, false));
        },
        Scenario::ReplaceVectorIndexViaUpdateTable => {
            lemma_updated_indexes(
                seq![IndexUpdate::Create(INDEX_B_NAME@), IndexUpdate::Delete(INDEX_A_NAME@)],
                name,
            );
            assert(awaits(script[1], table, INDEX_A_NAME@, true));
            assert(awaits(script[3], table, INDEX_B_NAME@, true));
            assert(awaits(script[4], table, INDEX_A_NAME@, false));
        },
    }
}

} // verus!
