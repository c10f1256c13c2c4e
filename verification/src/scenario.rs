//! The scenarios that a validator plays, and how they are registered.

use crate::cluster::Timeout;
use crate::create_table;
use crate::delete_table;
use crate::json::survives_rereading;
use crate::json::Json;
use crate::naming::counter_after;
use crate::naming::table_name;
use crate::naming::unique_alternator_table_name;
use crate::naming::IndexId;
use crate::naming::TableCounter;
use crate::operations::script_of;
use crate::operations::Action;
use crate::operations::Step;
use crate::operations::StepModel;
use crate::operations::TableShape;
use crate::payload::lemma_vector_index_updates_survive;
use crate::payload::lemma_vector_indexes_survive;
use crate::payload::lemma_vector_search_survives;
use crate::payload::IndexUpdate;
use crate::query;
use crate::run::is_course;
use crate::run::is_playable;
use crate::run::lemma_passed_run_was_never_refused;
use crate::run::played;
use crate::run::Reply;
use crate::run::Run;
use crate::run::RunModel;
use crate::update_table;
use crate::update_table::INDEX_A_NAME;
use crate::update_table::INDEX_B_NAME;
use vstd::prelude::*;

verus! {

/// The name of the vector index of a scenario that needs only one.
pub const INDEX_NAME: &'static str = "v-idx";

/// A scenario.
#[derive(Debug, Clone, Copy, PartialEq, Eq, Structural)]
pub enum Scenario {
    CreateTableWithVectorIndex,
    DeleteTableRemovesVectorIndex,
    QueryWithVectorSearch,
    CreateVectorIndexViaUpdateTable,
    DeleteVectorIndexViaUpdateTable,
    ReplaceVectorIndexViaUpdateTable,
}

impl Scenario {
    /// The steps of the scenario, played on the table `table`.
    pub open spec fn script(self, table: Seq<char>) -> Seq<StepModel> {
        match self {
            Scenario::CreateTableWithVectorIndex => create_table::script(table),
            Scenario::DeleteTableRemovesVectorIndex => delete_table::script(table),
            Scenario::QueryWithVectorSearch => query::script(table),
            Scenario::CreateVectorIndexViaUpdateTable => update_table::create_script(table),
            Scenario::DeleteVectorIndexViaUpdateTable => update_table::delete_script(table),
            Scenario::ReplaceVectorIndexViaUpdateTable => update_table::replace_script(table),
        }
    }

    /// Of every step that may be refused it is known what to say then.
    pub proof fn lemma_script_is_playable(self, table: Seq<char>)
        ensures
            is_playable(self.script(table)),
    {
    }

    /// The fields that a step injects are read by the receiver as they were written.
    pub proof fn lemma_injected_fields_survive(self, table: Seq<char>, i: int)
        requires
            0 <= i < self.script(table).len(),
        ensures
            match self.script(table)[i].action {
                Action::CreateTable { fields: Some(fields), .. } => survives_rereading(
                    Json::Object(fields),
                ),
                Action::UpdateTable { fields, .. } => survives_rereading(Json::Object(fields)),
                Action::Query { fields, .. } => survives_rereading(Json::Object(fields)),
                _ => true,
            },
    {
        lemma_vector_indexes_survive(INDEX_NAME@);
        lemma_vector_indexes_survive(INDEX_A_NAME@);
        lemma_vector_index_updates_survive(seq![IndexUpdate::Create(INDEX_NAME@)]);
        lemma_vector_index_updates_survive(seq![IndexUpdate::Delete(INDEX_NAME@)]);
        lemma_vector_index_updates_survive(
            seq![IndexUpdate::Create(INDEX_B_NAME@), IndexUpdate::Delete(INDEX_A_NAME@)],
        );
        lemma_vector_search_survives();
    }

    /// The steps of the scenario, played on the table `table_name`.
    pub fn steps(self, table_name: &str) -> (steps: Vec<Step>)
        ensures
            script_of(steps@) == self.script(table_name@),
    {
        match self {
            Scenario::CreateTableWithVectorIndex => create_table::create_table_with_vector_index(
                table_name,
            ),
            Scenario::DeleteTableRemovesVectorIndex => {
                delete_table::delete_table_removes_vector_index(table_name)
            },
            Scenario::QueryWithVectorSearch => query::query_with_vector_search(table_name),
            Scenario::CreateVectorIndexViaUpdateTable => {
                update_table::create_vector_index_via_update_table(table_name)
            },
            Scenario::DeleteVectorIndexViaUpdateTable => {
                update_table::delete_vector_index_via_update_table(table_name)
            },
            Scenario::ReplaceVectorIndexViaUpdateTable => {
                update_table::replace_vector_index_via_update_table(table_name)
            },
        }
    }

    /// Starts the scenario on a table with a name of its own.
    pub fn start(self, counter: &mut TableCounter) -> (run: Run)
        ensures
            run.wf(),
            run@ == RunModel::fresh(self.script(table_name(old(counter).next as nat))),
            final(counter).next == counter_after(old(counter).next as nat, 1),
    {
        let name: String = unique_alternator_table_name(counter);
        let steps: Vec<Step> = self.steps(name.as_str());
        proof {
            self.lemma_script_is_playable(name@);
        }
        Run::new(steps)
    }
}

/// Scenarios that are registered together: how long each part may take.
#[derive(Debug)]
pub struct TestCase {
    init: Option<Timeout>,
    cleanup: Option<Timeout>,
    tests: Vec<(&'static str, Timeout, Scenario)>,
}

/// What a [`TestCase`] consists of.
#[verifier::ext_equal]
pub struct TestCaseModel {
    /// The timeout of the start of the cluster, where it is started before the scenarios.
    pub init: Option<Timeout>,
    /// The timeout of its end, where it is stopped after them.
    pub cleanup: Option<Timeout>,
    /// The scenarios, with their names and timeouts.
    pub tests: Seq<(Seq<char>, Timeout, Scenario)>,
}

impl View for TestCase {
    type V = TestCaseModel;

    closed spec fn view(&self) -> TestCaseModel {
        TestCaseModel {
            init: self.init,
            cleanup: self.cleanup,
            tests: Seq::new(
                self.tests@.len(),
                |i: int| (self.tests@[i].0@, self.tests@[i].1, self.tests@[i].2),
            ),
        }
    }
}

impl TestCase {
    /// A test case without scenarios.
    pub fn empty() -> (case: Self)
        ensures
            case@ == (TestCaseModel { init: None, cleanup: None, tests: Seq::empty() }),
    {
        let case = TestCase { init: None, cleanup: None, tests: Vec::new() };
        assert(case@ =~= TestCaseModel { init: None, cleanup: None, tests: Seq::empty() });
        case
    }

    /// Has the cluster started before the scenarios.
    pub fn with_init(self, timeout: Timeout) -> (case: Self)
        ensures
            case@ == (TestCaseModel { init: Some(timeout), ..self@ }),
    {
        TestCase { init: Some(timeout), cleanup: self.cleanup, tests: self.tests }
    }

    /// Has the cluster stopped after the scenarios.
    pub fn with_cleanup(self, timeout: Timeout) -> (case: Self)
        ensures
            case@ == (TestCaseModel { cleanup: Some(timeout), ..self@ }),
    {
        TestCase { init: self.init, cleanup: Some(timeout), tests: self.tests }
    }

    /// Adds a scenario.
    pub fn with_test(self, name: &'static str, timeout: Timeout, scenario: Scenario) -> (case:
        Self)
        ensures
            case@ == (TestCaseModel {
                tests: self@.tests.push((name@, timeout, scenario)),
                ..self@
            }),
    {
        let mut tests: Vec<(&'static str, Timeout, Scenario)> = self.tests;
        tests.push((name, timeout, scenario));
        let case = TestCase { init: self.init, cleanup: self.cleanup, tests };
        assert(case@.tests =~= self@.tests.push((name@, timeout, scenario)));
        case
    }

    /// The timeout of the start of the cluster.
    pub fn init(&self) -> (timeout: Option<Timeout>)
        ensures
            timeout == self@.init,
    {
        self.init
    }

    /// The timeout of the end of the cluster.
    pub fn cleanup(&self) -> (timeout: Option<Timeout>)
        ensures
            timeout == self@.cleanup,
    {
        self.cleanup
    }

    /// The scenarios in the order of their registration.
    pub fn tests(&self) -> (tests: &Vec<(&'static str, Timeout, Scenario)>)
        ensures
            tests@.len() == self@.tests.len(),
            forall|i: int|
                0 <= i < tests@.len() ==> self@.tests[i] == (
                    (#[trigger] tests@[i]).0@,
                    tests@[i].1,
                    tests@[i].2,
                ),
    {
        &self.tests
    }
}

/// The test case of the given scenarios: the cluster is started before them and stopped after
/// them, and each part may take `timeout`.
pub open spec fn case_of(
    timeout: Timeout,
    tests: Seq<(Seq<char>, Scenario)>,
) -> TestCaseModel {
    TestCaseModel {
        init: Some(timeout),
        cleanup: Some(timeout),
        tests: Seq::new(tests.len(), |i: int| (tests[i].0, timeout, tests[i].1)),
    }
}

/// Each scenario is that of its module.
pub proof fn lemma_scenarios_are_those_of_modules(table: Seq<char>)
    ensures
        Scenario::CreateTableWithVectorIndex.script(table) == create_table::script(table),
        Scenario::DeleteTableRemovesVectorIndex.script(table) == delete_table::script(table),
        Scenario::QueryWithVectorSearch.script(table) == query::script(table),
        Scenario::CreateVectorIndexViaUpdateTable.script(table) == update_table::create_script(
            table,
        ),
        Scenario::DeleteVectorIndexViaUpdateTable.script(table) == update_table::delete_script(
            table,
        ),
        Scenario::ReplaceVectorIndexViaUpdateTable.script(table) == update_table::replace_script(
            table,
        ),
{
}

/// The action on another table: `table` takes the place of the table that it is on.
pub open spec fn moved(action: Action, table: Seq<char>) -> Action {
    match action {
        Action::CreateTable { table: shape, fields } => Action::CreateTable {
            table: TableShape { name: table, ..shape },
            fields,
        },
        Action::UpdateTable { fields, .. } => Action::UpdateTable { table, fields },
        Action::PutItem { pk, v, .. } => Action::PutItem { table, pk, v },
        Action::Query { limit, fields, .. } => Action::Query { table, limit, fields },
        Action::DeleteTable { .. } => Action::DeleteTable { table },
        Action::AwaitIndex { index } => Action::AwaitIndex {
            index: IndexId { keyspace: "alternator_"@ + table, ..index },
        },
        Action::AwaitNoIndex { index } => Action::AwaitNoIndex {
            index: IndexId { keyspace: "alternator_"@ + table, ..index },
        },
    }
}

/// A scenario is the same on every table, but for the name of the table.
pub proof fn lemma_scenario_is_the_same_on_every_table(
    scenario: Scenario,
    a: Seq<char>,
    b: Seq<char>,
    i: int,
)
    requires
        0 <= i < scenario.script(a).len(),
    ensures
        scenario.script(b).len() == scenario.script(a).len(),
        scenario.script(b)[i].action == moved(scenario.script(a)[i].action, b),
        scenario.script(b)[i].failure == scenario.script(a)[i].failure,
{
    match scenario {
        Scenario::QueryWithVectorSearch => {
            if 1 <= i <= 5 {
                assert(query::script(a)[i] == query::item_put(a, i - 1));
                assert(query::script(b)[i] == query::item_put(b, i - 1));
            }
        },
        _ => {},
    }
}

/// Of every request it is known what to say when it is refused, and waits are not refused.
pub proof fn lemma_requests_have_failures(scenario: Scenario, table: Seq<char>, i: int)
    requires
        0 <= i < scenario.script(table).len(),
    ensures
        scenario.script(table)[i].failure is None <==> (scenario.script(table)[i].action
            is AwaitIndex || scenario.script(table)[i].action is AwaitNoIndex),
{
}

/// A scenario that passed was refused nothing, and its search, if it has one, brought an item and
/// not more than were asked for.
pub proof fn lemma_passed_scenario_was_never_refused(
    scenario: Scenario,
    table: Seq<char>,
    replies: Seq<Reply>,
    i: int,
)
    requires
        is_course(RunModel::fresh(scenario.script(table)), replies),
        played(RunModel::fresh(scenario.script(table)), replies).passed(),
        0 <= i < scenario.script(table).len(),
    ensures
        replies.len() == scenario.script(table).len(),
        match scenario.script(table)[i].action {
            Action::Query { limit, .. } => replies[i] matches Reply::Items(count) && 1 <= count
                <= limit,
            _ => replies[i] == Reply::Done,
        },
{
    let script = scenario.script(table);
    assert forall|j: int|
        #![trigger script[j]]
        0 <= j < script.len() implies script[j].failure is Some || script[j].action is AwaitIndex
        || script[j].action is AwaitNoIndex by {
        lemma_requests_have_failures(scenario, table, j);
    }
    lemma_passed_run_was_never_refused(script, replies, i);
}

/// In a test case of the given scenarios, each has its name, every part has the given timeout, and
/// the cluster is started and stopped.
pub proof fn lemma_case_has_its_scenarios(timeout: Timeout, tests: Seq<(Seq<char>, Scenario)>)
    ensures
        case_of(timeout, tests).init == Some(timeout),
        case_of(timeout, tests).cleanup == Some(timeout),
        case_of(timeout, tests).tests.len() == tests.len(),
        forall|i: int|
            0 <= i < tests.len() ==> {
                &&& (#[trigger] case_of(timeout, tests).tests[i]).0 == tests[i].0
                &&& case_of(timeout, tests).tests[i].1 == timeout
                &&& case_of(timeout, tests).tests[i].2 == tests[i].1
            },
{
}

} // verus!
