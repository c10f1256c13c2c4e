use alternator_validator::cluster::Timeout;
use alternator_validator::create_table;
use alternator_validator::delete_table;
use alternator_validator::interceptor::JsonBodyInjectInterceptor;
use alternator_validator::naming::TableCounter;
use alternator_validator::operations::dynamo_number_list;
use alternator_validator::operations::put_item;
use alternator_validator::operations::AttributeValue;
use alternator_validator::operations::BillingMode;
use alternator_validator::operations::KeyType;
use alternator_validator::operations::Operation;
use alternator_validator::operations::ScalarAttributeType;
use alternator_validator::operations::Step;
use alternator_validator::payload::inject_vector_index;
use alternator_validator::payload::inject_vector_search;
use alternator_validator::query;
use alternator_validator::query::check_items;
use alternator_validator::run::Reply;
use alternator_validator::run::Run;
use alternator_validator::scenario::Scenario;
use alternator_validator::scenario::TestCase;
use alternator_validator::update_table;

const ALL: [Scenario; 6] = [
    Scenario::CreateTableWithVectorIndex,
    Scenario::DeleteTableRemovesVectorIndex,
    Scenario::QueryWithVectorSearch,
    Scenario::CreateVectorIndexViaUpdateTable,
    Scenario::DeleteVectorIndexViaUpdateTable,
    Scenario::ReplaceVectorIndexViaUpdateTable,
];

fn fields(inject: &JsonBodyInjectInterceptor) -> String {
    String::from_utf8(inject.inject(b"{}").unwrap()).unwrap()
}

/// One line for each step.
fn outline(steps: &[Step]) -> Vec<String> {
    steps
        .iter()
        .map(|step| {
            let operation = match &step.operation {
                Operation::CreateTable { table, inject: None } => {
                    format!("create {}", table.table_name)
                }
                Operation::CreateTable { table, inject: Some(inject) } => {
                    format!("create {} {}", table.table_name, fields(inject))
                }
                Operation::UpdateTable { table_name, inject } => {
                    format!("update {table_name} {}", fields(inject))
                }
                Operation::PutItem { table_name, pk, v } => format!("put {table_name} {pk} {v:?}"),
                Operation::Query { table_name, limit, inject } => {
                    format!("query {table_name} {limit} {}", fields(inject))
                }
                Operation::DeleteTable { table_name } => format!("delete {table_name}"),
                Operation::AwaitIndex { index } => {
                    format!("await {}/{}", index.keyspace.as_str(), index.index.as_str())
                }
                Operation::AwaitNoIndex { index } => {
                    format!("await no {}/{}", index.keyspace.as_str(), index.index.as_str())
                }
            };
            match &step.failure {
                Some(text) => format!("{operation}; {text}"),
                None => operation,
            }
        })
        .collect()
}

const INDEXED: &str = "create T {\"VectorIndexes\":[{\"IndexName\":\"v-idx\",\"VectorAttribute\":\
    {\"AttributeName\":\"v\",\"Dimensions\":3}}]}; CreateTable with VectorIndex should succeed";

#[test]
fn table_with_vector_index_is_created() {
    assert_eq!(
        outline(&create_table::create_table_with_vector_index("T")),
        vec![INDEXED, "await alternator_T/v-idx", "delete T; DeleteTable should succeed"]
    );
}

#[test]
fn deleted_table_loses_its_vector_index() {
    assert_eq!(
        outline(&delete_table::delete_table_removes_vector_index("T")),
        vec![
            INDEXED,
            "await alternator_T/v-idx",
            "delete T; DeleteTable should succeed",
            "await no alternator_T/v-idx",
        ]
    );
}

#[test]
fn query_searches_among_five_items() {
    assert_eq!(
        outline(&query::query_with_vector_search("T")),
        vec![
            INDEXED,
            "put T pk-0 [0, 1, 2]; PutItem should succeed",
            "put T pk-1 [1, 2, 3]; PutItem should succeed",
            "put T pk-2 [2, 3, 4]; PutItem should succeed",
            "put T pk-3 [3, 4, 5]; PutItem should succeed",
            "put T pk-4 [4, 5, 6]; PutItem should succeed",
            "await alternator_T/v-idx",
            "query T 2 {\"VectorSearch\":{\"QueryVector\":{\"L\":[{\"N\":\"1\"},{\"N\":\"2\"},\
             {\"N\":\"3\"}]}}}; Query with VectorSearch should succeed",
            "delete T; DeleteTable should succeed",
        ]
    );
}

#[test]
fn vector_index_is_created_by_update() {
    assert_eq!(
        outline(&update_table::create_vector_index_via_update_table("T")),
        vec![
            "create T; CreateTable should succeed",
            "update T {\"VectorIndexUpdates\":[{\"Create\":{\"IndexName\":\"v-idx\",\
             \"VectorAttribute\":{\"AttributeName\":\"v\",\"Dimensions\":3}}}]}; \
             UpdateTable with VectorIndexUpdates Create should succeed",
            "await alternator_T/v-idx",
            "delete T; DeleteTable should succeed",
        ]
    );
}

#[test]
fn vector_index_is_deleted_by_update() {
    assert_eq!(
        outline(&update_table::delete_vector_index_via_update_table("T")),
        vec![
            INDEXED,
            "await alternator_T/v-idx",
            "update T {\"VectorIndexUpdates\":[{\"Delete\":{\"IndexName\":\"v-idx\"}}]}; \
             UpdateTable with VectorIndexUpdates Delete should succeed",
            "await no alternator_T/v-idx",
            "delete T; DeleteTable should succeed",
        ]
    );
}

#[test]
fn vector_index_is_replaced_by_one_update() {
    assert_eq!(
        outline(&update_table::replace_vector_index_via_update_table("T")),
        vec![
            "create T {\"VectorIndexes\":[{\"IndexName\":\"v-idx-a\",\"VectorAttribute\":\
             {\"AttributeName\":\"v\",\"Dimensions\":3}}]}; \
             CreateTable with first VectorIndex should succeed",
            "await alternator_T/v-idx-a",
            "update T {\"VectorIndexUpdates\":[{\"Create\":{\"IndexName\":\"v-idx-b\",\
             \"VectorAttribute\":{\"AttributeName\":\"v\",\"Dimensions\":3}}},\
             {\"Delete\":{\"IndexName\":\"v-idx-a\"}}]}; \
             UpdateTable with simultaneous Create+Delete VectorIndexUpdates should succeed",
            "await alternator_T/v-idx-b",
            "await no alternator_T/v-idx-a",
            "delete T; DeleteTable should succeed",
        ]
    );
}

#[test]
fn tables_have_a_string_key() {
    for scenario in ALL {
        match &scenario.steps("T")[0].operation {
            Operation::CreateTable { table, .. } => {
                assert_eq!(table.table_name, "T");
                assert_eq!(
                    table.attribute_definitions,
                    vec![("pk".to_string(), ScalarAttributeType::S)]
                );
                assert_eq!(table.key_schema, vec![("pk".to_string(), KeyType::Hash)]);
                assert_eq!(table.billing_mode, BillingMode::PayPerRequest);
            }
            other => panic!("unexpected {other:?}"),
        }
    }
}

#[test]
fn injected_fields_are_merged_into_a_request() {
    assert_eq!(
        inject_vector_index("i").inject(b"{\"TableName\":\"T\"}").unwrap(),
        b"{\"TableName\":\"T\",\"VectorIndexes\":[{\"IndexName\":\"i\",\"VectorAttribute\":\
          {\"AttributeName\":\"v\",\"Dimensions\":3}}]}"
            .to_vec()
    );
    assert_eq!(
        inject_vector_search().inject(b"{\"Limit\":2}").unwrap(),
        b"{\"Limit\":2,\"VectorSearch\":{\"QueryVector\":{\"L\":[{\"N\":\"1\"},{\"N\":\"2\"},\
          {\"N\":\"3\"}]}}}"
            .to_vec()
    );
    assert_eq!(
        inject_vector_index("\"").inject(b"{}").unwrap(),
        b"{\"VectorIndexes\":[{\"IndexName\":\"\\\"\",\"VectorAttribute\":\
          {\"AttributeName\":\"v\",\"Dimensions\":3}}]}"
            .to_vec()
    );
}

#[test]
fn scenarios_are_registered_under_their_names() {
    let empty = TestCase::empty();
    assert_eq!((empty.init(), empty.cleanup()), (None, None));
    assert!(empty.tests().is_empty());
    let t = Timeout { secs: 120, nanos: 500 };
    let create = create_table::new(t);
    assert_eq!((create.init(), create.cleanup()), (Some(t), Some(t)));
    assert_eq!(
        *create.tests(),
        vec![("create_table_with_vector_index", t, Scenario::CreateTableWithVectorIndex)]
    );
    let delete = delete_table::new(t);
    assert_eq!((delete.init(), delete.cleanup()), (Some(t), Some(t)));
    assert_eq!(
        *delete.tests(),
        vec![("delete_table_removes_vector_index", t, Scenario::DeleteTableRemovesVectorIndex)]
    );
    let query = query::new(t);
    assert_eq!((query.init(), query.cleanup()), (Some(t), Some(t)));
    assert_eq!(
        *query.tests(),
        vec![("query_with_vector_search", t, Scenario::QueryWithVectorSearch)]
    );
    let update = update_table::new(t);
    assert_eq!((update.init(), update.cleanup()), (Some(t), Some(t)));
    assert_eq!(
        *update.tests(),
        vec![
            ("create_vector_index_via_update_table", t, Scenario::CreateVectorIndexViaUpdateTable),
            ("delete_vector_index_via_update_table", t, Scenario::DeleteVectorIndexViaUpdateTable),
            ("replace_vector_index_via_update_table", t, Scenario::ReplaceVectorIndexViaUpdateTable),
        ]
    );
}

#[test]
fn parts_of_a_test_case_have_timeouts_of_their_own() {
    let seconds = |secs: u64| Timeout { secs, nanos: 0 };
    let case = TestCase::empty()
        .with_test("q", seconds(3), Scenario::QueryWithVectorSearch)
        .with_cleanup(seconds(2))
        .with_init(seconds(1));
    assert_eq!((case.init(), case.cleanup()), (Some(seconds(1)), Some(seconds(2))));
    assert_eq!(*case.tests(), vec![("q", seconds(3), Scenario::QueryWithVectorSearch)]);
}

#[test]
fn numbers_become_a_list_of_number_attributes() {
    let numbers = [1.0f32, 2.5, -0.125].iter().map(|x| x.to_string()).collect();
    match dynamo_number_list(numbers) {
        AttributeValue::L(items) => {
            let texts: Vec<&str> = items
                .iter()
                .map(|item| match item {
                    AttributeValue::N(text) => text.as_str(),
                    other => panic!("unexpected {other:?}"),
                })
                .collect();
            assert_eq!(texts, vec!["1", "2.5", "-0.125"]);
        }
        other => panic!("unexpected {other:?}"),
    }
    assert!(matches!(dynamo_number_list(vec![]), AttributeValue::L(items) if items.is_empty()));
}

#[test]
fn item_has_a_key_and_a_vector() {
    let item = put_item("pk-1", AttributeValue::L(vec![]));
    assert_eq!(item.len(), 2);
    assert_eq!(item[0].0, "pk");
    assert!(matches!(&item[0].1, AttributeValue::S(text) if text == "pk-1"));
    assert_eq!(item[1].0, "v");
    assert!(matches!(&item[1].1, AttributeValue::L(items) if items.is_empty()));
}

#[test]
fn answer_to_a_search_is_neither_empty_nor_over_the_limit() {
    assert_eq!(
        check_items(2, 0).as_deref(),
        Some("Query with VectorSearch should return at least one item")
    );
    assert_eq!(check_items(2, 1), None);
    assert_eq!(check_items(2, 2), None);
    assert_eq!(
        check_items(2, 3).as_deref(),
        Some("Query with VectorSearch Limit=2 should return at most 2 items, got 3")
    );
    assert_eq!(
        check_items(2, 1000).as_deref(),
        Some("Query with VectorSearch Limit=2 should return at most 2 items, got 1000")
    );
}

/// The answer with which a step is content.
fn content(step: &Step) -> Reply {
    match &step.operation {
        Operation::Query { limit, .. } => Reply::Items(usize::from(*limit)),
        _ => Reply::Done,
    }
}

/// Plays a scenario until the step `position`, which is to be answered by `reply`.
fn play_to(scenario: Scenario, position: usize, reply: Reply) -> Run {
    let mut run = scenario.start(&mut TableCounter { next: 0 });
    for _ in 0..position {
        let reply = content(run.next().unwrap());
        run.record(reply);
    }
    run.record(reply);
    run
}

#[test]
fn scenario_passes_when_every_step_succeeds() {
    let mut counter = TableCounter { next: 0 };
    for scenario in ALL {
        let mut run = scenario.start(&mut counter);
        let mut count: usize = 0;
        while let Some(step) = run.next() {
            assert!(!run.passed());
            let reply = content(step);
            run.record(reply);
            count += 1;
        }
        assert!(run.passed());
        assert_eq!(run.complaint(), None);
        assert_eq!(count, scenario.steps("T").len());
    }
    assert_eq!(counter.next, 6);
}

#[test]
fn scenarios_are_started_on_tables_of_their_own() {
    let mut counter = TableCounter { next: 4 };
    for expected in ["AltTbl4", "AltTbl5"] {
        let run = Scenario::CreateTableWithVectorIndex.start(&mut counter);
        match &run.next().unwrap().operation {
            Operation::CreateTable { table, .. } => assert_eq!(table.table_name, expected),
            other => panic!("unexpected {other:?}"),
        }
    }
}

#[test]
fn scenario_stops_at_the_first_refusal() {
    let run = play_to(Scenario::CreateTableWithVectorIndex, 0, Reply::Refused);
    assert!(run.next().is_none());
    assert!(!run.passed());
    assert_eq!(run.complaint(), Some("CreateTable with VectorIndex should succeed"));

    let run = play_to(Scenario::QueryWithVectorSearch, 3, Reply::Refused);
    assert!(run.next().is_none());
    assert_eq!(run.complaint(), Some("PutItem should succeed"));

    let run = play_to(Scenario::ReplaceVectorIndexViaUpdateTable, 5, Reply::Refused);
    assert!(!run.passed());
    assert_eq!(run.complaint(), Some("DeleteTable should succeed"));
}

#[test]
fn scenario_stops_at_a_bad_answer_to_a_search() {
    let run = play_to(Scenario::QueryWithVectorSearch, 7, Reply::Refused);
    assert_eq!(run.complaint(), Some("Query with VectorSearch should succeed"));

    let run = play_to(Scenario::QueryWithVectorSearch, 7, Reply::Items(0));
    assert!(run.next().is_none());
    assert_eq!(run.complaint(), Some("Query with VectorSearch should return at least one item"));

    let run = play_to(Scenario::QueryWithVectorSearch, 7, Reply::Items(5));
    assert_eq!(
        run.complaint(),
        Some("Query with VectorSearch Limit=2 should return at most 2 items, got 5")
    );

    let run = play_to(Scenario::QueryWithVectorSearch, 7, Reply::Items(1));
    assert!(run.next().is_some());
    assert_eq!(run.complaint(), None);
}

/// Plays a scenario on a list of tables with their indexes, and says which step that list does
/// not grant.
fn play_on(tables: &mut Vec<(String, Vec<String>)>, steps: &[Step]) -> Option<usize> {
    for (position, step) in steps.iter().enumerate() {
        let granted = match &step.operation {
            Operation::CreateTable { table, inject } => {
                let known = tables.iter().any(|(name, _)| *name == table.table_name);
                let indexes = match inject {
                    Some(inject) => names(inject, "VectorIndexes", None),
                    None => vec![],
                };
                tables.push((table.table_name.clone(), indexes));
                !known
            }
            Operation::UpdateTable { table_name, inject } => {
                let created = names(inject, "VectorIndexUpdates", Some("Create"));
                let deleted = names(inject, "VectorIndexUpdates", Some("Delete"));
                match tables.iter_mut().find(|(name, _)| name == table_name) {
                    Some((_, indexes)) => {
                        let granted = created.iter().all(|name| !indexes.contains(name))
                            && deleted.iter().all(|name| indexes.contains(name));
                        indexes.extend(created);
                        indexes.retain(|name| !deleted.contains(name));
                        granted
                    }
                    None => false,
                }
            }
            Operation::PutItem { table_name, .. } | Operation::Query { table_name, .. } => {
                tables.iter().any(|(name, _)| name == table_name)
            }
            Operation::DeleteTable { table_name } => {
                let before = tables.len();
                tables.retain(|(name, _)| name != table_name);
                tables.len() < before
            }
            Operation::AwaitIndex { index } => tables.iter().any(|(name, indexes)| {
                format!("alternator_{name}") == index.keyspace.as_str()
                    && indexes.iter().any(|name| name == index.index.as_str())
            }),
            Operation::AwaitNoIndex { index } => !tables.iter().any(|(name, indexes)| {
                format!("alternator_{name}") == index.keyspace.as_str()
                    && indexes.iter().any(|name| name == index.index.as_str())
            }),
        };
        if !granted {
            return Some(position);
        }
    }
    None
}

/// The names of the indexes that an interceptor lists under `key`, or under `verb` there.
fn names(inject: &JsonBodyInjectInterceptor, key: &str, verb: Option<&str>) -> Vec<String> {
    let body: serde_json::Value = serde_json::from_slice(&inject.inject(b"{}").unwrap()).unwrap();
    body[key]
        .as_array()
        .unwrap()
        .iter()
        .filter_map(|item| match verb {
            Some(verb) => item.get(verb),
            None => Some(item),
        })
        .map(|index| index["IndexName"].as_str().unwrap().to_string())
        .collect()
}

#[test]
fn scenarios_can_be_played_and_leave_no_table() {
    for scenario in ALL {
        let other = ("U".to_string(), vec!["v-idx".to_string(), "v-idx-a".to_string()]);
        let mut tables = vec![other.clone()];
        assert_eq!(play_on(&mut tables, &scenario.steps("T")), None);
        assert_eq!(tables, vec![other]);
    }
}

#[test]
fn scenarios_on_different_tables_can_be_mixed() {
    let mut tables = vec![];
    let first = Scenario::ReplaceVectorIndexViaUpdateTable.steps("T");
    let second = Scenario::DeleteTableRemovesVectorIndex.steps("U");
    assert_eq!(play_on(&mut tables, &first[..2]), None);
    assert_eq!(play_on(&mut tables, &second[..2]), None);
    assert_eq!(play_on(&mut tables, &first[2..5]), None);
    assert_eq!(play_on(&mut tables, &second[2..]), None);
    assert_eq!(play_on(&mut tables, &first[5..]), None);
    assert!(tables.is_empty());
}

#[test]
fn scenario_cannot_start_on_a_table_that_exists() {
    let mut tables = vec![("T".to_string(), vec![])];
    let steps = Scenario::CreateVectorIndexViaUpdateTable.steps("T");
    assert_eq!(play_on(&mut tables, &steps), Some(0));
}
