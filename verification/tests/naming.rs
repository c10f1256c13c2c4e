use alternator_validator::naming::alternator_keyspace;
use alternator_validator::naming::unique_alternator_table_name;
use alternator_validator::naming::IndexInfo;
use alternator_validator::naming::IndexName;
use alternator_validator::naming::KeyspaceName;
use alternator_validator::naming::TableCounter;
use alternator_validator::text::decimal_text;

#[test]
fn tables_are_numbered() {
    let mut counter = TableCounter { next: 0 };
    let names: Vec<String> =
        (0..12).map(|_| unique_alternator_table_name(&mut counter)).collect();
    assert_eq!(names[0], "AltTbl0");
    assert_eq!(names[1], "AltTbl1");
    assert_eq!(names[11], "AltTbl11");
    for i in 0..names.len() {
        for j in 0..i {
            assert_ne!(names[i], names[j]);
        }
    }
    assert_eq!(counter.next, 12);
}

#[test]
fn table_counter_starts_again_after_the_last_number() {
    let mut counter = TableCounter { next: usize::MAX };
    assert_eq!(unique_alternator_table_name(&mut counter), format!("AltTbl{}", usize::MAX));
    assert_eq!(counter.next, 0);
    assert_eq!(unique_alternator_table_name(&mut counter), "AltTbl0");
}

#[test]
fn keyspace_is_that_of_the_table() {
    assert_eq!(alternator_keyspace("AltTbl0").as_str(), "alternator_AltTbl0");
    assert_eq!(alternator_keyspace("").as_str(), "alternator_");
    assert_ne!(alternator_keyspace("a").as_str(), alternator_keyspace("b").as_str());
}

#[test]
fn index_is_identified_by_keyspace_and_name() {
    let index = IndexInfo::new("alternator_T", "v-idx");
    assert_eq!(index.keyspace.as_str(), "alternator_T");
    assert_eq!(index.index.as_str(), "v-idx");
    let copy = index.clone();
    assert_eq!(copy.keyspace.as_str(), "alternator_T");
    assert_eq!(copy.index.as_str(), "v-idx");
}

#[test]
fn names_keep_their_text() {
    assert_eq!(KeyspaceName::new("ks").clone().as_str(), "ks");
    assert_eq!(IndexName::new("idx").clone().as_str(), "idx");
}

#[test]
fn numbers_are_written_in_decimal() {
    for n in [0, 1, 9, 10, 99, 100, 8000, u64::MAX] {
        assert_eq!(decimal_text(n), n.to_string());
    }
    assert_eq!(decimal_text(1234567890), "1234567890");
}
