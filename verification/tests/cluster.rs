use alternator_validator::cluster::asked_vector_store;
use alternator_validator::cluster::endpoint_url;
use alternator_validator::cluster::init;
use alternator_validator::cluster::make_clients;
use alternator_validator::cluster::make_dynamodb_client;
use alternator_validator::cluster::wait_for_alternator;
use alternator_validator::cluster::wait_for_no_index;
use alternator_validator::cluster::NodeConfig;
use alternator_validator::cluster::Timeout;
use alternator_validator::cluster::Until;
use alternator_validator::cluster::ALTERNATOR_PORT;
use alternator_validator::naming::IndexInfo;

#[test]
fn endpoint_is_on_the_alternator_port() {
    assert_eq!(ALTERNATOR_PORT, 8000);
    assert_eq!(endpoint_url([127, 0, 1, 10]), "http://127.0.1.10:8000");
    assert_eq!(endpoint_url([0, 9, 99, 255]), "http://0.9.99.255:8000");
}

#[test]
fn client_has_dummy_credentials() {
    let config = make_dynamodb_client([127, 0, 1, 10]);
    assert_eq!(config.endpoint_url, "http://127.0.1.10:8000");
    assert_eq!(config.region, "us-east-1");
    assert_eq!(config.access_key_id, "any");
    assert_eq!(config.secret_access_key, "any");
    assert_eq!(config.provider_name, "test");
}

#[test]
fn alternator_is_waited_for_until_it_answers() {
    let wait = wait_for_alternator([127, 0, 1, 10], Timeout { secs: 120, nanos: 5 });
    assert_eq!(wait.what, "Alternator endpoint at http://127.0.1.10:8000 to be ready");
    assert_eq!(wait.timeout, Timeout { secs: 120, nanos: 5 });
    assert_eq!(wait.until, Until::Succeeds);
    assert!(wait.is_over(true));
    assert!(!wait.is_over(false));
}

#[test]
fn index_is_waited_for_until_its_status_is_refused() {
    let index = IndexInfo::new("alternator_AltTbl3", "v-idx");
    let wait = wait_for_no_index(&index, "http://127.0.2.1:6080");
    assert_eq!(
        wait.what,
        "index 'alternator_AltTbl3/v-idx' to be gone at http://127.0.2.1:6080"
    );
    assert_eq!(wait.timeout, Timeout { secs: 60, nanos: 0 });
    assert_eq!(wait.until, Until::Fails);
    assert!(wait.is_over(false));
    assert!(!wait.is_over(true));
}

#[test]
fn clients_reach_the_first_node_and_every_vector_store() {
    let timeout = Timeout { secs: 30, nanos: 0 };
    let clients = make_clients([10, 0, 0, 1], vec![[10, 0, 0, 5], [10, 0, 0, 6]], 6080, timeout);
    assert_eq!(clients.dynamodb.endpoint_url, "http://10.0.0.1:8000");
    assert_eq!(clients.ready.what, "Alternator endpoint at http://10.0.0.1:8000 to be ready");
    assert_eq!(clients.ready.timeout, timeout);
    assert_eq!(clients.vector_stores, vec![([10, 0, 0, 5], 6080), ([10, 0, 0, 6], 6080)]);
    assert!(make_clients([10, 0, 0, 1], vec![], 6080, timeout).vector_stores.is_empty());
}

#[test]
fn every_node_serves_alternator_on_its_own_address() {
    let mut configs = vec![
        NodeConfig { db_ip: [127, 0, 1, 1], args: vec!["--smp=2".to_string()] },
        NodeConfig { db_ip: [127, 0, 1, 2], args: vec![] },
    ];
    init(&mut configs);
    assert_eq!(configs.len(), 2);
    assert_eq!(configs[0].db_ip, [127, 0, 1, 1]);
    assert_eq!(
        configs[0].args,
        vec![
            "--smp=2",
            "--alternator-port=8000",
            "--alternator-address=127.0.1.1",
            "--alternator-write-isolation=only_rmw_uses_lwt",
            "--alternator-enforce-authorization=false",
        ]
    );
    assert_eq!(configs[1].db_ip, [127, 0, 1, 2]);
    assert_eq!(
        configs[1].args,
        vec![
            "--alternator-port=8000",
            "--alternator-address=127.0.1.2",
            "--alternator-write-isolation=only_rmw_uses_lwt",
            "--alternator-enforce-authorization=false",
        ]
    );
}

#[test]
fn no_nodes_need_no_arguments() {
    let mut configs: Vec<NodeConfig> = vec![];
    init(&mut configs);
    assert!(configs.is_empty());
}

#[test]
fn different_nodes_have_different_endpoints() {
    let ips = [[1, 11, 1, 1], [11, 1, 1, 1], [1, 1, 11, 1], [1, 1, 1, 11], [111, 1, 1, 1]];
    for i in 0..ips.len() {
        for j in 0..i {
            assert_ne!(endpoint_url(ips[i]), endpoint_url(ips[j]));
        }
    }
}

#[test]
fn first_vector_store_is_asked() {
    assert_eq!(asked_vector_store(&vec!["a", "b"]), Some(&"a"));
    assert_eq!(asked_vector_store::<u8>(&vec![]), None);
}
