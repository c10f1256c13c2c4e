//! Where the nodes of a cluster are reached, and what is waited for.

use crate::naming::IndexInfo;
use crate::text::decimal;
use crate::text::decimal_text;
use crate::text::lemma_decimal_injective;
use crate::text::lemma_decimal_is_digits;
use crate::text::lemma_written_one_way;
use crate::text::number_in;
use crate::text::writes;
use vstd::prelude::*;

verus! {

/// The port on which every node serves Alternator.
pub const ALTERNATOR_PORT: u16 = 8000;

/// How long, in seconds, an index may take to disappear.
pub const INDEX_REMOVAL_SECS: u64 = 60;

/// How long something may take.
#[derive(Debug, Clone, Copy, PartialEq, Eq, Structural)]
pub struct Timeout {
    pub secs: u64,
    /// The part of a second beyond `secs`.
    pub nanos: u32,
}

/// The texts in a list of strings.
pub open spec fn texts(strings: Seq<String>) -> Seq<Seq<char>> {
    Seq::new(strings.len(), |i: int| strings[i]@)
}

/// An IPv4 address in dotted notation.
pub open spec fn dotted(ip: [u8; 4]) -> Seq<char> {
    decimal(ip[0] as nat) + "."@ + decimal(ip[1] as nat) + "."@ + decimal(ip[2] as nat) + "."@
        + decimal(ip[3] as nat)
}

/// The URL at which the node `ip` serves Alternator.
pub open spec fn endpoint(ip: [u8; 4]) -> Seq<char> {
    "http://"@ + dotted(ip) + ":"@ + decimal(ALTERNATOR_PORT as nat)
}

/// The arguments that make the node `ip` serve Alternator on its own address.
pub open spec fn alternator_args(ip: [u8; 4]) -> Seq<Seq<char>> {
    seq![
        "--alternator-port="@ + decimal(ALTERNATOR_PORT as nat),
        "--alternator-address="@ + dotted(ip),
        "--alternator-write-isolation=only_rmw_uses_lwt"@,
        "--alternator-enforce-authorization=false"@,
    ]
}

/// Two texts that each consist of digits, a dot and a rest are equal only where the digits are
/// equal and the rests are.
proof fn lemma_split_at_dot(a: nat, rest_a: Seq<char>, b: nat, rest_b: Seq<char>)
    requires
        decimal(a) + "."@ + rest_a == decimal(b) + "."@ + rest_b,
    ensures
        a == b,
        rest_a == rest_b,
{
    let (da, db) = (decimal(a), decimal(b));
    let (ta, tb) = (da + "."@ + rest_a, db + "."@ + rest_b);
    reveal_strlit(".");
    lemma_decimal_is_digits(a);
    lemma_decimal_is_digits(b);
    assert(ta[da.len() as int] == '.');
    assert(tb[db.len() as int] == '.');
    if da.len() < db.len() {
        assert(tb[da.len() as int] == db[da.len() as int]);
    }
    if db.len() < da.len() {
        assert(ta[db.len() as int] == da[db.len() as int]);
    }
    assert(ta.take(da.len() as int) =~= da);
    assert(tb.take(db.len() as int) =~= db);
    lemma_decimal_injective(a, b);
    assert(ta.skip(da.len() as int + 1) =~= rest_a);
    assert(tb.skip(db.len() as int + 1) =~= rest_b);
}

/// A dotted address, from the numbers behind on.
proof fn lemma_dotted_nests(a: Seq<char>, b: Seq<char>, c: Seq<char>, d: Seq<char>)
    ensures
        a + "."@ + b + "."@ + c + "."@ + d == a + "."@ + (b + "."@ + (c + "."@ + d)),
{
    assert(c + "."@ + d == c + ("."@ + d));
    assert(b + "."@ + (c + "."@ + d) =~= b + "."@ + c + "."@ + d);
    assert(a + "."@ + b + "."@ + c + "."@ + d =~= a + "."@ + (b + "."@ + c + "."@ + d));
}

/// Different addresses have different texts.
pub proof fn lemma_addresses_differ(a: [u8; 4], b: [u8; 4])
    requires
        a != b,
    ensures
        dotted(a) != dotted(b),
{
    let (a0, a1, a2, a3) = (a[0] as nat, a[1] as nat, a[2] as nat, a[3] as nat);
    let (b0, b1, b2, b3) = (b[0] as nat, b[1] as nat, b[2] as nat, b[3] as nat);
    if dotted(a) == dotted(b) {
        lemma_dotted_nests(decimal(a0), decimal(a1), decimal(a2), decimal(a3));
        lemma_dotted_nests(decimal(b0), decimal(b1), decimal(b2), decimal(b3));
        let (a_tail, b_tail) = (
            decimal(a2) + "."@ + decimal(a3),
            decimal(b2) + "."@ + decimal(b3),
        );
        lemma_split_at_dot(
            a0,
            decimal(a1) + "."@ + a_tail,
            b0,
            decimal(b1) + "."@ + b_tail,
        );
        lemma_split_at_dot(a1, a_tail, b1, b_tail);
        lemma_split_at_dot(a2, decimal(a3), b2, decimal(b3));
        lemma_decimal_injective(a3, b3);
        assert(a@ =~= b@);
        assert(a =~= b);
    }
}

/// Different nodes serve Alternator on different addresses, and are reached at different
/// endpoints.
pub proof fn lemma_nodes_differ(a: [u8; 4], b: [u8; 4])
    requires
        a != b,
    ensures
        alternator_args(a)[1] != alternator_args(b)[1],
        endpoint(a) != endpoint(b),
{
    lemma_addresses_differ(a, b);
    let option = "--alternator-address="@;
    assert((option + dotted(a)).skip(option.len() as int) =~= dotted(a));
    assert((option + dotted(b)).skip(option.len() as int) =~= dotted(b));
    let scheme = "http://"@;
    let port = ":"@ + decimal(ALTERNATOR_PORT as nat);
    assert(endpoint(a) =~= scheme + dotted(a) + port);
    assert(endpoint(b) =~= scheme + dotted(b) + port);
    let end: int = endpoint(a).len() - port.len();
    if endpoint(a) == endpoint(b) {
        assert(endpoint(a).subrange(scheme.len() as int, end) =~= dotted(a));
        assert(endpoint(b).subrange(scheme.len() as int, end) =~= dotted(b));
    }
}

/// Writes an IPv4 address in dotted notation.
fn dotted_text(ip: [u8; 4]) -> (text: String)
    ensures
        text@ == dotted(ip),
{
    decimal_text(ip[0] as u64).concat(".").concat(decimal_text(ip[1] as u64).as_str()).concat(
        ".",
    ).concat(decimal_text(ip[2] as u64).as_str()).concat(".").concat(
        decimal_text(ip[3] as u64).as_str(),
    )
}

/// The URL at which the node `ip` serves Alternator.
pub fn endpoint_url(ip: [u8; 4]) -> (url: String)
    ensures
        url@ == endpoint(ip),
{
    String::from_str("http://").concat(dotted_text(ip).as_str()).concat(":").concat(
        decimal_text(ALTERNATOR_PORT as u64).as_str(),
    )
}

/// What a request that is repeated has to do for a wait to be over.
#[derive(Debug, Clone, Copy, PartialEq, Eq, Structural)]
pub enum Until {
    Succeeds,
    Fails,
}

/// A wait: a request is repeated until it ends as expected.
#[derive(Debug)]
pub struct Wait {
    pub until: Until,
    /// What is waited for.
    pub what: String,
    /// After which time the wait is given up.
    pub timeout: Timeout,
}

impl Wait {
    /// Whether the wait is over once the request has ended, with success or not.
    pub fn is_over(&self, succeeded: bool) -> (over: bool)
        ensures
            over <==> (succeeded <==> self.until == Until::Succeeds),
    {
        match self.until {
            Until::Succeeds => succeeded,
            Until::Fails => !succeeded,
        }
    }
}

/// What a DynamoDB client needs to talk to a node.
#[derive(Debug)]
pub struct ClientConfig {
    pub endpoint_url: String,
    pub region: String,
    pub access_key_id: String,
    pub secret_access_key: String,
    pub provider_name: &'static str,
}

impl ClientConfig {
    /// Whether this is the configuration of a client of the node `ip`: authorization is
    /// disabled there, so that any credentials will do.
    pub open spec fn is_for(self, ip: [u8; 4]) -> bool {
        &&& self.endpoint_url@ == endpoint(ip)
        &&& self.region@ == "us-east-1"@
        &&& self.access_key_id@ == "any"@
        &&& self.secret_access_key@ == "any"@
        &&& self.provider_name@ == "test"@
    }
}

/// The configuration of a DynamoDB client for the Alternator endpoint on `db_ip`.
///
/// Dummy credentials are used because authorization is disabled on the nodes.
pub fn make_dynamodb_client(db_ip: [u8; 4]) -> (config: ClientConfig)
    ensures
        config.is_for(db_ip),
{
    ClientConfig {
        endpoint_url: endpoint_url(db_ip),
        region: String::from_str("us-east-1"),
        access_key_id: String::from_str("any"),
        secret_access_key: String::from_str("any"),
        provider_name: "test",
    }
}

/// The wait for the Alternator endpoint on `db_ip`: it is over when a request succeeds.
///
/// The Alternator port may become available slightly after the CQL port, so that this has to be
/// waited for before the first DynamoDB request.
pub fn wait_for_alternator(db_ip: [u8; 4], timeout: Timeout) -> (wait: Wait)
    ensures
        wait.until == Until::Succeeds,
        wait.what@ == "Alternator endpoint at "@ + endpoint(db_ip) + " to be ready"@,
        wait.timeout == timeout,
{
    Wait {
        until: Until::Succeeds,
        what: String::from_str("Alternator endpoint at ").concat(
            endpoint_url(db_ip).as_str(),
        ).concat(" to be ready"),
        timeout,
    }
}

/// The wait for the Vector Store at `url` to drop `index`: it is over when the status of the
/// index is no longer given.
pub fn wait_for_no_index(index: &IndexInfo, url: &str) -> (wait: Wait)
    ensures
        wait.until == Until::Fails,
        wait.what@ == "index '"@ + index@.keyspace + "/"@ + index@.index + "' to be gone at "@
            + url@,
        wait.timeout == (Timeout { secs: INDEX_REMOVAL_SECS, nanos: 0 }),
        wait.timeout.secs == 60,
{
    Wait {
        until: Until::Fails,
        what: String::from_str("index '").concat(index.keyspace.as_str()).concat("/").concat(
            index.index.as_str(),
        ).concat("' to be gone at ").concat(url),
        timeout: Timeout { secs: INDEX_REMOVAL_SECS, nanos: 0 },
    }
}

/// What is needed to reach a cluster.
#[derive(Debug)]
pub struct Clients {
    /// The DynamoDB client.
    pub dynamodb: ClientConfig,
    /// The wait before its first request.
    pub ready: Wait,
    /// The addresses and ports of the Vector Stores.
    pub vector_stores: Vec<([u8; 4], u16)>,
}

/// The clients of a cluster whose first node is `db_ip` and whose Vector Stores listen on
/// `vs_port` at `vs_ips`.
pub fn make_clients(
    db_ip: [u8; 4],
    vs_ips: Vec<[u8; 4]>,
    vs_port: u16,
    timeout: Timeout,
) -> (clients: Clients)
    ensures
        clients.dynamodb.is_for(db_ip),
        clients.ready.until == Until::Succeeds,
        clients.ready.what@ == "Alternator endpoint at "@ + endpoint(db_ip) + " to be ready"@,
        clients.ready.timeout == timeout,
        clients.vector_stores@.len() == vs_ips@.len(),
        forall|i: int|
            0 <= i < vs_ips@.len() ==> #[trigger] clients.vector_stores@[i] == (vs_ips@[i], vs_port),
{
    let mut vector_stores: Vec<([u8; 4], u16)> = Vec::new();
    let mut i: usize = 0;
    while i < vs_ips.len()
        invariant
            i <= vs_ips@.len(),
            vector_stores@.len() == i,
            forall|j: int| 0 <= j < i ==> #[trigger] vector_stores@[j] == (vs_ips@[j], vs_port),
        decreases vs_ips@.len() - i,
    {
        vector_stores.push((vs_ips[i], vs_port));
        i = i + 1;
    }
    Clients {
        dynamodb: make_dynamodb_client(db_ip),
        ready: wait_for_alternator(db_ip, timeout),
        vector_stores,
    }
}

/// The Vector Store that is asked about indexes: the first of them.
pub fn asked_vector_store<T>(vector_stores: &Vec<T>) -> (asked: Option<&T>)
    ensures
        match asked {
            Some(store) => vector_stores@.len() > 0 && *store == vector_stores@[0],
            None => vector_stores@.len() == 0,
        },
{
    if vector_stores.len() > 0 {
        Some(&vector_stores[0])
    } else {
        None
    }
}

/// How a ScyllaDB node is started.
#[derive(Debug)]
pub struct NodeConfig {
    pub db_ip: [u8; 4],
    pub args: Vec<String>,
}

/// Has every node serve Alternator on its own address.
pub fn init(configs: &mut Vec<NodeConfig>)
    ensures
        final(configs)@.len() == old(configs)@.len(),
        forall|i: int|
            #![trigger final(configs)@[i]]
            0 <= i < old(configs)@.len() ==> {
                &&& final(configs)@[i].db_ip == old(configs)@[i].db_ip
                &&& texts(final(configs)@[i].args@) == texts(old(configs)@[i].args@)
                    + alternator_args(old(configs)@[i].db_ip)
            },
{
    let ghost before = configs@;
    let mut i: usize = 0;
    while i < configs.len()
        invariant
            i <= configs@.len(),
            configs@.len() == before.len(),
            forall|j: int|
                #![trigger configs@[j]]
                0 <= j < i ==> {
                    &&& configs@[j].db_ip == before[j].db_ip
                    &&& texts(configs@[j].args@) == texts(before[j].args@) + alternator_args(
                        before[j].db_ip,
                    )
                },
            forall|j: int| i <= j < configs@.len() ==> #[trigger] configs@[j] == before[j],
        decreases configs@.len() - i,
    {
        let db_ip: [u8; 4] = configs[i].db_ip;
        let config: &mut NodeConfig = &mut configs[i];
        config.args.push(
            String::from_str("--alternator-port=").concat(
                decimal_text(ALTERNATOR_PORT as u64).as_str(),
            ),
        );
        config.args.push(
            String::from_str("--alternator-address=").concat(dotted_text(db_ip).as_str()),
        );
        config.args.push(String::from_str("--alternator-write-isolation=only_rmw_uses_lwt"));
        config.args.push(String::from_str("--alternator-enforce-authorization=false"));
        assert(texts(config.args@) =~= texts(before[i as int].args@) + alternator_args(db_ip));
        i = i + 1;
    }
}

/// An address is written as its four numbers, with dots between them.
pub proof fn lemma_address_is_four_numbers(
    ip: [u8; 4],
    a: Seq<char>,
    b: Seq<char>,
    c: Seq<char>,
    d: Seq<char>,
)
    requires
        writes(a, ip[0] as nat),
        writes(b, ip[1] as nat),
        writes(c, ip[2] as nat),
        writes(d, ip[3] as nat),
    ensures
        dotted(ip) == a + "."@ + b + "."@ + c + "."@ + d,
{
    lemma_written_one_way(a, ip[0] as nat);
    lemma_written_one_way(b, ip[1] as nat);
    lemma_written_one_way(c, ip[2] as nat);
    lemma_written_one_way(d, ip[3] as nat);
}

/// A node is told to serve Alternator on port 8000 of its own address, and nothing else but its
/// write isolation and that it need not authorize requests.
pub proof fn lemma_node_is_told_its_own_address(ip: [u8; 4], port: Seq<char>)
    requires
        writes(port, 8000),
    ensures
        alternator_args(ip).len() == 4,
        alternator_args(ip)[0] == "--alternator-port="@ + port,
        alternator_args(ip)[1] == "--alternator-address="@ + dotted(ip),
        alternator_args(ip)[2] == "--alternator-write-isolation=only_rmw_uses_lwt"@,
        alternator_args(ip)[3] == "--alternator-enforce-authorization=false"@,
{
    lemma_written_one_way(port, 8000);
}

/// A node is reached, without encryption, at the very address and port that it is told to serve
/// Alternator on.
pub proof fn lemma_node_is_reached_where_it_serves(
    ip: [u8; 4],
    address: Seq<char>,
    port: Seq<char>,
)
    requires
        alternator_args(ip)[0] == "--alternator-port="@ + port,
        alternator_args(ip)[1] == "--alternator-address="@ + address,
    ensures
        endpoint(ip) == "http://"@ + address + ":"@ + port,
{
    let (p, a) = ("--alternator-port="@, "--alternator-address="@);
    assert((p + port).skip(p.len() as int) =~= port);
    assert((a + address).skip(a.len() as int) =~= address);
    assert(alternator_args(ip)[0].skip(p.len() as int) =~= decimal(ALTERNATOR_PORT as nat));
    assert(alternator_args(ip)[1].skip(a.len() as int) =~= dotted(ip));
}

/// A node is reached by unencrypted HTTP on port 8000 of its address.
pub proof fn lemma_endpoint_is_http(ip: [u8; 4])
    ensures
        endpoint(ip) == "http://"@ + dotted(ip) + ":8000"@,
        endpoint(ip).take(7) == "http://"@,
{
    reveal_strlit("http://");
    reveal_strlit(":");
    reveal_strlit(":8000");
    let port = ":8000"@.skip(1);
    assert(port =~= seq!['8', '0', '0', '0']);
    reveal_with_fuel(number_in, 5);
    assert(port.drop_last() =~= seq!['8', '0', '0']);
    assert(port.drop_last().drop_last() =~= seq!['8', '0']);
    assert(port.drop_last().drop_last().drop_last() =~= seq!['8']);
    assert(port.drop_last().drop_last().drop_last().drop_last() =~= Seq::empty());
    assert(writes(port, 8000));
    lemma_written_one_way(port, 8000);
    assert(":8000"@ =~= ":"@ + port);
    assert(endpoint(ip) =~= "http://"@ + dotted(ip) + ":8000"@);
    assert(endpoint(ip).take(7) =~= "http://"@);
}

/// A client of a node talks to the endpoint of that node, with credentials that are not checked.
pub proof fn lemma_client_talks_to_node(config: ClientConfig, ip: [u8; 4])
    requires
        config.is_for(ip),
    ensures
        config.endpoint_url@ == "http://"@ + dotted(ip) + ":8000"@,
        config.region@ == "us-east-1"@,
        config.access_key_id@ == "any"@,
        config.secret_access_key@ == "any"@,
        config.provider_name@ == "test"@,
{
    lemma_endpoint_is_http(ip);
}

/// The texts of a list of strings are those of its strings, in their order.
pub proof fn lemma_texts_are_those_of_strings(strings: Seq<String>)
    ensures
        texts(strings).len() == strings.len(),
        forall|i: int| 0 <= i < strings.len() ==> #[trigger] texts(strings)[i] == strings[i]@,
{
}

} // verus!
