//! Names of tables, keyspaces and indexes.

use crate::text::decimal;
use crate::text::decimal_text;
use crate::text::lemma_decimal_injective;
use crate::text::lemma_decimal_writes;
use crate::text::writes;
use vstd::arithmetic::div_mod::lemma_add_mod_noop;
use vstd::arithmetic::div_mod::lemma_fundamental_div_mod;
use vstd::arithmetic::div_mod::lemma_mod_self_0;
use vstd::arithmetic::div_mod::lemma_small_mod;
use vstd::prelude::*;

verus! {

/// How many tables have been named.
#[derive(Debug, Clone, Copy, PartialEq, Eq)]
pub struct TableCounter {
    pub next: usize,
}

/// The name of the table with the number `n`.
pub open spec fn table_name(n: nat) -> Seq<char> {
    "AltTbl"@ + decimal(n)
}

/// Where a counter that stands at `start` stands after `draws` names have been drawn from it.
pub open spec fn counter_after(start: nat, draws: nat) -> nat {
    (start + draws) % (usize::MAX as nat + 1)
}

/// Names a table as no other table that is named by the same counter.
pub fn unique_alternator_table_name(counter: &mut TableCounter) -> (name: String)
    ensures
        name@ == table_name(old(counter).next as nat),
        final(counter).next == counter_after(old(counter).next as nat, 1),
{
    let number: usize = counter.next;
    counter.next = number.wrapping_add(1);
    proof {
        if number == usize::MAX {
            lemma_mod_self_0(usize::MAX as int + 1);
        } else {
            lemma_small_mod(number as nat + 1, usize::MAX as nat + 1);
        }
    }
    String::from_str("AltTbl").concat(decimal_text(number as u64).as_str())
}

/// Tables with different numbers have different names.
pub proof fn lemma_table_names_differ(m: nat, n: nat)
    requires
        m != n,
    ensures
        table_name(m) != table_name(n),
{
    if table_name(m) == table_name(n) {
        let prefix = "AltTbl"@;
        assert(table_name(m).skip(prefix.len() as int) =~= decimal(m));
        assert(table_name(n).skip(prefix.len() as int) =~= decimal(n));
        lemma_decimal_injective(m, n);
    }
}

/// The names that are drawn from one counter, wherever it starts, differ from one another until
/// it has gone through all its numbers.
pub proof fn lemma_drawn_names_differ(start: nat, i: nat, j: nat)
    requires
        i < j,
        j - i <= usize::MAX,
    ensures
        table_name(counter_after(start, i)) != table_name(counter_after(start, j)),
{
    let size: int = usize::MAX as int + 1;
    let a: int = start as int + i as int;
    let b: int = start as int + j as int;
    if a % size == b % size {
        lemma_fundamental_div_mod(a, size);
        lemma_fundamental_div_mod(b, size);
        let q: int = b / size - a / size;
        assert(b - a == size * q) by (nonlinear_arith)
            requires
                a == size * (a / size) + a % size,
                b == size * (b / size) + b % size,
                a % size == b % size,
                q == b / size - a / size,
        ;
        assert(q >= 1 ==> size * q >= size) by (nonlinear_arith)
            requires
                size > 0,
        ;
        assert(q <= 0 ==> size * q <= 0) by (nonlinear_arith)
            requires
                size > 0,
        ;
    }
    lemma_table_names_differ(counter_after(start, i), counter_after(start, j));
}

/// To draw one name more is to draw one from where the counter stands.
pub proof fn lemma_counter_steps(start: nat, draws: nat)
    ensures
        counter_after(start, draws + 1) == counter_after(counter_after(start, draws), 1),
{
    lemma_add_mod_noop(start as int + draws as int, 1, usize::MAX as int + 1);
}

/// The name of a CQL keyspace.
#[derive(Debug)]
pub struct KeyspaceName {
    name: String,
}

impl View for KeyspaceName {
    type V = Seq<char>;

    closed spec fn view(&self) -> Seq<char> {
        self.name@
    }
}

impl KeyspaceName {
    /// The keyspace with the given name.
    pub fn new(name: &str) -> (keyspace: Self)
        ensures
            keyspace@ == name@,
    {
        KeyspaceName { name: String::from_str(name) }
    }

    /// The name as text.
    pub fn as_str(&self) -> (name: &str)
        ensures
            name@ == self@,
    {
        self.name.as_str()
    }
}

impl Clone for KeyspaceName {
    fn clone(&self) -> (copy: Self)
        ensures
            copy@ == self@,
    {
        KeyspaceName { name: self.name.clone() }
    }
}

/// The name of a vector index.
#[derive(Debug)]
pub struct IndexName {
    name: String,
}

impl View for IndexName {
    type V = Seq<char>;

    closed spec fn view(&self) -> Seq<char> {
        self.name@
    }
}

impl IndexName {
    /// The index with the given name.
    pub fn new(name: &str) -> (index: Self)
        ensures
            index@ == name@,
    {
        IndexName { name: String::from_str(name) }
    }

    /// The name as text.
    pub fn as_str(&self) -> (name: &str)
        ensures
            name@ == self@,
    {
        self.name.as_str()
    }
}

impl Clone for IndexName {
    fn clone(&self) -> (copy: Self)
        ensures
            copy@ == self@,
    {
        IndexName { name: self.name.clone() }
    }
}

/// A vector index, as the Vector Store identifies it.
#[derive(Debug)]
pub struct IndexInfo {
    pub keyspace: KeyspaceName,
    pub index: IndexName,
}

/// The names that identify a vector index.
#[verifier::ext_equal]
pub struct IndexId {
    pub keyspace: Seq<char>,
    pub index: Seq<char>,
}

impl View for IndexInfo {
    type V = IndexId;

    open spec fn view(&self) -> IndexId {
        IndexId { keyspace: self.keyspace@, index: self.index@ }
    }
}

impl IndexInfo {
    /// The index `index` of the keyspace `keyspace`.
    pub fn new(keyspace: &str, index: &str) -> (info: Self)
        ensures
            info@ == (IndexId { keyspace: keyspace@, index: index@ }),
    {
        IndexInfo { keyspace: KeyspaceName::new(keyspace), index: IndexName::new(index) }
    }
}

impl Clone for IndexInfo {
    fn clone(&self) -> (copy: Self)
        ensures
            copy@ == self@,
    {
        IndexInfo { keyspace: self.keyspace.clone(), index: self.index.clone() }
    }
}

/// The CQL keyspace in which the table `table_name` is stored.
pub open spec fn keyspace_of(table_name: Seq<char>) -> Seq<char> {
    "alternator_"@ + table_name
}

/// In ScyllaDB Alternator, a DynamoDB table named `T` is stored under the CQL keyspace
/// `alternator_T`. The Vector Store finds indexes by their keyspace, so this is the name by
/// which it identifies an index of the table.
pub fn alternator_keyspace(table_name: &str) -> (keyspace: KeyspaceName)
    ensures
        keyspace@ == keyspace_of(table_name@),
{
    KeyspaceName { name: String::from_str("alternator_").concat(table_name) }
}

/// Different tables are stored under different keyspaces.
pub proof fn lemma_keyspaces_differ(a: Seq<char>, b: Seq<char>)
    requires
        a != b,
    ensures
        keyspace_of(a) != keyspace_of(b),
{
    if keyspace_of(a) == keyspace_of(b) {
        let prefix = "alternator_"@;
        assert(keyspace_of(a).skip(prefix.len() as int) =~= a);
        assert(keyspace_of(b).skip(prefix.len() as int) =~= b);
    }
}

/// The name of a table is `AltTbl` and its number.
pub proof fn lemma_table_name_tells_number(n: nat)
    ensures
        table_name(n).len() > 6,
        table_name(n).take(6) == "AltTbl"@,
        writes(table_name(n).skip(6), n),
{
    reveal_strlit("AltTbl");
    lemma_decimal_writes(n);
    assert(table_name(n).take(6) =~= "AltTbl"@);
    assert(table_name(n).skip(6) =~= decimal(n));
}

/// A counter goes up by one with each name, and starts again at zero after its last number.
pub proof fn lemma_counter_counts(start: usize)
    ensures
        counter_after(start as nat, 0) == start,
        start < usize::MAX ==> counter_after(start as nat, 1) == start + 1,
        start == usize::MAX ==> counter_after(start as nat, 1) == 0,
{
    lemma_small_mod(start as nat, usize::MAX as nat + 1);
    if start == usize::MAX {
        lemma_mod_self_0(usize::MAX as int + 1);
    } else {
        lemma_small_mod(start as nat + 1, usize::MAX as nat + 1);
    }
}

/// The keyspace of a table is told by a prefix and the name of the table.
pub proof fn lemma_keyspace_tells_table(table: Seq<char>)
    ensures
        keyspace_of(table).len() == table.len() + 11,
        keyspace_of(table).take(11) == "alternator_"@,
        keyspace_of(table).skip(11) == table,
{
    reveal_strlit("alternator_");
    assert(keyspace_of(table).take(11) =~= "alternator_"@);
    assert(keyspace_of(table).skip(11) =~= table);
}

/// An index is identified by the texts of its two names.
pub proof fn lemma_index_is_identified_by_names(index: IndexInfo)
    ensures
        index@.keyspace == index.keyspace@,
        index@.index == index.index@,
{
}

} // verus!
