//! The fork registry: each fork's own opcode table, and the table in
//! effect at a fork, which inherits from every earlier fork.

use vstd::prelude::*;
use std::collections::HashMap;
use crate::error::GasError;
use crate::fork::{lemma_epoch_round_trip, Fork, FORK_COUNT};
use crate::metadata::{MetadataView, OpcodeMetadata};
use crate::tables::{
    fork_table,
    fork_table_view,
    table_active,
    table_below,
    table_defines,
    table_entry,
    table_introduced,
    table_view,
};

verus! {

broadcast use vstd::std_specs::hash::group_hash_axioms;

/// The entries of one table written into `acc` in order, a later entry
/// for a byte replacing an earlier one.
pub open spec fn fold_table(acc: Map<u8, MetadataView>, table: Seq<MetadataView>) -> Map<
    u8,
    MetadataView,
>
    decreases table.len(),
{
    if table.len() == 0 {
        acc
    } else {
        fold_table(acc, table.drop_last()).insert(table.last().opcode, table.last())
    }
}

/// The union of the own tables of the first `n` epochs, in ascending
/// order of the epoch, a later table overriding an earlier one.
pub open spec fn effective_upto(tables: Seq<Seq<MetadataView>>, n: int) -> Map<u8, MetadataView>
    decreases n,
{
    if n <= 0 {
        Map::empty()
    } else {
        fold_table(effective_upto(tables, n - 1), tables[n - 1])
    }
}

/// The opcode table in effect at `fork`: the union of the own table of
/// every fork at or before it.
pub open spec fn effective_opcodes(tables: Seq<Seq<MetadataView>>, fork: Fork) -> Map<
    u8,
    MetadataView,
> {
    effective_upto(tables, fork.spec_epoch() + 1)
}

/// The forks that changed the instruction set or its prices, and so have
/// an opcode table of their own in the standard registry.
pub open spec fn has_own_table(fork: Fork) -> bool {
    match fork {
        Fork::Frontier
        | Fork::Homestead
        | Fork::Byzantium
        | Fork::Constantinople
        | Fork::Istanbul
        | Fork::Berlin
        | Fork::London
        | Fork::Shanghai
        | Fork::Cancun => true,
        _ => false,
    }
}

/// The own table of the epoch `e` in the standard registry.
pub open spec fn standard_table_at(e: int) -> Seq<MetadataView> {
    match Fork::spec_from_epoch(e as u8) {
        Some(fork) => if 0 <= e < FORK_COUNT && has_own_table(fork) {
            fork_table_view(fork)
        } else {
            Seq::empty()
        },
        None => Seq::empty(),
    }
}

/// The tables of the standard registry, one for each epoch; the forks
/// without a table of their own have an empty one.
pub open spec fn standard_tables() -> Seq<Seq<MetadataView>> {
    Seq::new(FORK_COUNT as nat, |e: int| standard_table_at(e))
}

/// A map of records seen as the map of what they hold.
pub open spec fn metadata_map_view(m: Map<u8, OpcodeMetadata>) -> Map<u8, MetadataView> {
    m.map_values(|x: OpcodeMetadata| x@)
}

/// Comprehensive opcode registry that manages all forks.
pub struct OpcodeRegistry {
    tables: Vec<Vec<OpcodeMetadata>>,
}

impl View for OpcodeRegistry {
    type V = Seq<Seq<MetadataView>>;

    /// The own table of each epoch, in the order of the timeline.
    closed spec fn view(&self) -> Seq<Seq<MetadataView>> {
        Seq::new(FORK_COUNT as nat, |e: int| table_view(self.tables@[e]@))
    }
}

impl OpcodeRegistry {
    #[verifier::type_invariant]
    spec fn one_table_per_epoch(self) -> bool {
        self.tables@.len() == FORK_COUNT
    }

    /// A registry in which no fork has any opcode.
    pub fn empty() -> (r: Self)
        ensures
            r@ == Seq::new(FORK_COUNT as nat, |e: int| Seq::<MetadataView>::empty()),
    {
        let mut tables: Vec<Vec<OpcodeMetadata>> = Vec::new();
        let mut e: u8 = 0;
        while e < FORK_COUNT
            invariant
                e <= FORK_COUNT,
                tables@.len() == e,
                forall|i: int| 0 <= i < e ==> (#[trigger] tables@[i])@.len() == 0,
            decreases FORK_COUNT - e,
        {
            tables.push(Vec::new());
            e += 1;
        }
        let r = OpcodeRegistry { tables };
        proof {
            assert(r@ =~= Seq::new(FORK_COUNT as nat, |e: int| Seq::<MetadataView>::empty())) by {
                assert forall|i: int| 0 <= i < FORK_COUNT implies r@[i]
                    == Seq::<MetadataView>::empty() by {
                    assert(table_view(r.tables@[i]@) =~= Seq::<MetadataView>::empty());
                }
            }
        }
        r
    }

    /// Create a new opcode registry with all known opcodes: the table of
    /// each fork that has one of its own.
    pub fn new() -> (r: Self)
        ensures
            r@ == standard_tables(),
    {
        let mut r = OpcodeRegistry::empty();
        r.register_fork(Fork::Frontier, fork_table(Fork::Frontier));
        r.register_fork(Fork::Homestead, fork_table(Fork::Homestead));
        r.register_fork(Fork::Byzantium, fork_table(Fork::Byzantium));
        r.register_fork(Fork::Constantinople, fork_table(Fork::Constantinople));
        r.register_fork(Fork::Istanbul, fork_table(Fork::Istanbul));
        r.register_fork(Fork::Berlin, fork_table(Fork::Berlin));
        r.register_fork(Fork::London, fork_table(Fork::London));
        r.register_fork(Fork::Shanghai, fork_table(Fork::Shanghai));
        r.register_fork(Fork::Cancun, fork_table(Fork::Cancun));
        proof {
            assert(r@ =~= standard_tables());
        }
        r
    }

    /// Makes `table` the own opcode table of `fork`, in place of the one
    /// it had.
    pub fn register_fork(&mut self, fork: Fork, table: Vec<OpcodeMetadata>)
        ensures
            final(self)@ == old(self)@.update(fork.spec_epoch() as int, table_view(table@)),
    {
        proof {
            use_type_invariant(&*self);
        }
        let e = fork.epoch() as usize;
        self.tables[e] = table;
        proof {
            assert(final(self)@ =~= old(self)@.update(
                fork.spec_epoch() as int,
                table_view(table@),
            ));
        }
    }

    /// The own opcode table of `fork`, as it was registered; empty if
    /// none was.
    pub fn own_table(&self, fork: Fork) -> (table: &Vec<OpcodeMetadata>)
        ensures
            table_view(table@) == self@[fork.spec_epoch() as int],
    {
        proof {
            use_type_invariant(self);
        }
        &self.tables[fork.epoch() as usize]
    }

    /// Validate opcode consistency across forks.
    pub fn validate(&self) -> (r: Result<(), Vec<String>>)
        ensures
            match r {
                Ok(_) => crate::validation::registry_errors(self@).len() == 0,
                Err(errors) => crate::text::lines(errors@)
                    == crate::validation::registry_errors(self@) && errors@.len() > 0,
            },
    {
        crate::validation::validate_registry(self)
    }

    /// Get all opcodes available in a specific fork: the union of the own
    /// tables of that fork and of every fork before it.
    pub fn get_opcodes(&self, fork: Fork) -> (result: HashMap<u8, OpcodeMetadata>)
        ensures
            metadata_map_view(result@) == effective_opcodes(self@, fork),
    {
        proof {
            use_type_invariant(self);
        }
        let mut result: HashMap<u8, OpcodeMetadata> = HashMap::new();
        let last = fork.epoch() as usize;
        let mut e: usize = 0;
        proof {
            assert(metadata_map_view(result@) =~= effective_upto(self@, 0));
        }
        while e <= last
            invariant
                e <= last + 1,
                last < FORK_COUNT,
                self.tables@.len() == FORK_COUNT,
                metadata_map_view(result@) == effective_upto(self@, e as int),
            decreases last + 1 - e,
        {
            let table = &self.tables[e];
            let mut i: usize = 0;
            proof {
                assert(self@[e as int].take(0) =~= Seq::<MetadataView>::empty());
            }
            while i < table.len()
                invariant
                    i <= table.len(),
                    e < FORK_COUNT,
                    self.tables@.len() == FORK_COUNT,
                    table == &self.tables@[e as int],
                    metadata_map_view(result@) == fold_table(
                        effective_upto(self@, e as int),
                        self@[e as int].take(i as int),
                    ),
                decreases table.len() - i,
            {
                let entry = table[i].clone();
                proof {
                    let own = self@[e as int];
                    assert(own == table_view(table@));
                    let next = own.take(i + 1);
                    assert(next.last() == entry@);
                    assert(next.drop_last() =~= own.take(i as int));
                    assert(metadata_map_view(result@.insert(entry.opcode, entry))
                        =~= metadata_map_view(result@).insert(entry.opcode, entry@));
                }
                result.insert(entry.opcode, entry);
                i += 1;
            }
            proof {
                let own = self@[e as int];
                assert(own.take(table.len() as int) =~= own);
            }
            e += 1;
        }
        result
    }

    /// The record of `opcode` in the table in effect at `fork`, if that
    /// table has the byte.
    pub fn lookup(&self, fork: Fork, opcode: u8) -> (m: Option<OpcodeMetadata>)
        ensures
            m is Some <==> effective_opcodes(self@, fork).contains_key(opcode),
            m is Some ==> m->0@ == effective_opcodes(self@, fork)[opcode],
    {
        let opcodes = self.get_opcodes(fork);
        proof {
            assert(metadata_map_view(opcodes@).contains_key(opcode) <==> opcodes@.contains_key(
                opcode,
            ));
        }
        match opcodes.get(&opcode) {
            Some(found) => Some(found.clone()),
            None => None,
        }
    }

    /// The record of `opcode` in the table in effect at `fork`; a byte
    /// that the table does not have is an unknown opcode. What to make
    /// of that is left to the caller.
    pub fn metadata(&self, fork: Fork, opcode: u8) -> (r: Result<OpcodeMetadata, GasError>)
        ensures
            effective_opcodes(self@, fork).contains_key(opcode) ==> r is Ok && r->Ok_0@
                == effective_opcodes(self@, fork)[opcode],
            !effective_opcodes(self@, fork).contains_key(opcode) ==> r is Err && r->Err_0
                == (GasError::UnknownOpcode { opcode, fork }),
    {
        match self.lookup(fork, opcode) {
            Some(found) => Ok(found),
            None => Err(GasError::UnknownOpcode { opcode, fork }),
        }
    }

    /// Check if a specific opcode is available in a fork.
    pub fn is_opcode_available(&self, fork: Fork, opcode: u8) -> (r: bool)
        ensures
            r == effective_opcodes(self@, fork).contains_key(opcode),
    {
        self.lookup(fork, opcode).is_some()
    }
}

impl Default for OpcodeRegistry {
    fn default() -> (r: Self)
        ensures
            r@ == standard_tables(),
    {
        OpcodeRegistry::new()
    }
}

/// Writing a table into a map keeps every byte the map had.
pub proof fn lemma_fold_table_keeps_keys(
    acc: Map<u8, MetadataView>,
    table: Seq<MetadataView>,
    byte: u8,
)
    requires
        acc.contains_key(byte),
    ensures
        fold_table(acc, table).contains_key(byte),
    decreases table.len(),
{
    if table.len() > 0 {
        lemma_fold_table_keeps_keys(acc, table.drop_last(), byte);
    }
}

/// The union over more epochs has every byte that the union over fewer has.
pub proof fn lemma_effective_upto_grows(
    tables: Seq<Seq<MetadataView>>,
    n: int,
    m: int,
    byte: u8,
)
    requires
        n <= m,
        effective_upto(tables, n).contains_key(byte),
    ensures
        effective_upto(tables, m).contains_key(byte),
    decreases m - n,
{
    if n < m {
        lemma_effective_upto_grows(tables, n, m - 1, byte);
        lemma_fold_table_keeps_keys(effective_upto(tables, m - 1), tables[m - 1], byte);
    }
}

/// An opcode that is available at a fork is available at every later
/// fork, whatever the tables hold: nothing disappears along the timeline.
pub proof fn lemma_availability_persists(
    tables: Seq<Seq<MetadataView>>,
    earlier: Fork,
    later: Fork,
    byte: u8,
)
    requires
        earlier.spec_epoch() <= later.spec_epoch(),
        effective_opcodes(tables, earlier).contains_key(byte),
    ensures
        effective_opcodes(tables, later).contains_key(byte),
{
    lemma_effective_upto_grows(
        tables,
        earlier.spec_epoch() + 1,
        later.spec_epoch() + 1,
        byte,
    );
}

/// Every opcode of the canonical table was introduced by a fork that has
/// a table of its own.
pub proof fn lemma_introduced_by_fork_with_table(byte: u8)
    ensures
        has_own_table(table_introduced(byte)),
{
}

/// The table of a fork, cut below a bound, holds the canonical record of
/// each byte below the bound that exists at the fork, and nothing else.
pub proof fn lemma_table_below(fork: Fork, bound: int)
    requires
        0 <= bound <= 256,
    ensures
        forall|i: int|
            0 <= i < table_below(fork, bound).len() ==> {
                let entry = #[trigger] table_below(fork, bound)[i];
                &&& entry == table_entry(entry.opcode)
                &&& table_active(fork, entry.opcode)
                &&& entry.opcode < bound
            },
        forall|byte: u8|
            byte < bound && table_active(fork, byte) ==> exists|i: int|
                0 <= i < table_below(fork, bound).len() && (#[trigger] table_below(
                    fork,
                    bound,
                )[i]).opcode == byte,
    decreases bound,
{
    if bound > 0 {
        lemma_table_below(fork, bound - 1);
        let prev = table_below(fork, bound - 1);
        let cur = table_below(fork, bound);
        let top = (bound - 1) as u8;
        assert forall|byte: u8| byte < bound && table_active(fork, byte) implies exists|i: int|
            0 <= i < cur.len() && (#[trigger] cur[i]).opcode == byte by {
            if byte == top {
                assert(cur[cur.len() - 1].opcode == byte);
            } else {
                let i = choose|i: int| 0 <= i < prev.len() && (#[trigger] prev[i]).opcode == byte;
                assert(cur[i].opcode == byte);
            }
        }
    }
}

/// Writing canonical records into a map of canonical records gives a map
/// of canonical records, which has the bytes of both.
pub proof fn lemma_fold_canonical(acc: Map<u8, MetadataView>, table: Seq<MetadataView>)
    requires
        forall|b: u8| acc.contains_key(b) ==> #[trigger] acc[b] == table_entry(b),
        forall|i: int| 0 <= i < table.len() ==> #[trigger] table[i] == table_entry(table[i].opcode),
    ensures
        forall|b: u8| #[trigger]
            fold_table(acc, table).contains_key(b) ==> fold_table(acc, table)[b] == table_entry(b),
        forall|b: u8| #[trigger]
            fold_table(acc, table).contains_key(b) <==> (acc.contains_key(b) || exists|i: int|
                0 <= i < table.len() && (#[trigger] table[i]).opcode == b),
    decreases table.len(),
{
    if table.len() > 0 {
        let front = table.drop_last();
        lemma_fold_canonical(acc, front);
        assert forall|b: u8| #[trigger]
            fold_table(acc, table).contains_key(b) <==> (acc.contains_key(b) || exists|i: int|
                0 <= i < table.len() && (#[trigger] table[i]).opcode == b) by {
            if fold_table(acc, table).contains_key(b) {
                if b == table.last().opcode {
                    assert(table[table.len() - 1].opcode == b);
                } else if !acc.contains_key(b) {
                    let i = choose|i: int| 0 <= i < front.len() && (#[trigger] front[i]).opcode == b;
                    assert(table[i].opcode == b);
                }
            }
            if exists|i: int| 0 <= i < table.len() && (#[trigger] table[i]).opcode == b {
                let i = choose|i: int| 0 <= i < table.len() && (#[trigger] table[i]).opcode == b;
                if i < table.len() - 1 {
                    assert(front[i].opcode == b);
                }
            }
        }
    }
}

/// In the standard registry, the union of the own tables of the first
/// `n` epochs holds the canonical record of each opcode introduced
/// before epoch `n`, and nothing else.
pub proof fn lemma_standard_upto(n: int)
    requires
        0 <= n <= FORK_COUNT,
    ensures
        forall|b: u8| #[trigger]
            effective_upto(standard_tables(), n).contains_key(b) <==> (table_defines(b)
                && table_introduced(b).spec_epoch() < n),
        forall|b: u8| #[trigger]
            effective_upto(standard_tables(), n).contains_key(b) ==> effective_upto(
                standard_tables(),
                n,
            )[b] == table_entry(b),
    decreases n,
{
    if n > 0 {
        lemma_standard_upto(n - 1);
        let acc = effective_upto(standard_tables(), n - 1);
        let own = standard_tables()[n - 1];
        assert(own == standard_table_at(n - 1));
        let fork = Fork::spec_from_epoch((n - 1) as u8)->0;
        assert(fork.spec_epoch() == n - 1);
        if has_own_table(fork) {
            lemma_table_below(fork, 256);
        }
        lemma_fold_canonical(acc, own);
        assert forall|b: u8| #[trigger]
            effective_upto(standard_tables(), n).contains_key(b) <==> (table_defines(b)
                && table_introduced(b).spec_epoch() < n) by {
            lemma_introduced_by_fork_with_table(b);
            if has_own_table(fork) {
                if table_active(fork, b) {
                    let i = choose|i: int|
                        0 <= i < own.len() && (#[trigger] own[i]).opcode == b;
                    assert(own[i].opcode == b);
                }
            } else {
                assert(own.len() == 0);
                assert(table_introduced(b) != fork);
                lemma_epoch_round_trip(table_introduced(b));
            }
        }
    }
}

/// In the standard registry an opcode is available at a fork exactly
/// when the canonical table assigns the byte and the opcode had been
/// introduced by then; its record is the canonical one.
pub proof fn lemma_standard_availability(fork: Fork, byte: u8)
    ensures
        effective_opcodes(standard_tables(), fork).contains_key(byte) <==> table_active(
            fork,
            byte,
        ),
        table_active(fork, byte) ==> effective_opcodes(standard_tables(), fork)[byte]
            == table_entry(byte),
{
    lemma_standard_upto(fork.spec_epoch() + 1);
    let effective = effective_upto(standard_tables(), fork.spec_epoch() + 1);
    assert(effective.contains_key(byte) <==> table_active(fork, byte));
    if effective.contains_key(byte) {
        assert(effective[byte] == table_entry(byte));
    }
}

} // verus!
