//! The record that describes one opcode, and the base cost it has at a fork.

use vstd::prelude::*;
use crate::fork::{Fork, Group};

verus! {

/// Opcode metadata with complete information.
///
/// `gas_cost` is the base cost the opcode had when it was introduced;
/// `gas_history` lists the later changes of that base cost, oldest first.
/// The base cost is the part of the price that does not depend on the
/// execution context; the calculator adds its surcharges on top of it.
#[derive(Debug)]
pub struct OpcodeMetadata {
    /// The opcode byte value
    pub opcode: u8,
    /// Opcode name (e.g., "ADD", "PUSH1")
    pub name: &'static str,
    /// Base gas cost
    pub gas_cost: u16,
    /// Number of items popped from stack
    pub stack_inputs: u8,
    /// Number of items pushed to stack
    pub stack_outputs: u8,
    /// Human-readable description
    pub description: &'static str,
    /// Fork where this opcode was introduced
    pub introduced_in: Fork,
    /// Opcode group/category
    pub group: Group,
    /// EIP number that introduced this opcode (if applicable)
    pub eip: Option<u16>,
    /// Gas cost changes across forks
    pub gas_history: Vec<(Fork, u16)>,
}

/// What an [`OpcodeMetadata`] holds, as plain mathematical values.
pub struct MetadataView {
    pub opcode: u8,
    pub name: Seq<char>,
    pub gas_cost: u16,
    pub stack_inputs: u8,
    pub stack_outputs: u8,
    pub description: Seq<char>,
    pub introduced_in: Fork,
    pub group: Group,
    pub eip: Option<u16>,
    pub gas_history: Seq<(Fork, u16)>,
}

impl View for OpcodeMetadata {
    type V = MetadataView;

    open spec fn view(&self) -> MetadataView {
        MetadataView {
            opcode: self.opcode,
            name: self.name@,
            gas_cost: self.gas_cost,
            stack_inputs: self.stack_inputs,
            stack_outputs: self.stack_outputs,
            description: self.description@,
            introduced_in: self.introduced_in,
            group: self.group,
            eip: self.eip,
            gas_history: self.gas_history@,
        }
    }
}

/// The cost of the last entry of `history` whose fork is at or before
/// `fork`, if there is one.
pub open spec fn last_applicable(history: Seq<(Fork, u16)>, fork: Fork) -> Option<u16>
    decreases history.len(),
{
    if history.len() == 0 {
        None
    } else if history.last().0.spec_epoch() <= fork.spec_epoch() {
        Some(history.last().1)
    } else {
        last_applicable(history.drop_last(), fork)
    }
}

/// The base cost in force at `fork`: the last change of the history that
/// had happened by then, or the introduction cost if none had.
pub open spec fn effective_gas_cost(m: MetadataView, fork: Fork) -> u16 {
    match last_applicable(m.gas_history, fork) {
        Some(cost) => cost,
        None => m.gas_cost,
    }
}

/// The history is sorted by fork, oldest first (equal forks may repeat).
pub open spec fn history_is_chronological(history: Seq<(Fork, u16)>) -> bool {
    forall|i: int, j: int|
        0 <= i <= j < history.len() ==> history[i].0.spec_epoch() <= history[j].0.spec_epoch()
}

impl Clone for OpcodeMetadata {
    fn clone(&self) -> (r: Self)
        ensures
            r@ == self@,
    {
        let mut history: Vec<(Fork, u16)> = Vec::new();
        let mut i: usize = 0;
        while i < self.gas_history.len()
            invariant
                i <= self.gas_history.len(),
                history@ == self.gas_history@.take(i as int),
            decreases self.gas_history.len() - i,
        {
            history.push(self.gas_history[i]);
            proof {
                assert(history@ =~= self.gas_history@.take(i + 1));
            }
            i += 1;
        }
        proof {
            assert(history@ =~= self.gas_history@);
        }
        OpcodeMetadata {
            opcode: self.opcode,
            name: self.name,
            gas_cost: self.gas_cost,
            stack_inputs: self.stack_inputs,
            stack_outputs: self.stack_outputs,
            description: self.description,
            introduced_in: self.introduced_in,
            group: self.group,
            eip: self.eip,
            gas_history: history,
        }
    }
}

impl OpcodeMetadata {
    /// The base cost of this opcode at `fork`.
    ///
    /// The result depends on the record and the fork alone.
    pub fn effective_gas_cost(&self, fork: Fork) -> (cost: u16)
        ensures
            cost == effective_gas_cost(self@, fork),
    {
        let mut i: usize = self.gas_history.len();
        proof {
            assert(self.gas_history@.take(i as int) =~= self.gas_history@);
        }
        while i > 0
            invariant
                i <= self.gas_history.len(),
                last_applicable(self.gas_history@, fork) == last_applicable(
                    self.gas_history@.take(i as int),
                    fork,
                ),
            decreases i,
        {
            let entry = self.gas_history[i - 1];
            proof {
                let prefix = self.gas_history@.take(i as int);
                assert(prefix.last() == self.gas_history@[i - 1]);
                assert(prefix.drop_last() =~= self.gas_history@.take(i - 1));
            }
            if fork.at_least(entry.0) {
                return entry.1;
            }
            i -= 1;
        }
        self.gas_cost
    }
}

/// The base cost at a fork is a function of the record's contents and the
/// fork: two records that hold the same values have the same cost at the
/// same fork.
pub proof fn lemma_effective_gas_cost_is_a_function(
    a: OpcodeMetadata,
    b: OpcodeMetadata,
    fork_a: Fork,
    fork_b: Fork,
)
    requires
        a@ == b@,
        fork_a == fork_b,
    ensures
        effective_gas_cost(a@, fork_a) == effective_gas_cost(b@, fork_b),
{
}

/// A record without history costs its introduction cost at every fork.
pub proof fn lemma_effective_gas_cost_without_history(m: MetadataView, fork: Fork)
    requires
        m.gas_history.len() == 0,
    ensures
        effective_gas_cost(m, fork) == m.gas_cost,
{
}

} // verus!
