//! Core traits for EVM opcode table system with gas analysis integration.
//!
//! An opcode type stands for the opcodes of one fork. What a contract of
//! these traits says of a type holds of the types of this crate, which
//! are verified against it; an implementation written elsewhere has to
//! keep the contracts by itself.

use vstd::prelude::*;
use std::collections::HashMap;
use crate::error::GasError;
use crate::fork::{Fork, Group};
use crate::gas::analysis::{
    changes_between,
    compared_costs,
    optimization_savings,
    usage_costs,
    usage_opcodes,
    GasAnalysis,
    UsageView,
};
use crate::gas::calculator::{opcode_cost, DynamicGasCalculator};
use crate::gas::context::ExecutionContext;
use crate::gas::memory::clamp_u64;
use crate::gas::{category_of, recommendations, GasCostCategory};
use crate::metadata::{effective_gas_cost, MetadataView, OpcodeMetadata};
use crate::queries::{
    opcode_advice,
    spec_affects_memory,
    spec_affects_storage,
    spec_can_revert,
    spec_has_dynamic_gas_cost,
    spec_is_control_flow,
    spec_is_deprecated,
    spec_is_dup,
    spec_is_push,
    spec_is_swap,
    spec_min_stack_depth,
    spec_modifies_state,
    spec_push_size,
};
use crate::registry::{metadata_map_view, standard_tables};
use crate::text::lines;

verus! {

/// Core trait that all opcode types must implement.
pub trait OpCode: Sized + Clone + Copy + std::fmt::Debug {
    /// The byte of the opcode.
    spec fn spec_byte(&self) -> u8;

    /// The fork that the type stands for.
    spec fn spec_fork() -> Fork;

    /// The record of the opcode.
    spec fn spec_metadata(&self) -> MetadataView;

    /// The bytes of the opcodes of the fork, in the order in which
    /// `all_opcodes` lists them.
    spec fn spec_all_opcodes() -> Seq<u8>;

    /// The byte of the opcode.
    fn byte(&self) -> (b: u8)
        ensures
            b == self.spec_byte(),
    ;

    /// Get complete metadata for this opcode.
    fn metadata(&self) -> (m: OpcodeMetadata)
        ensures
            m@ == self.spec_metadata(),
    ;

    /// Get the fork this opcode type represents.
    fn fork() -> (f: Fork)
        ensures
            f == Self::spec_fork(),
    ;

    /// Get all opcodes available in this fork.
    fn all_opcodes() -> (all: Vec<Self>)
        ensures
            all@.len() == Self::spec_all_opcodes().len(),
            forall|i: int|
                0 <= i < all@.len() ==> (#[trigger] all@[i]).spec_byte()
                    == Self::spec_all_opcodes()[i],
    ;

    /// Check if an opcode exists in this fork.
    fn has_opcode(opcode: u8) -> (r: bool)
        ensures
            r == Self::spec_all_opcodes().contains(opcode),
    {
        let all = Self::all_opcodes();
        let mut i: usize = 0;
        while i < all.len()
            invariant
                i <= all.len(),
                all@.len() == Self::spec_all_opcodes().len(),
                forall|k: int|
                    0 <= k < all@.len() ==> (#[trigger] all@[k]).spec_byte()
                        == Self::spec_all_opcodes()[k],
                forall|k: int| 0 <= k < i ==> Self::spec_all_opcodes()[k] != opcode,
            decreases all.len() - i,
        {
            if all[i].byte() == opcode {
                assert(Self::spec_all_opcodes()[i as int] == opcode);
                return true;
            }
            i += 1;
        }
        false
    }

    /// Get gas cost for this opcode in this fork: the base cost in
    /// force at the fork.
    fn gas_cost(&self) -> (cost: u16)
        ensures
            cost == effective_gas_cost(self.spec_metadata(), Self::spec_fork()),
    {
        let metadata = self.metadata();
        metadata.effective_gas_cost(Self::fork())
    }

    /// Get stack inputs for this opcode.
    fn stack_inputs(&self) -> (n: u8)
        ensures
            n == self.spec_metadata().stack_inputs,
    {
        self.metadata().stack_inputs
    }

    /// Get stack outputs for this opcode.
    fn stack_outputs(&self) -> (n: u8)
        ensures
            n == self.spec_metadata().stack_outputs,
    {
        self.metadata().stack_outputs
    }

    /// Get opcode group.
    fn group(&self) -> (g: Group)
        ensures
            g == self.spec_metadata().group,
    {
        self.metadata().group
    }

    /// Get opcode description.
    fn description(&self) -> (d: &'static str)
        ensures
            d@ == self.spec_metadata().description,
    {
        self.metadata().description
    }

    /// Get fork where this opcode was introduced.
    fn introduced_in(&self) -> (f: Fork)
        ensures
            f == self.spec_metadata().introduced_in,
    {
        self.metadata().introduced_in
    }

    /// Get EIP number for this opcode.
    fn eip(&self) -> (e: Option<u16>)
        ensures
            e == self.spec_metadata().eip,
    {
        self.metadata().eip
    }
}

/// Fork inheritance utility to get all opcodes available in a specific fork.
pub trait ForkOpcodes {
    /// The opcodes available in a fork, inherited ones included.
    spec fn spec_opcodes_for_fork(fork: Fork) -> Map<u8, MetadataView>;

    /// The fork that introduced an opcode, if any did.
    spec fn spec_opcode_introduced_in(opcode: u8) -> Option<Fork>;

    /// Get all opcodes available in this fork (including inherited ones).
    fn get_opcodes_for_fork(fork: Fork) -> (opcodes: HashMap<u8, OpcodeMetadata>)
        ensures
            metadata_map_view(opcodes@) == Self::spec_opcodes_for_fork(fork),
    ;

    /// Check if a specific opcode is available in a fork.
    fn is_opcode_available(fork: Fork, opcode: u8) -> (r: bool)
        ensures
            r == Self::spec_opcodes_for_fork(fork).contains_key(opcode),
    {
        let opcodes = Self::get_opcodes_for_fork(fork);
        proof {
            assert(metadata_map_view(opcodes@).contains_key(opcode) <==> opcodes@.contains_key(
                opcode,
            ));
        }
        opcodes.contains_key(&opcode)
    }

    /// Get the fork where an opcode was introduced.
    fn opcode_introduced_in(opcode: u8) -> (fork: Option<Fork>)
        ensures
            fork == Self::spec_opcode_introduced_in(opcode),
    ;
}

/// Extended trait for opcodes with additional utilities including gas analysis.
pub trait OpcodeExt: OpCode {
    /// Check if this opcode modifies state.
    fn modifies_state(&self) -> (r: bool)
        ensures
            r == spec_modifies_state(self.spec_byte()),
    {
        crate::queries::modifies_state(self.byte())
    }

    /// Check if this opcode can cause revert.
    fn can_revert(&self) -> (r: bool)
        ensures
            r == spec_can_revert(self.spec_byte()),
    {
        crate::queries::can_revert(self.byte())
    }

    /// Check if this is a push opcode.
    fn is_push(&self) -> (r: bool)
        ensures
            r == spec_is_push(self.spec_byte()),
    {
        crate::queries::is_push(self.byte())
    }

    /// Get push data size (0 for PUSH0, 1 for PUSH1, etc.).
    fn push_size(&self) -> (r: Option<u8>)
        ensures
            r == spec_push_size(self.spec_byte()),
    {
        crate::queries::push_size(self.byte())
    }

    /// Check if this is a dup opcode.
    fn is_dup(&self) -> (r: bool)
        ensures
            r == spec_is_dup(self.spec_byte()),
    {
        crate::queries::is_dup(self.byte())
    }

    /// Check if this is a swap opcode.
    fn is_swap(&self) -> (r: bool)
        ensures
            r == spec_is_swap(self.spec_byte()),
    {
        crate::queries::is_swap(self.byte())
    }

    /// Get the minimum required stack depth for this opcode.
    fn min_stack_depth(&self) -> (r: u8)
        ensures
            r == spec_min_stack_depth(self.spec_byte(), self.spec_metadata().stack_inputs),
    {
        let metadata = self.metadata();
        crate::queries::min_stack_depth(self.byte(), metadata.stack_inputs)
    }

    /// Calculate dynamic gas cost for this opcode at the fork of its
    /// type, over the standard registry.
    fn calculate_gas_cost(&self, context: &ExecutionContext, operands: &[u64]) -> (r: Result<
        u64,
        GasError,
    >)
        ensures
            r == opcode_cost(
                standard_tables(),
                Self::spec_fork(),
                self.spec_byte(),
                context@,
                operands@,
            ),
    {
        let calculator = DynamicGasCalculator::new(Self::fork());
        calculator.calculate_gas_cost(self.byte(), context, operands)
    }

    /// Get gas cost category for optimization analysis.
    fn gas_cost_category(&self) -> (category: GasCostCategory)
        ensures
            category == category_of(self.spec_byte()),
    {
        GasCostCategory::classify_opcode(self.byte())
    }

    /// Check if this opcode's gas cost varies with context.
    fn has_dynamic_gas_cost(&self) -> (r: bool)
        ensures
            r == spec_has_dynamic_gas_cost(self.spec_byte()),
    {
        crate::queries::has_dynamic_gas_cost(self.byte())
    }

    /// Check if this is a control flow opcode.
    fn is_control_flow(&self) -> (r: bool)
        ensures
            r == spec_is_control_flow(self.spec_byte()),
    {
        crate::queries::is_control_flow(self.byte())
    }

    /// Check if this opcode affects memory.
    fn affects_memory(&self) -> (r: bool)
        ensures
            r == spec_affects_memory(self.spec_byte()),
    {
        crate::queries::affects_memory(self.byte())
    }

    /// Check if this opcode affects storage.
    fn affects_storage(&self) -> (r: bool)
        ensures
            r == spec_affects_storage(self.spec_byte()),
    {
        crate::queries::affects_storage(self.byte())
    }

    /// Get estimated gas cost for this opcode (simplified, without context).
    fn estimated_gas_cost(&self) -> (cost: u16)
        ensures
            cost == effective_gas_cost(self.spec_metadata(), Self::spec_fork()),
    {
        self.gas_cost()
    }

    /// Check if this opcode is deprecated or discouraged.
    fn is_deprecated(&self) -> (r: bool)
        ensures
            r == spec_is_deprecated(self.spec_byte()),
    {
        crate::queries::is_deprecated(self.byte())
    }

    /// Get optimization recommendations for this opcode.
    fn optimization_recommendations(&self) -> (r: Vec<String>)
        ensures
            lines(r@) == opcode_advice(self.spec_byte(), Self::spec_fork()),
    {
        crate::queries::optimization_recommendations(self.byte(), Self::fork())
    }
}

/// Automatic implementation for all OpCode types.
impl<T: OpCode> OpcodeExt for T {}

/// Types of changes that can occur to opcodes between forks.
#[derive(Debug, Clone, Copy, PartialEq, Eq, Structural)]
pub enum ChangeType {
    /// Opcode was added
    Added,
    /// Opcode was removed (rare)
    Removed,
    /// Gas cost changed
    GasCostChanged,
    /// Stack behavior changed
    StackBehaviorChanged,
    /// Description/semantics updated
    SemanticsChanged,
}

/// Represents a change in an opcode between forks.
#[derive(Debug, Clone, Copy, PartialEq, Eq, Structural)]
pub struct OpcodeChange {
    /// The opcode that changed
    pub opcode: u8,
    /// Type of change
    pub change_type: ChangeType,
    /// Previous value (if applicable)
    pub old_value: Option<u16>,
    /// New value (if applicable)
    pub new_value: Option<u16>,
}

/// A change found by the gas analysis as a change of this module: the
/// same opcode, kind and values.
pub open spec fn change_of(found: crate::gas::analysis::OpcodeChange) -> OpcodeChange {
    OpcodeChange {
        opcode: found.opcode,
        change_type: match found.change_type {
            crate::gas::analysis::ChangeType::Added => ChangeType::Added,
            crate::gas::analysis::ChangeType::Removed => ChangeType::Removed,
            crate::gas::analysis::ChangeType::GasCostChanged => ChangeType::GasCostChanged,
            crate::gas::analysis::ChangeType::StackBehaviorChanged => ChangeType::StackBehaviorChanged,
            crate::gas::analysis::ChangeType::SemanticsChanged => ChangeType::SemanticsChanged,
        },
        old_value: found.old_value,
        new_value: found.new_value,
    }
}

/// The changes found by the gas analysis as changes of this module.
pub open spec fn changes_of(found: Seq<crate::gas::analysis::OpcodeChange>) -> Seq<OpcodeChange> {
    found.map_values(|c: crate::gas::analysis::OpcodeChange| change_of(c))
}

/// Trait for comparing opcodes between forks.
pub trait OpcodeComparison {
    /// The costs of an opcode at two forks, where both have it.
    spec fn spec_compare_gas_costs(opcode: u8, fork1: Fork, fork2: Fork) -> Option<(u16, u16)>;

    /// The changes between two forks.
    spec fn spec_changes_between_forks(fork1: Fork, fork2: Fork) -> Seq<OpcodeChange>;

    /// Compare gas costs between two forks for the same opcode.
    fn compare_gas_costs(opcode: u8, fork1: Fork, fork2: Fork) -> (r: Option<(u16, u16)>)
        ensures
            r == Self::spec_compare_gas_costs(opcode, fork1, fork2),
    ;

    /// Get all opcodes that changed between two forks.
    fn get_changes_between_forks(fork1: Fork, fork2: Fork) -> (changes: Vec<OpcodeChange>)
        ensures
            changes@ == Self::spec_changes_between_forks(fork1, fork2),
    ;
}

/// Trait for fork-specific validation rules.
pub trait ForkValidation {
    /// What is inconsistent in the opcodes of a fork.
    spec fn spec_fork_inconsistencies(fork: Fork) -> Seq<Seq<char>>;

    /// The known issues and edge cases of a fork.
    spec fn spec_known_issues(fork: Fork) -> Seq<Seq<char>>;

    /// Validate that all opcodes in this fork are consistent: `Ok` where
    /// nothing is inconsistent, else every inconsistency.
    fn validate_fork_consistency(fork: Fork) -> (r: Result<(), Vec<String>>)
        ensures
            match r {
                Ok(_) => Self::spec_fork_inconsistencies(fork).len() == 0,
                Err(errors) => lines(errors@) == Self::spec_fork_inconsistencies(fork)
                    && errors@.len() > 0,
            },
    ;

    /// Check for any known issues or edge cases in this fork.
    fn check_known_issues(fork: Fork) -> (issues: Vec<String>)
        ensures
            lines(issues@) == Self::spec_known_issues(fork),
    ;
}

/// `front` is the beginning of `whole`.
pub open spec fn begins_with(whole: Seq<Seq<char>>, front: Seq<Seq<char>>) -> bool {
    whole.len() >= front.len() && whole.take(front.len() as int) == front
}

/// Enhanced trait for opcode analysis with gas considerations.
pub trait OpcodeAnalysis {
    /// The analysis of a sequence of bare opcodes at a fork.
    spec fn spec_analysis(opcodes: Seq<u8>, fork: Fork) -> UsageView;

    /// The verdict on a sequence of bare opcodes at a fork.
    spec fn spec_verdict(opcodes: Seq<u8>, fork: Fork) -> Result<(), Seq<char>>;

    /// Analyze gas usage patterns for a sequence of opcodes.
    fn analyze_gas_usage(opcodes: &[u8], fork: Fork) -> (analysis: GasAnalysis)
        ensures
            analysis@ == Self::spec_analysis(opcodes@, fork),
    ;

    /// Check if a sequence of opcodes is valid for a given fork.
    fn validate_opcode_sequence(opcodes: &[u8], fork: Fork) -> (r: Result<(), String>)
        ensures
            match Self::spec_verdict(opcodes@, fork) {
                Ok(_) => r is Ok,
                Err(text) => r is Err && r->Err_0@ == text,
            },
    ;

    /// Get optimization suggestions for a sequence of opcodes: the
    /// recommendations of its analysis first, and whatever the
    /// implementation adds to them.
    fn get_optimization_suggestions(opcodes: &[u8], fork: Fork) -> (suggestions: Vec<String>)
        ensures
            begins_with(
                lines(suggestions@),
                recommendations(
                    Self::spec_analysis(opcodes@, fork).optimizations,
                    usage_opcodes(Self::spec_analysis(opcodes@, fork).breakdown),
                    usage_costs(Self::spec_analysis(opcodes@, fork).breakdown),
                ),
            ),
    {
        let analysis = Self::analyze_gas_usage(opcodes, fork);
        let suggestions = analysis.get_optimization_recommendations();
        proof {
            assert(lines(suggestions@).take(lines(suggestions@).len() as int) =~= lines(
                suggestions@,
            ));
        }
        suggestions
    }

    /// Estimate gas savings from proposed optimizations.
    fn estimate_gas_savings(opcodes: &[u8], fork: Fork) -> (savings: u64)
        ensures
            savings == clamp_u64(
                optimization_savings(Self::spec_analysis(opcodes@, fork).breakdown),
            ),
    {
        let analysis = Self::analyze_gas_usage(opcodes, fork);
        analysis.estimate_optimization_savings()
    }
}

/// Implementation of the OpcodeComparison trait using the gas analysis system.
impl OpcodeComparison for crate::registry::OpcodeRegistry {
    open spec fn spec_compare_gas_costs(opcode: u8, fork1: Fork, fork2: Fork) -> Option<(u16, u16)> {
        compared_costs(standard_tables(), opcode, fork1, fork2)
    }

    open spec fn spec_changes_between_forks(fork1: Fork, fork2: Fork) -> Seq<OpcodeChange> {
        changes_of(changes_between(standard_tables(), fork1, fork2))
    }

    fn compare_gas_costs(opcode: u8, fork1: Fork, fork2: Fork) -> (r: Option<(u16, u16)>) {
        let r = crate::gas::analysis::GasComparator::compare_gas_costs(opcode, fork1, fork2);
        assert(r == Self::spec_compare_gas_costs(opcode, fork1, fork2));
        r
    }

    fn get_changes_between_forks(fork1: Fork, fork2: Fork) -> (changes: Vec<OpcodeChange>) {
        let gas_changes = crate::gas::analysis::GasComparator::get_changes_between_forks(
            fork1,
            fork2,
        );
        let mut changes: Vec<OpcodeChange> = Vec::new();
        let mut i: usize = 0;
        while i < gas_changes.len()
            invariant
                i <= gas_changes.len(),
                changes@ == changes_of(gas_changes@.take(i as int)),
            decreases gas_changes.len() - i,
        {
            let gc = gas_changes[i];
            changes.push(
                OpcodeChange {
                    opcode: gc.opcode,
                    change_type: match gc.change_type {
                        crate::gas::analysis::ChangeType::Added => ChangeType::Added,
                        crate::gas::analysis::ChangeType::Removed => ChangeType::Removed,
                        crate::gas::analysis::ChangeType::GasCostChanged => ChangeType::GasCostChanged,
                        crate::gas::analysis::ChangeType::StackBehaviorChanged => ChangeType::StackBehaviorChanged,
                        crate::gas::analysis::ChangeType::SemanticsChanged => ChangeType::SemanticsChanged,
                    },
                    old_value: gc.old_value,
                    new_value: gc.new_value,
                },
            );
            proof {
                assert(changes@ =~= changes_of(gas_changes@.take(i + 1)));
            }
            i += 1;
        }
        proof {
            assert(gas_changes@.take(gas_changes@.len() as int) =~= gas_changes@);
            assert(changes@ == Self::spec_changes_between_forks(fork1, fork2));
        }
        changes
    }
}

} // verus!
