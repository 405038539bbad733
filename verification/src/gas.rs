//! Dynamic gas cost analysis for EVM opcodes.
//!
//! This module provides context-aware gas cost calculation that accounts for:
//! - EIP-2929 warm/cold storage and account access
//! - Memory expansion costs (quadratic pricing)
//! - Complex call operation pricing
//! - Fork-specific gas cost evolution

use vstd::prelude::*;
use vstd::string::StringExecFns;
use crate::gas::calculator::{count_of, opcodes_of, BASE_TRANSACTION_COST};
use crate::ranking::{indices, rank_descending, ranking};
use crate::text::{copy_lines, decimal, hex2, lines, push_decimal, push_hex2, push_line};

pub mod analysis;
pub mod calculator;
pub mod context;
pub mod keys;
pub mod memory;

pub use analysis::{
    CategoryGas,
    ChangeType,
    GasAnalysis,
    GasAnalyzer,
    GasChangeSummary,
    GasComparator,
    GasComparisonReport,
    GasOptimizationAdvisor,
    OpcodeChange,
};
pub use calculator::DynamicGasCalculator;
pub use context::{ContextView, ExecutionContext, ExecutionContextBuilder};

verus! {

/// Represents different types of gas costs.
#[derive(Debug, Clone, PartialEq, Eq)]
pub enum GasCostType {
    /// Fixed cost regardless of context
    Static(u64),
    /// Dynamic cost that depends on execution context
    Dynamic {
        /// Base gas cost before variable factors
        base_cost: u64,
        /// Additional factors that can affect the final cost
        variable_factors: Vec<GasVariableFactor>,
    },
    /// Memory expansion cost
    MemoryExpansion {
        /// Base cost for the operation
        base_cost: u64,
        /// Factor multiplied by memory size
        memory_size_factor: u64,
    },
    /// Complex cost with multiple dependencies
    Complex,
}

/// Factors that can affect variable gas costs.
#[derive(Debug, Clone, PartialEq, Eq)]
pub enum GasVariableFactor {
    /// Cost depends on whether storage slot was previously accessed
    StorageWarmCold {
        /// Gas cost for warm (previously accessed) storage
        warm_cost: u64,
        /// Gas cost for cold (first access) storage
        cold_cost: u64,
    },
    /// Cost depends on whether address was previously accessed
    AddressWarmCold {
        /// Gas cost for warm (previously accessed) address
        warm_cost: u64,
        /// Gas cost for cold (first access) address
        cold_cost: u64,
    },
    /// Cost depends on memory expansion
    MemoryExpansion,
    /// Cost depends on value being transferred
    ValueTransfer(u64),
    /// Cost depends on account creation
    AccountCreation(u64),
    /// Cost for copying data
    DataCopy {
        /// Gas cost per 32-byte word copied
        cost_per_word: u64,
    },
}

/// Gas cost categories for optimization analysis.
#[derive(Debug, Clone, Copy, PartialEq, Eq, Hash, Structural)]
pub enum GasCostCategory {
    /// Very cheap operations (1-3 gas)
    VeryLow,
    /// Low cost operations (3-8 gas)
    Low,
    /// Medium cost operations (8-100 gas)
    Medium,
    /// High cost operations (100-2600 gas)
    High,
    /// Very high cost operations (2600+ gas)
    VeryHigh,
    /// Unknown/unclassified operations
    Unknown,
}

/// The category of an opcode, by the byte alone:
/// arithmetic, comparison, POP, PC, DUP and SWAP are very low; memory
/// access, jumps, GAS and JUMPDEST are low; hashing and the environment
/// and block queries are medium; SLOAD and the queries of other accounts
/// are high; SSTORE and the system operations are very high.
pub open spec fn category_of(opcode: u8) -> GasCostCategory {
    if (0x01 <= opcode <= 0x0b) || (0x10 <= opcode <= 0x1d) || opcode == 0x50 || opcode == 0x58
        || (0x80 <= opcode <= 0x9f) {
        GasCostCategory::VeryLow
    } else if (0x51 <= opcode <= 0x53) || (0x56 <= opcode <= 0x57) || (0x5a <= opcode <= 0x5b) {
        GasCostCategory::Low
    } else if opcode == 0x20 || opcode == 0x30 || (0x32 <= opcode <= 0x3a) || (0x40 <= opcode
        <= 0x48) {
        GasCostCategory::Medium
    } else if opcode == 0x54 || opcode == 0x31 || (0x3b <= opcode <= 0x3f) {
        GasCostCategory::High
    } else if opcode == 0x55 || opcode >= 0xf0 {
        GasCostCategory::VeryHigh
    } else {
        GasCostCategory::Unknown
    }
}

/// The typical gas range of a category, lowest and highest.
pub open spec fn range_of(category: GasCostCategory) -> (u64, u64) {
    match category {
        GasCostCategory::VeryLow => (1, 3),
        GasCostCategory::Low => (3, 8),
        GasCostCategory::Medium => (8, 100),
        GasCostCategory::High => (100, 2600),
        GasCostCategory::VeryHigh => (2600, u64::MAX),
        GasCostCategory::Unknown => (0, 0),
    }
}

impl GasCostCategory {
    /// Classify an opcode by its gas cost category.
    pub fn classify_opcode(opcode: u8) -> (category: Self)
        ensures
            category == category_of(opcode),
    {
        if (0x01 <= opcode && opcode <= 0x0b) || (0x10 <= opcode && opcode <= 0x1d) || opcode
            == 0x50 || opcode == 0x58 || (0x80 <= opcode && opcode <= 0x9f) {
            GasCostCategory::VeryLow
        } else if (0x51 <= opcode && opcode <= 0x53) || (0x56 <= opcode && opcode <= 0x57) || (
        0x5a <= opcode && opcode <= 0x5b) {
            GasCostCategory::Low
        } else if opcode == 0x20 || opcode == 0x30 || (0x32 <= opcode && opcode <= 0x3a) || (0x40
            <= opcode && opcode <= 0x48) {
            GasCostCategory::Medium
        } else if opcode == 0x54 || opcode == 0x31 || (0x3b <= opcode && opcode <= 0x3f) {
            GasCostCategory::High
        } else if opcode == 0x55 || opcode >= 0xf0 {
            GasCostCategory::VeryHigh
        } else {
            GasCostCategory::Unknown
        }
    }

    /// Get the typical gas range for this category.
    pub fn gas_range(&self) -> (range: (u64, u64))
        ensures
            range == range_of(*self),
    {
        match self {
            GasCostCategory::VeryLow => (1, 3),
            GasCostCategory::Low => (3, 8),
            GasCostCategory::Medium => (8, 100),
            GasCostCategory::High => (100, 2600),
            GasCostCategory::VeryHigh => (2600, u64::MAX),
            GasCostCategory::Unknown => (0, 0),
        }
    }
}

/// The score of an average price per opcode, from 100 for at most 10
/// gas down to 0 for more than 5000.
pub open spec fn score_of_average(average: int) -> u8 {
    if average <= 10 {
        100
    } else if average <= 50 {
        80
    } else if average <= 200 {
        60
    } else if average <= 1000 {
        40
    } else if average <= 5000 {
        20
    } else {
        0
    }
}

/// The part of a total that the opcodes account for: the total without
/// the base transaction cost, where it holds one.
pub open spec fn opcode_gas(total_gas: u64) -> int {
    if total_gas >= BASE_TRANSACTION_COST {
        total_gas - BASE_TRANSACTION_COST
    } else {
        total_gas as int
    }
}

/// The score of an average price per opcode.
pub fn score(average: u64) -> (s: u8)
    ensures
        s == score_of_average(average as int),
{
    if average <= 10 {
        100
    } else if average <= 50 {
        80
    } else if average <= 200 {
        60
    } else if average <= 1000 {
        40
    } else if average <= 5000 {
        20
    } else {
        0
    }
}

/// How many of `costs` are above `limit`.
pub open spec fn count_above(costs: Seq<u64>, limit: u64) -> nat
    decreases costs.len(),
{
    if costs.len() == 0 {
        0
    } else if costs.last() > limit {
        count_above(costs.drop_last(), limit) + 1
    } else {
        count_above(costs.drop_last(), limit)
    }
}

/// The prices of a breakdown, without their opcodes.
pub open spec fn costs_of(breakdown: Seq<(u8, u64)>) -> Seq<u64> {
    breakdown.map_values(|entry: (u8, u64)| entry.1)
}

/// The recommendation made when more than a quarter of the opcodes cost
/// more than 1000 gas.
pub open spec fn proportion_hint(costs: Seq<u64>) -> Seq<Seq<char>> {
    if count_above(costs, 1000) > costs.len() / 4 {
        seq![
            "High proportion of expensive operations - consider algorithmic optimizations"@,
        ]
    } else {
        Seq::empty()
    }
}

/// The recommendation made when `target` occurs more than five times.
pub open spec fn repetition_hint(opcodes: Seq<u8>, target: u8) -> Seq<Seq<char>> {
    if count_of(opcodes, target) > 5 {
        seq![
            "Opcode 0x"@ + hex2(target) + " used "@ + decimal(count_of(opcodes, target))
                + " times - consider batching or caching"@,
        ]
    } else {
        Seq::empty()
    }
}

/// The recommendations about opcodes that are worth batching: SLOAD,
/// SSTORE, CALL and DELEGATECALL, in the order of their bytes.
pub open spec fn repetition_hints(opcodes: Seq<u8>) -> Seq<Seq<char>> {
    repetition_hint(opcodes, 0x54) + repetition_hint(opcodes, 0x55) + repetition_hint(
        opcodes,
        0xf1,
    ) + repetition_hint(opcodes, 0xf4)
}

/// The recommendations for an analysis: the suggestions it holds, then
/// what the proportion of expensive opcodes and the repetitions call for.
pub open spec fn recommendations(
    optimizations: Seq<Seq<char>>,
    opcodes: Seq<u8>,
    costs: Seq<u64>,
) -> Seq<Seq<char>> {
    optimizations + proportion_hint(costs) + repetition_hints(opcodes)
}

/// How often `target` occurs among `opcodes`.
pub fn count_opcode(opcodes: &Vec<u8>, target: u8) -> (n: usize)
    ensures
        n == count_of(opcodes@, target),
        n <= opcodes@.len(),
{
    let mut n: usize = 0;
    let mut i: usize = 0;
    while i < opcodes.len()
        invariant
            i <= opcodes.len(),
            n == count_of(opcodes@.take(i as int), target),
            n <= i,
        decreases opcodes.len() - i,
    {
        proof {
            assert(opcodes@.take(i + 1).drop_last() =~= opcodes@.take(i as int));
        }
        if opcodes[i] == target {
            n += 1;
        }
        i += 1;
    }
    proof {
        assert(opcodes@.take(opcodes@.len() as int) =~= opcodes@);
    }
    n
}

fn push_repetition_hint(out: &mut Vec<String>, opcodes: &Vec<u8>, target: u8)
    ensures
        lines(final(out)@) == lines(old(out)@) + repetition_hint(opcodes@, target),
{
    let count = count_opcode(opcodes, target);
    if count > 5 {
        let mut hint = String::from_str("Opcode 0x");
        push_hex2(&mut hint, target);
        hint.append(" used ");
        push_decimal(&mut hint, count as u64);
        hint.append(" times - consider batching or caching");
        push_line(out, hint);
        proof {
            assert(lines(out@) =~= lines(old(out)@) + repetition_hint(opcodes@, target));
        }
    } else {
        proof {
            assert(lines(out@) =~= lines(old(out)@) + repetition_hint(opcodes@, target));
        }
    }
}

/// The recommendations for an analysis with the suggestions
/// `optimizations` and a breakdown of `opcodes` with their `costs`.
pub fn recommend(optimizations: &Vec<String>, opcodes: &Vec<u8>, costs: &Vec<u64>) -> (r: Vec<
    String,
>)
    ensures
        lines(r@) == recommendations(lines(optimizations@), opcodes@, costs@),
{
    let mut r = copy_lines(optimizations);
    let mut expensive: usize = 0;
    let mut i: usize = 0;
    while i < costs.len()
        invariant
            i <= costs.len(),
            expensive == count_above(costs@.take(i as int), 1000),
            expensive <= i,
        decreases costs.len() - i,
    {
        proof {
            assert(costs@.take(i + 1).drop_last() =~= costs@.take(i as int));
        }
        if costs[i] > 1000 {
            expensive += 1;
        }
        i += 1;
    }
    proof {
        assert(costs@.take(costs@.len() as int) =~= costs@);
    }
    if expensive > costs.len() / 4 {
        push_line(
            &mut r,
            String::from_str(
                "High proportion of expensive operations - consider algorithmic optimizations",
            ),
        );
    }
    proof {
        assert(lines(r@) =~= lines(optimizations@) + proportion_hint(costs@));
    }
    push_repetition_hint(&mut r, opcodes, 0x54);
    push_repetition_hint(&mut r, opcodes, 0x55);
    push_repetition_hint(&mut r, opcodes, 0xf1);
    push_repetition_hint(&mut r, opcodes, 0xf4);
    proof {
        assert(lines(r@) =~= recommendations(lines(optimizations@), opcodes@, costs@));
    }
    r
}

/// The `n` most expensive entries of a breakdown, the most expensive
/// first; entries of equal price stand in the order of the breakdown.
pub open spec fn top_by_cost(breakdown: Seq<(u8, u64)>, n: int) -> Seq<(u8, u64)> {
    let order = ranking(costs_of(breakdown), breakdown.len() as int);
    let kept = if n < breakdown.len() {
        n
    } else {
        breakdown.len() as int
    };
    Seq::new(kept as nat, |k: int| breakdown[order[k]])
}

/// Result of gas analysis for a sequence of opcodes.
#[derive(Debug, Clone)]
pub struct GasAnalysisResult {
    /// Total gas consumed including base transaction cost
    pub total_gas: u64,
    /// Gas breakdown by opcode
    pub breakdown: Vec<(u8, u64)>,
    /// Warnings about expensive operations
    pub warnings: Vec<String>,
    /// Final execution context after simulation
    pub context: ExecutionContext,
    /// Detected optimization opportunities
    pub optimizations: Vec<String>,
}

/// What a [`GasAnalysisResult`] holds, as plain mathematical values.
pub struct AnalysisView {
    pub total_gas: u64,
    pub breakdown: Seq<(u8, u64)>,
    pub warnings: Seq<Seq<char>>,
    pub context: ContextView,
    pub optimizations: Seq<Seq<char>>,
}

impl View for GasAnalysisResult {
    type V = AnalysisView;

    open spec fn view(&self) -> AnalysisView {
        AnalysisView {
            total_gas: self.total_gas,
            breakdown: self.breakdown@,
            warnings: lines(self.warnings@),
            context: self.context@,
            optimizations: lines(self.optimizations@),
        }
    }
}

/// The opcodes and the prices of a breakdown, as two lists.
pub fn split_breakdown(breakdown: &Vec<(u8, u64)>) -> (r: (Vec<u8>, Vec<u64>))
    ensures
        r.0@ == opcodes_of(breakdown@),
        r.1@ == costs_of(breakdown@),
{
    let mut opcodes: Vec<u8> = Vec::new();
    let mut costs: Vec<u64> = Vec::new();
    let mut i: usize = 0;
    while i < breakdown.len()
        invariant
            i <= breakdown.len(),
            opcodes@ == opcodes_of(breakdown@.take(i as int)),
            costs@ == costs_of(breakdown@.take(i as int)),
        decreases breakdown.len() - i,
    {
        opcodes.push(breakdown[i].0);
        costs.push(breakdown[i].1);
        proof {
            assert(opcodes@ =~= opcodes_of(breakdown@.take(i + 1)));
            assert(costs@ =~= costs_of(breakdown@.take(i + 1)));
        }
        i += 1;
    }
    proof {
        assert(breakdown@.take(breakdown@.len() as int) =~= breakdown@);
    }
    (opcodes, costs)
}

impl GasAnalysisResult {
    /// Check if gas usage is within acceptable bounds.
    pub fn is_within_bounds(&self, max_gas: u64) -> (r: bool)
        ensures
            r == (self@.total_gas <= max_gas),
    {
        self.total_gas <= max_gas
    }

    /// Get the most expensive operations: the `n` entries of the
    /// breakdown with the highest price, the highest first.
    pub fn top_expensive_operations(&self, n: usize) -> (top: Vec<(u8, u64)>)
        ensures
            top@ == top_by_cost(self@.breakdown, n as int),
    {
        let (_, costs) = split_breakdown(&self.breakdown);
        let order = rank_descending(&costs);
        let kept = if n < self.breakdown.len() {
            n
        } else {
            self.breakdown.len()
        };
        let mut top: Vec<(u8, u64)> = Vec::new();
        let mut k: usize = 0;
        while k < kept
            invariant
                k <= kept,
                kept <= self.breakdown@.len(),
                order@.len() == self.breakdown@.len(),
                costs@.len() == self.breakdown@.len(),
                forall|a: int| 0 <= a < order@.len() ==> #[trigger] order@[a] < costs@.len(),
                indices(order@) == ranking(costs_of(self.breakdown@), self.breakdown@.len() as int),
                top@.len() == k,
                forall|a: int|
                    0 <= a < k ==> top@[a] == self.breakdown@[#[trigger] indices(order@)[a]],
            decreases kept - k,
        {
            let index = order[k];
            assert(indices(order@)[k as int] == index);
            top.push(self.breakdown[index]);
            k += 1;
        }
        proof {
            assert(top@ =~= top_by_cost(self@.breakdown, n as int));
        }
        top
    }

    /// Calculate gas efficiency score (0-100, higher is better), from
    /// the average price per opcode. The base transaction cost is not
    /// part of the average; an analysis without opcodes scores 100.
    pub fn efficiency_score(&self) -> (s: u8)
        ensures
            s == score_of_average(
                if self@.breakdown.len() == 0 {
                    0
                } else {
                    opcode_gas(self@.total_gas) / (self@.breakdown.len() as int)
                },
            ),
    {
        if self.breakdown.len() == 0 {
            return score(0);
        }
        let spent = if self.total_gas >= BASE_TRANSACTION_COST {
            self.total_gas - BASE_TRANSACTION_COST
        } else {
            self.total_gas
        };
        score(spent / (self.breakdown.len() as u64))
    }

    /// Get recommendations for gas optimization.
    pub fn get_optimization_recommendations(&self) -> (r: Vec<String>)
        ensures
            lines(r@) == recommendations(
                self@.optimizations,
                opcodes_of(self@.breakdown),
                costs_of(self@.breakdown),
            ),
    {
        let (opcodes, costs) = split_breakdown(&self.breakdown);
        recommend(&self.optimizations, &opcodes, &costs)
    }

    /// Check if this represents an optimized gas usage pattern: a score
    /// above 70 and no warning.
    pub fn is_optimized(&self) -> (r: bool)
        ensures
            r == (score_of_average(
                if self@.breakdown.len() == 0 {
                    0
                } else {
                    opcode_gas(self@.total_gas) / (self@.breakdown.len() as int)
                },
            ) > 70 && self@.warnings.len() == 0),
    {
        self.efficiency_score() > 70 && self.warnings.len() == 0
    }
}

} // verus!
