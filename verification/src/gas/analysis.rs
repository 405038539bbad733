//! Gas analysis utilities and enhanced analysis structures.

use vstd::prelude::*;
use vstd::string::StringExecFns;
use crate::error::{error_text, GasError};
use crate::fork::Fork;
use crate::gas::calculator::{
    analysis_of,
    count_of,
    sequence_view,
    DynamicGasCalculator,
    BASE_TRANSACTION_COST,
};
use crate::gas::memory::{clamp_u64, saturate_u64};
use crate::gas::{
    category_of,
    count_opcode,
    opcode_gas,
    recommend,
    recommendations,
    score,
    score_of_average,
    GasCostCategory,
};
use crate::metadata::{effective_gas_cost, MetadataView};
use crate::ranking::{indices, rank_descending, ranking};
use crate::registry::{effective_opcodes, standard_tables, OpcodeRegistry};
use crate::text::{
    decimal,
    hex2,
    joined,
    lines,
    push_decimal,
    push_decimal_wide,
    push_hex2,
    push_line,
};

verus! {

/// Enhanced gas analysis structure: the outcome of an analysis with the
/// price of each opcode held in 16 bits.
#[derive(Debug, Clone)]
pub struct GasAnalysis {
    /// Total base gas cost
    pub total_gas: u64,
    /// Gas cost breakdown by opcode
    pub breakdown: Vec<(u8, u16)>,
    /// Potential optimizations
    pub optimizations: Vec<String>,
    /// Warnings about expensive operations
    pub warnings: Vec<String>,
}

/// What a [`GasAnalysis`] holds, as plain mathematical values.
pub struct UsageView {
    pub total_gas: u64,
    pub breakdown: Seq<(u8, u16)>,
    pub optimizations: Seq<Seq<char>>,
    pub warnings: Seq<Seq<char>>,
}

impl View for GasAnalysis {
    type V = UsageView;

    open spec fn view(&self) -> UsageView {
        UsageView {
            total_gas: self.total_gas,
            breakdown: self.breakdown@,
            optimizations: lines(self.optimizations@),
            warnings: lines(self.warnings@),
        }
    }
}

/// The opcodes of a breakdown with 16-bit prices.
pub open spec fn usage_opcodes(breakdown: Seq<(u8, u16)>) -> Seq<u8> {
    breakdown.map_values(|entry: (u8, u16)| entry.0)
}

/// The prices of a breakdown with 16-bit prices, as 64-bit values.
pub open spec fn usage_costs(breakdown: Seq<(u8, u16)>) -> Seq<u64> {
    breakdown.map_values(|entry: (u8, u16)| entry.1 as u64)
}

/// The score of an analysis: 0 without opcodes, else the score of the
/// average price per opcode, the base transaction cost left out.
pub open spec fn usage_score(total_gas: u64, entries: nat) -> u8 {
    if entries == 0 {
        0
    } else {
        score_of_average(opcode_gas(total_gas) / (entries as int))
    }
}

/// The sum of the prices of the entries of `breakdown` whose opcode is
/// of `category`.
pub open spec fn category_sum(breakdown: Seq<(u8, u16)>, category: GasCostCategory) -> int
    decreases breakdown.len(),
{
    if breakdown.len() == 0 {
        0
    } else if category_of(breakdown.last().0) == category {
        category_sum(breakdown.drop_last(), category) + breakdown.last().1
    } else {
        category_sum(breakdown.drop_last(), category)
    }
}

/// Some entry of `breakdown` has an opcode of `category`.
pub open spec fn category_present(breakdown: Seq<(u8, u16)>, category: GasCostCategory) -> bool {
    exists|i: int| 0 <= i < breakdown.len() && category_of((#[trigger] breakdown[i]).0) == category
}

/// What the categories of a breakdown add up to: for each category that
/// occurs the sum of its prices, which stops at the largest 64-bit value.
pub open spec fn category_totals(breakdown: Seq<(u8, u16)>) -> Map<GasCostCategory, u64> {
    Map::new(
        |category: GasCostCategory| category_present(breakdown, category),
        |category: GasCostCategory| clamp_u64(category_sum(breakdown, category)),
    )
}

/// Gas usage by category: for each category that occurs in a breakdown,
/// the sum of the prices of its opcodes.
#[derive(Debug, Clone)]
pub struct CategoryGas {
    very_low: Option<u64>,
    low: Option<u64>,
    medium: Option<u64>,
    high: Option<u64>,
    very_high: Option<u64>,
    unknown: Option<u64>,
}

impl CategoryGas {
    /// The sum held for `category`, if the category occurs.
    pub closed spec fn slot(&self, category: GasCostCategory) -> Option<u64> {
        match category {
            GasCostCategory::VeryLow => self.very_low,
            GasCostCategory::Low => self.low,
            GasCostCategory::Medium => self.medium,
            GasCostCategory::High => self.high,
            GasCostCategory::VeryHigh => self.very_high,
            GasCostCategory::Unknown => self.unknown,
        }
    }

    /// No category occurs.
    fn empty() -> (r: Self)
        ensures
            forall|category: GasCostCategory| r.slot(category) is None,
    {
        CategoryGas {
            very_low: None,
            low: None,
            medium: None,
            high: None,
            very_high: None,
            unknown: None,
        }
    }

    /// Adds `cost` to the sum of `category`; the sum stops at the
    /// largest 64-bit value.
    fn add(&mut self, category: GasCostCategory, cost: u64)
        ensures
            final(self).slot(category) == Some(
                match old(self).slot(category) {
                    Some(sum) => clamp_u64(sum + cost),
                    None => cost,
                },
            ),
            forall|other: GasCostCategory|
                other != category ==> final(self).slot(other) == old(self).slot(other),
    {
        let sum = match self.get(&category) {
            Some(sum) => sum.saturating_add(cost),
            None => cost,
        };
        match category {
            GasCostCategory::VeryLow => {
                self.very_low = Some(sum);
            },
            GasCostCategory::Low => {
                self.low = Some(sum);
            },
            GasCostCategory::Medium => {
                self.medium = Some(sum);
            },
            GasCostCategory::High => {
                self.high = Some(sum);
            },
            GasCostCategory::VeryHigh => {
                self.very_high = Some(sum);
            },
            GasCostCategory::Unknown => {
                self.unknown = Some(sum);
            },
        }
    }

    /// The sum of the prices of `category`; `None` where no opcode of
    /// the category occurs.
    pub fn get(&self, category: &GasCostCategory) -> (r: Option<&u64>)
        ensures
            match r {
                Some(sum) => self.slot(*category) == Some(*sum),
                None => self.slot(*category) is None,
            },
    {
        match category {
            GasCostCategory::VeryLow => self.very_low.as_ref(),
            GasCostCategory::Low => self.low.as_ref(),
            GasCostCategory::Medium => self.medium.as_ref(),
            GasCostCategory::High => self.high.as_ref(),
            GasCostCategory::VeryHigh => self.very_high.as_ref(),
            GasCostCategory::Unknown => self.unknown.as_ref(),
        }
    }

    /// Whether an opcode of `category` occurs.
    pub fn contains_key(&self, category: &GasCostCategory) -> (r: bool)
        ensures
            r == self.slot(*category) is Some,
    {
        self.get(category).is_some()
    }
}

/// What is said of an entry of a breakdown that could exhaust the gas:
/// an SSTORE above 5000, a call above 10000 or a creation above 50000.
pub open spec fn bomb_of(opcode: u8, cost: u16) -> Option<Seq<char>> {
    if opcode == 0x55 && cost > 5000 {
        Some("SSTORE operation with high gas cost - could cause out-of-gas"@)
    } else if (opcode == 0xf1 || opcode == 0xf2 || opcode == 0xf4 || opcode == 0xfa) && cost
        > 10000 {
        Some("Call operation with high gas cost - ensure sufficient gas limit"@)
    } else if (opcode == 0xf0 || opcode == 0xf5) && cost > 50000 {
        Some("Create operation with very high gas cost - check init code size"@)
    } else {
        None
    }
}

/// What is said of the entries of a breakdown that could exhaust the
/// gas, in the order of the breakdown.
pub open spec fn gas_bombs(breakdown: Seq<(u8, u16)>) -> Seq<Seq<char>>
    decreases breakdown.len(),
{
    if breakdown.len() == 0 {
        Seq::empty()
    } else {
        match bomb_of(breakdown.last().0, breakdown.last().1) {
            Some(text) => gas_bombs(breakdown.drop_last()).push(text),
            None => gas_bombs(breakdown.drop_last()),
        }
    }
}

/// The sum of the prices of the POPs that directly follow a DUP.
pub open spec fn dup_pop_savings(breakdown: Seq<(u8, u16)>) -> int
    decreases breakdown.len(),
{
    if breakdown.len() < 2 {
        0
    } else if breakdown.last().0 == 0x50 && 0x80 <= breakdown[breakdown.len() - 2].0 <= 0x8f {
        dup_pop_savings(breakdown.drop_last()) + breakdown.last().1
    } else {
        dup_pop_savings(breakdown.drop_last())
    }
}

/// What caching could save on `sloads` SLOADs: where there are more
/// than two, half of the repeated ones at the price of a cold read.
pub open spec fn sload_savings(sloads: nat) -> int {
    if sloads > 2 {
        ((sloads - 1) / 2) * 2100
    } else {
        0
    }
}

/// What the proposed optimizations could save on a breakdown.
pub open spec fn optimization_savings(breakdown: Seq<(u8, u16)>) -> int {
    dup_pop_savings(breakdown) + sload_savings(count_of(usage_opcodes(breakdown), 0x54))
}

/// The opcodes and the prices of a breakdown, as two lists.
pub fn split_usage(breakdown: &Vec<(u8, u16)>) -> (r: (Vec<u8>, Vec<u64>))
    ensures
        r.0@ == usage_opcodes(breakdown@),
        r.1@ == usage_costs(breakdown@),
{
    let mut opcodes: Vec<u8> = Vec::new();
    let mut costs: Vec<u64> = Vec::new();
    let mut i: usize = 0;
    while i < breakdown.len()
        invariant
            i <= breakdown.len(),
            opcodes@ == usage_opcodes(breakdown@.take(i as int)),
            costs@ == usage_costs(breakdown@.take(i as int)),
        decreases breakdown.len() - i,
    {
        opcodes.push(breakdown[i].0);
        costs.push(breakdown[i].1 as u64);
        proof {
            assert(opcodes@ =~= usage_opcodes(breakdown@.take(i + 1)));
            assert(costs@ =~= usage_costs(breakdown@.take(i + 1)));
        }
        i += 1;
    }
    proof {
        assert(breakdown@.take(breakdown@.len() as int) =~= breakdown@);
    }
    (opcodes, costs)
}

impl GasAnalysis {
    /// Create a new gas analysis: the base transaction cost and nothing else.
    pub fn new() -> (r: Self)
        ensures
            r@ == (UsageView {
                total_gas: BASE_TRANSACTION_COST,
                breakdown: Seq::empty(),
                optimizations: Seq::empty(),
                warnings: Seq::empty(),
            }),
    {
        let r = GasAnalysis {
            total_gas: BASE_TRANSACTION_COST,
            breakdown: Vec::new(),
            optimizations: Vec::new(),
            warnings: Vec::new(),
        };
        proof {
            assert(r@.breakdown =~= Seq::empty());
            assert(r@.optimizations =~= Seq::empty());
            assert(r@.warnings =~= Seq::empty());
        }
        r
    }

    /// Calculate gas efficiency score (0-100, higher is better).
    pub fn efficiency_score(&self) -> (s: u8)
        ensures
            s == usage_score(self@.total_gas, self@.breakdown.len()),
    {
        if self.breakdown.len() == 0 {
            return 0;
        }
        let spent = if self.total_gas >= BASE_TRANSACTION_COST {
            self.total_gas - BASE_TRANSACTION_COST
        } else {
            self.total_gas
        };
        score(spent / (self.breakdown.len() as u64))
    }

    /// Get recommendations for gas optimization.
    pub fn get_optimization_recommendations(&self) -> (r: Vec<String>)
        ensures
            lines(r@) == recommendations(
                self@.optimizations,
                usage_opcodes(self@.breakdown),
                usage_costs(self@.breakdown),
            ),
    {
        let (opcodes, costs) = split_usage(&self.breakdown);
        recommend(&self.optimizations, &opcodes, &costs)
    }

    /// Check if this represents an optimized gas usage pattern: a score
    /// above 70 and no warning.
    pub fn is_optimized(&self) -> (r: bool)
        ensures
            r == (usage_score(self@.total_gas, self@.breakdown.len()) > 70 && self@.warnings.len()
                == 0),
    {
        self.efficiency_score() > 70 && self.warnings.len() == 0
    }

    /// Get gas usage by category.
    pub fn gas_by_category(&self) -> (totals: CategoryGas)
        ensures
            forall|category: GasCostCategory|
                category_present(self@.breakdown, category) ==> #[trigger] totals.slot(category)
                    == Some(clamp_u64(category_sum(self@.breakdown, category))),
            forall|category: GasCostCategory|
                !category_present(self@.breakdown, category) ==> #[trigger] totals.slot(category)
                    is None,
    {
        let mut totals = CategoryGas::empty();
        let mut i: usize = 0;
        while i < self.breakdown.len()
            invariant
                i <= self.breakdown.len(),
                forall|category: GasCostCategory|
                    category_present(self.breakdown@.take(i as int), category)
                        ==> #[trigger] totals.slot(category) == Some(
                        clamp_u64(category_sum(self.breakdown@.take(i as int), category)),
                    ),
                forall|category: GasCostCategory|
                    !category_present(self.breakdown@.take(i as int), category)
                        ==> #[trigger] totals.slot(category) is None,
            decreases self.breakdown.len() - i,
        {
            let entry = self.breakdown[i];
            let category = GasCostCategory::classify_opcode(entry.0);
            let ghost before = self.breakdown@.take(i as int);
            let ghost after = self.breakdown@.take(i + 1);
            let ghost old_totals = totals;
            totals.add(category, entry.1 as u64);
            proof {
                assert(after.drop_last() =~= before);
                assert(after.last() == entry);
                assert forall|c: GasCostCategory| category_present(after, c) <==> (
                category_present(before, c) || c == category) by {
                    if category_present(after, c) {
                        let k = choose|k: int|
                            0 <= k < after.len() && category_of((#[trigger] after[k]).0) == c;
                        if k < i {
                            assert(category_of(before[k].0) == c);
                        }
                    }
                    if category_present(before, c) {
                        let k = choose|k: int|
                            0 <= k < before.len() && category_of((#[trigger] before[k]).0) == c;
                        assert(category_of(after[k].0) == c);
                    }
                    if c == category {
                        assert(category_of(after[i as int].0) == c);
                    }
                }
                lemma_category_sum_bounds(before, category);
                assert forall|c: GasCostCategory| category_present(after, c) implies #[trigger]
                    totals.slot(c) == Some(clamp_u64(category_sum(after, c))) by {
                    if c == category {
                        if !category_present(before, c) {
                            lemma_category_sum_absent(before, c);
                        }
                    }
                }
            }
            i += 1;
        }
        proof {
            assert(self.breakdown@.take(self.breakdown@.len() as int) =~= self.breakdown@);
        }
        totals
    }

    /// Find potential gas bombs (operations that could cause out-of-gas).
    pub fn find_gas_bombs(&self) -> (bombs: Vec<String>)
        ensures
            lines(bombs@) == gas_bombs(self@.breakdown),
    {
        let mut bombs: Vec<String> = Vec::new();
        let mut i: usize = 0;
        proof {
            assert(lines(bombs@) =~= gas_bombs(self.breakdown@.take(0)));
        }
        while i < self.breakdown.len()
            invariant
                i <= self.breakdown.len(),
                lines(bombs@) == gas_bombs(self.breakdown@.take(i as int)),
            decreases self.breakdown.len() - i,
        {
            let opcode = self.breakdown[i].0;
            let cost = self.breakdown[i].1;
            proof {
                assert(self.breakdown@.take(i + 1).drop_last() =~= self.breakdown@.take(i as int));
            }
            if opcode == 0x55 && cost > 5000 {
                push_line(
                    &mut bombs,
                    String::from_str("SSTORE operation with high gas cost - could cause out-of-gas"),
                );
            } else if (opcode == 0xf1 || opcode == 0xf2 || opcode == 0xf4 || opcode == 0xfa)
                && cost > 10000 {
                push_line(
                    &mut bombs,
                    String::from_str(
                        "Call operation with high gas cost - ensure sufficient gas limit",
                    ),
                );
            } else if (opcode == 0xf0 || opcode == 0xf5) && cost > 50000 {
                push_line(
                    &mut bombs,
                    String::from_str(
                        "Create operation with very high gas cost - check init code size",
                    ),
                );
            }
            i += 1;
        }
        proof {
            assert(self.breakdown@.take(self.breakdown@.len() as int) =~= self.breakdown@);
        }
        bombs
    }

    /// Estimate gas savings from proposed optimizations: the POPs that
    /// undo a DUP, and SLOADs that caching could spare. A sum that does
    /// not fit in 64 bits comes out as the largest 64-bit value.
    pub fn estimate_optimization_savings(&self) -> (savings: u64)
        ensures
            savings == clamp_u64(optimization_savings(self@.breakdown)),
    {
        let mut pops: u64 = 0;
        let mut sload_count: usize = 0;
        let mut i: usize = 0;
        let ghost opcodes = usage_opcodes(self.breakdown@);
        while i < self.breakdown.len()
            invariant
                i <= self.breakdown.len(),
                opcodes == usage_opcodes(self.breakdown@),
                pops == clamp_u64(dup_pop_savings(self.breakdown@.take(i as int))),
                0 <= dup_pop_savings(self.breakdown@.take(i as int)),
                sload_count == count_of(opcodes.take(i as int), 0x54),
                sload_count <= i,
            decreases self.breakdown.len() - i,
        {
            let opcode = self.breakdown[i].0;
            proof {
                assert(self.breakdown@.take(i + 1).drop_last() =~= self.breakdown@.take(i as int));
                assert(opcodes.take(i + 1).drop_last() =~= opcodes.take(i as int));
            }
            if opcode == 0x54 {
                sload_count += 1;
            } else if opcode == 0x50 && i > 0 {
                let previous = self.breakdown[i - 1].0;
                if 0x80 <= previous && previous <= 0x8f {
                    pops = pops.saturating_add(self.breakdown[i].1 as u64);
                }
            }
            i += 1;
        }
        proof {
            assert(self.breakdown@.take(self.breakdown@.len() as int) =~= self.breakdown@);
            assert(opcodes.take(self.breakdown@.len() as int) =~= opcodes);
        }
        let mut total: u128 = pops as u128;
        if sload_count > 2 {
            let redundant: u128 = ((sload_count - 1) / 2) as u128;
            assert(redundant * 2100 <= 0xffff_ffff_ffff_ffff * 2100) by (nonlinear_arith)
                requires
                    redundant <= 0xffff_ffff_ffff_ffff,
            ;
            total = total + redundant * 2100;
        }
        saturate_u64(total)
    }
}

/// A sum over a category is never negative.
pub proof fn lemma_category_sum_bounds(breakdown: Seq<(u8, u16)>, category: GasCostCategory)
    ensures
        category_sum(breakdown, category) >= 0,
    decreases breakdown.len(),
{
    if breakdown.len() > 0 {
        lemma_category_sum_bounds(breakdown.drop_last(), category);
    }
}

/// The sum over a category that does not occur is 0.
pub proof fn lemma_category_sum_absent(breakdown: Seq<(u8, u16)>, category: GasCostCategory)
    requires
        !category_present(breakdown, category),
    ensures
        category_sum(breakdown, category) == 0,
    decreases breakdown.len(),
{
    if breakdown.len() > 0 {
        let front = breakdown.drop_last();
        assert(category_of(breakdown[breakdown.len() - 1].0) != category);
        assert forall|i: int| 0 <= i < front.len() implies category_of((#[trigger] front[i]).0)
            != category by {
            assert(front[i] == breakdown[i]);
        }
        lemma_category_sum_absent(front, category);
    }
}

impl Default for GasAnalysis {
    fn default() -> (r: Self)
        ensures
            r@ == (UsageView {
                total_gas: BASE_TRANSACTION_COST,
                breakdown: Seq::empty(),
                optimizations: Seq::empty(),
                warnings: Seq::empty(),
            }),
    {
        GasAnalysis::new()
    }
}

/// The operands that an opcode is analysed with where only its byte is
/// known: a heuristic that names slot 0, the account 0x123, offset 0x40
/// and small sizes.
pub open spec fn estimated_operands(opcode: u8) -> Seq<u64> {
    match opcode {
        0x54 | 0x5c => seq![0u64],
        0x55 | 0x5d => seq![0u64, 1u64],
        0x51 | 0x52 | 0x53 => seq![0x40u64],
        0x5e => seq![0x40u64, 0x80u64, 0x20u64],
        0xf1 | 0xf2 | 0xf4 | 0xfa => seq![100000u64, 0x123u64, 0u64, 0u64, 0u64, 0u64, 0u64],
        0x31 | 0x3b | 0x3c | 0x3f => seq![0x123u64],
        0x37 | 0x39 | 0x3e => seq![0x40u64, 0u64, 0x20u64],
        0xf0 | 0xf5 => seq![0u64, 0x40u64, 0x100u64],
        0x20 | 0xa0 | 0xa1 | 0xa2 | 0xa3 | 0xa4 => seq![0x40u64, 0x20u64],
        _ => Seq::empty(),
    }
}

/// A sequence of bare opcodes, each with its estimated operands.
pub open spec fn estimated_sequence(opcodes: Seq<u8>) -> Seq<(u8, Seq<u64>)> {
    opcodes.map_values(|opcode: u8| (opcode, estimated_operands(opcode)))
}

/// A price held in 16 bits: the largest 16-bit value stands for any
/// price above it.
pub open spec fn capped(cost: u64) -> u16 {
    if cost > u16::MAX {
        u16::MAX
    } else {
        cost as u16
    }
}

/// A breakdown with its prices held in 16 bits.
pub open spec fn capped_breakdown(breakdown: Seq<(u8, u64)>) -> Seq<(u8, u16)> {
    breakdown.map_values(|entry: (u8, u64)| (entry.0, capped(entry.1)))
}

/// The breakdown that is fallen back on when the analysis fails: each
/// opcode that the table has, with its base cost as the table records it.
pub open spec fn fallback_breakdown(table: Map<u8, MetadataView>, opcodes: Seq<u8>) -> Seq<
    (u8, u16),
>
    decreases opcodes.len(),
{
    if opcodes.len() == 0 {
        Seq::empty()
    } else if table.contains_key(opcodes.last()) {
        fallback_breakdown(table, opcodes.drop_last()).push(
            (opcodes.last(), table[opcodes.last()].gas_cost),
        )
    } else {
        fallback_breakdown(table, opcodes.drop_last())
    }
}

/// The sum of the prices of a breakdown.
pub open spec fn usage_sum(breakdown: Seq<(u8, u16)>) -> int
    decreases breakdown.len(),
{
    if breakdown.len() == 0 {
        0
    } else {
        usage_sum(breakdown.drop_last()) + breakdown.last().1
    }
}

/// The warning that an analysis carries when it had to fall back.
pub open spec fn failure_warning(e: GasError) -> Seq<char> {
    "Gas analysis failed: "@ + error_text(e)
}

/// The analysis of a sequence of bare opcodes at `fork`, over the
/// standard registry. Where the sequence can be priced with the
/// estimated operands, it is the outcome of the sequence analysis with
/// the prices held in 16 bits. Where it cannot, it is the base
/// transaction cost plus the base costs of the known opcodes, with a
/// warning that names the error.
pub open spec fn usage_analysis(fork: Fork, opcodes: Seq<u8>) -> UsageView {
    match analysis_of(standard_tables(), fork, estimated_sequence(opcodes)) {
        Ok(analysis) => UsageView {
            total_gas: analysis.total_gas,
            breakdown: capped_breakdown(analysis.breakdown),
            optimizations: analysis.optimizations,
            warnings: analysis.warnings,
        },
        Err(e) => UsageView {
            total_gas: clamp_u64(
                BASE_TRANSACTION_COST + usage_sum(
                    fallback_breakdown(effective_opcodes(standard_tables(), fork), opcodes),
                ),
            ),
            breakdown: fallback_breakdown(effective_opcodes(standard_tables(), fork), opcodes),
            optimizations: Seq::empty(),
            warnings: seq![failure_warning(e)],
        },
    }
}

/// The block gas limit that a sequence is held against.
pub const BLOCK_GAS_LIMIT: u64 = 30_000_000;

/// What is wrong with two opcodes next to each other: two JUMPs, an
/// SSTORE after a JUMPI, or a POP after a DUP.
pub open spec fn pair_verdict(first: u8, second: u8) -> Option<Seq<char>> {
    if first == 0x56 && second == 0x56 {
        Some("Consecutive JUMP instructions detected"@)
    } else if first == 0x57 && second == 0x55 {
        Some("SSTORE after JUMPI may create expensive loop"@)
    } else if 0x80 <= first <= 0x8f && second == 0x50 {
        Some("DUP followed by POP detected - inefficient pattern"@)
    } else {
        None
    }
}

/// What is wrong with the first pair of neighbours that has a fault,
/// looking from the position `from` on.
pub open spec fn first_pair_verdict(opcodes: Seq<u8>, from: int) -> Option<Seq<char>>
    decreases opcodes.len() - from,
{
    if from < 0 || from + 1 >= opcodes.len() {
        None
    } else {
        match pair_verdict(opcodes[from], opcodes[from + 1]) {
            Some(text) => Some(text),
            None => first_pair_verdict(opcodes, from + 1),
        }
    }
}

/// What is said of a sequence that takes more gas than a block holds.
pub open spec fn over_limit_text(total_gas: u64) -> Seq<char> {
    "Opcode sequence consumes "@ + decimal(total_gas as nat) + " gas, exceeding block limit of "@
        + decimal(BLOCK_GAS_LIMIT as nat)
}

/// The verdict on a sequence of bare opcodes at `fork`: the first of
/// these that applies is the error, and without any the sequence is
/// accepted. Its analysis takes more gas than a block holds; two
/// neighbours form a faulty pair; the analysis holds gas bombs.
pub open spec fn sequence_verdict(fork: Fork, opcodes: Seq<u8>) -> Result<(), Seq<char>> {
    let analysis = usage_analysis(fork, opcodes);
    if analysis.total_gas > BLOCK_GAS_LIMIT {
        Err(over_limit_text(analysis.total_gas))
    } else if first_pair_verdict(opcodes, 0) is Some {
        Err(first_pair_verdict(opcodes, 0)->0)
    } else if gas_bombs(analysis.breakdown).len() > 0 {
        Err("Potential gas bombs detected: "@ + joined(gas_bombs(analysis.breakdown), "; "@))
    } else {
        Ok(())
    }
}

/// Gas analysis of sequences of bare opcodes.
pub struct GasAnalyzer;

impl GasAnalyzer {
    /// Estimate operands for an opcode (simplified heuristic).
    pub fn estimate_operands(opcode: u8) -> (operands: Vec<u64>)
        ensures
            operands@ == estimated_operands(opcode),
    {
        let operands: Vec<u64> = match opcode {
            0x54 | 0x5c => vec![0u64],
            0x55 | 0x5d => vec![0u64, 1u64],
            0x51 | 0x52 | 0x53 => vec![0x40u64],
            0x5e => vec![0x40u64, 0x80u64, 0x20u64],
            0xf1 | 0xf2 | 0xf4 | 0xfa => vec![100000u64, 0x123u64, 0u64, 0u64, 0u64, 0u64, 0u64],
            0x31 | 0x3b | 0x3c | 0x3f => vec![0x123u64],
            0x37 | 0x39 | 0x3e => vec![0x40u64, 0u64, 0x20u64],
            0xf0 | 0xf5 => vec![0u64, 0x40u64, 0x100u64],
            0x20 | 0xa0 | 0xa1 | 0xa2 | 0xa3 | 0xa4 => vec![0x40u64, 0x20u64],
            _ => Vec::new(),
        };
        proof {
            assert(operands@ =~= estimated_operands(opcode));
        }
        operands
    }

    /// Analyze gas usage for a sequence of opcodes.
    pub fn analyze_gas_usage(opcodes: &[u8], fork: Fork) -> (r: GasAnalysis)
        ensures
            r@ == usage_analysis(fork, opcodes@),
    {
        let calculator = DynamicGasCalculator::new(fork);
        let mut sequence: Vec<(u8, Vec<u64>)> = Vec::new();
        let mut i: usize = 0;
        while i < opcodes.len()
            invariant
                i <= opcodes.len(),
                sequence@.len() == i,
                sequence_view(sequence@) == estimated_sequence(opcodes@.take(i as int)),
            decreases opcodes.len() - i,
        {
            let operands = GasAnalyzer::estimate_operands(opcodes[i]);
            let ghost before = sequence@;
            sequence.push((opcodes[i], operands));
            proof {
                let now = sequence_view(sequence@);
                let goal = estimated_sequence(opcodes@.take(i + 1));
                assert(now.len() == goal.len());
                assert forall|k: int| 0 <= k < now.len() implies now[k] == goal[k] by {
                    if k < i {
                        assert(now[k] == sequence_view(before)[k]);
                        assert(goal[k] == estimated_sequence(opcodes@.take(i as int))[k]);
                    }
                }
                assert(now =~= goal);
            }
            i += 1;
        }
        proof {
            assert(opcodes@.take(opcodes@.len() as int) =~= opcodes@);
        }
        match calculator.analyze_sequence_gas(sequence.as_slice()) {
            Ok(result) => {
                let mut breakdown: Vec<(u8, u16)> = Vec::new();
                let mut k: usize = 0;
                while k < result.breakdown.len()
                    invariant
                        k <= result.breakdown.len(),
                        breakdown@ == capped_breakdown(result.breakdown@.take(k as int)),
                    decreases result.breakdown.len() - k,
                {
                    let entry = result.breakdown[k];
                    let cost: u16 = if entry.1 > u16::MAX as u64 {
                        u16::MAX
                    } else {
                        entry.1 as u16
                    };
                    breakdown.push((entry.0, cost));
                    proof {
                        assert(breakdown@ =~= capped_breakdown(result.breakdown@.take(k + 1)));
                    }
                    k += 1;
                }
                proof {
                    assert(result.breakdown@.take(result.breakdown@.len() as int)
                        =~= result.breakdown@);
                }
                GasAnalysis {
                    total_gas: result.total_gas,
                    breakdown,
                    optimizations: result.optimizations,
                    warnings: result.warnings,
                }
            },
            Err(e) => {
                let mut analysis = GasAnalysis::new();
                let mut warning = String::from_str("Gas analysis failed: ");
                let message = e.message();
                warning.append(message.as_str());
                push_line(&mut analysis.warnings, warning);
                let registry = OpcodeRegistry::new();
                let table = registry.get_opcodes(fork);
                let ghost effective = effective_opcodes(standard_tables(), fork);
                let mut k: usize = 0;
                proof {
                    assert(analysis.warnings@.len() == 1);
                    assert(lines(analysis.warnings@) =~= seq![failure_warning(e)]);
                    assert(opcodes@.take(0) =~= Seq::<u8>::empty());
                }
                while k < opcodes.len()
                    invariant
                        k <= opcodes.len(),
                        crate::registry::metadata_map_view(table@) == effective,
                        analysis.breakdown@ == fallback_breakdown(effective, opcodes@.take(k as int)),
                        analysis.total_gas == clamp_u64(
                            BASE_TRANSACTION_COST + usage_sum(analysis.breakdown@),
                        ),
                        usage_sum(analysis.breakdown@) >= 0,
                        lines(analysis.warnings@) == seq![failure_warning(e)],
                        lines(analysis.optimizations@) == Seq::<Seq<char>>::empty(),
                    decreases opcodes.len() - k,
                {
                    let opcode = opcodes[k];
                    proof {
                        assert(opcodes@.take(k + 1).drop_last() =~= opcodes@.take(k as int));
                        assert(effective.contains_key(opcode) <==> table@.contains_key(opcode));
                    }
                    match table.get(&opcode) {
                        Some(metadata) => {
                            let gas_cost = metadata.gas_cost;
                            proof {
                                assert(effective[opcode] == table@[opcode]@);
                                assert(analysis.breakdown@.push((opcode, gas_cost)).drop_last()
                                    =~= analysis.breakdown@);
                            }
                            analysis.total_gas = analysis.total_gas.saturating_add(gas_cost as u64);
                            analysis.breakdown.push((opcode, gas_cost));
                        },
                        None => {},
                    }
                    k += 1;
                }
                proof {
                    assert(opcodes@.take(opcodes@.len() as int) =~= opcodes@);
                }
                analysis
            },
        }
    }

    /// Validate opcode sequence for gas efficiency.
    pub fn validate_opcode_sequence(opcodes: &[u8], fork: Fork) -> (r: Result<(), String>)
        ensures
            match sequence_verdict(fork, opcodes@) {
                Ok(_) => r is Ok,
                Err(text) => r is Err && r->Err_0@ == text,
            },
    {
        let analysis = GasAnalyzer::analyze_gas_usage(opcodes, fork);
        if analysis.total_gas > BLOCK_GAS_LIMIT {
            let mut text = String::from_str("Opcode sequence consumes ");
            push_decimal(&mut text, analysis.total_gas);
            text.append(" gas, exceeding block limit of ");
            push_decimal(&mut text, BLOCK_GAS_LIMIT);
            return Err(text);
        }
        let mut i: usize = 0;
        while opcodes.len() >= 2 && i < opcodes.len() - 1
            invariant
                i <= opcodes.len(),
                analysis@ == usage_analysis(fork, opcodes@),
                analysis.total_gas <= BLOCK_GAS_LIMIT,
                first_pair_verdict(opcodes@, 0) == first_pair_verdict(opcodes@, i as int),
            decreases opcodes.len() - i,
        {
            let first = opcodes[i];
            let second = opcodes[i + 1];
            if first == 0x56 && second == 0x56 {
                return Err(String::from_str("Consecutive JUMP instructions detected"));
            } else if first == 0x57 && second == 0x55 {
                return Err(String::from_str("SSTORE after JUMPI may create expensive loop"));
            } else if 0x80 <= first && first <= 0x8f && second == 0x50 {
                return Err(
                    String::from_str("DUP followed by POP detected - inefficient pattern"),
                );
            }
            i += 1;
        }
        let gas_bombs = analysis.find_gas_bombs();
        if gas_bombs.len() > 0 {
            let mut text = String::from_str("Potential gas bombs detected: ");
            let list = crate::text::join_lines(&gas_bombs, "; ");
            text.append(list.as_str());
            return Err(text);
        }
        Ok(())
    }
}

/// Types of changes that can occur to opcodes between forks.
#[derive(Debug, Clone, Copy, PartialEq, Eq, Structural)]
pub enum ChangeType {
    /// Opcode was added
    Added,
    /// Opcode was removed (rare)
    Removed,
    /// Gas cost changed
    GasCostChanged,
    /// Stack behavior changed
    StackBehaviorChanged,
    /// Description/semantics updated
    SemanticsChanged,
}

/// Represents a change in an opcode between forks.
#[derive(Debug, Clone, Copy, PartialEq, Eq, Structural)]
pub struct OpcodeChange {
    /// The opcode that changed
    pub opcode: u8,
    /// Type of change
    pub change_type: ChangeType,
    /// Previous value (if applicable)
    pub old_value: Option<u16>,
    /// New value (if applicable)
    pub new_value: Option<u16>,
}

/// Summary statistics for gas changes between forks. The counters stop
/// at the largest value they can hold.
#[derive(Debug, Clone, Copy, PartialEq, Eq, Structural)]
pub struct GasChangeSummary {
    /// Number of opcodes added
    pub opcodes_added: u32,
    /// Number of opcodes removed
    pub opcodes_removed: u32,
    /// Number of gas cost changes
    pub gas_cost_changes: u32,
    /// Number of gas increases
    pub gas_increases: u32,
    /// Number of gas decreases
    pub gas_decreases: u32,
    /// Total gas increase across all opcodes
    pub total_gas_increase: u16,
    /// Total gas decrease across all opcodes
    pub total_gas_decrease: u16,
    /// Number of stack behavior changes
    pub stack_behavior_changes: u32,
    /// Number of semantic changes
    pub semantic_changes: u32,
}

/// The summary of no changes.
pub open spec fn empty_summary() -> GasChangeSummary {
    GasChangeSummary {
        opcodes_added: 0,
        opcodes_removed: 0,
        gas_cost_changes: 0,
        gas_increases: 0,
        gas_decreases: 0,
        total_gas_increase: 0,
        total_gas_decrease: 0,
        stack_behavior_changes: 0,
        semantic_changes: 0,
    }
}

impl Default for GasChangeSummary {
    fn default() -> (r: Self)
        ensures
            r == empty_summary(),
    {
        GasChangeSummary {
            opcodes_added: 0,
            opcodes_removed: 0,
            gas_cost_changes: 0,
            gas_increases: 0,
            gas_decreases: 0,
            total_gas_increase: 0,
            total_gas_decrease: 0,
            stack_behavior_changes: 0,
            semantic_changes: 0,
        }
    }
}

/// A counter one higher, unless it is at its largest value.
pub open spec fn bump(n: u32) -> u32 {
    if n < u32::MAX {
        (n + 1) as u32
    } else {
        n
    }
}

/// A 16-bit total raised by `by`, which stops at the largest 16-bit value.
pub open spec fn raised(total: u16, by: int) -> u16 {
    if total + by > u16::MAX {
        u16::MAX
    } else {
        (total + by) as u16
    }
}

/// The summary `s` with the change `c` counted in. A change of gas cost
/// whose new value is above the old one is an increase, any other one
/// with both values a decrease.
pub open spec fn summary_with(s: GasChangeSummary, c: OpcodeChange) -> GasChangeSummary {
    match c.change_type {
        ChangeType::Added => GasChangeSummary { opcodes_added: bump(s.opcodes_added), ..s },
        ChangeType::Removed => GasChangeSummary { opcodes_removed: bump(s.opcodes_removed), ..s },
        ChangeType::GasCostChanged => if c.old_value is Some && c.new_value is Some {
            if c.new_value->0 > c.old_value->0 {
                GasChangeSummary {
                    gas_cost_changes: bump(s.gas_cost_changes),
                    gas_increases: bump(s.gas_increases),
                    total_gas_increase: raised(
                        s.total_gas_increase,
                        c.new_value->0 - c.old_value->0,
                    ),
                    ..s
                }
            } else {
                GasChangeSummary {
                    gas_cost_changes: bump(s.gas_cost_changes),
                    gas_decreases: bump(s.gas_decreases),
                    total_gas_decrease: raised(
                        s.total_gas_decrease,
                        c.old_value->0 - c.new_value->0,
                    ),
                    ..s
                }
            }
        } else {
            GasChangeSummary { gas_cost_changes: bump(s.gas_cost_changes), ..s }
        },
        ChangeType::StackBehaviorChanged => GasChangeSummary {
            stack_behavior_changes: bump(s.stack_behavior_changes),
            ..s
        },
        ChangeType::SemanticsChanged => GasChangeSummary {
            semantic_changes: bump(s.semantic_changes),
            ..s
        },
    }
}

/// The summary of a list of changes.
pub open spec fn summary_of(changes: Seq<OpcodeChange>) -> GasChangeSummary
    decreases changes.len(),
{
    if changes.len() == 0 {
        empty_summary()
    } else {
        summary_with(summary_of(changes.drop_last()), changes.last())
    }
}

fn bumped(n: u32) -> (r: u32)
    ensures
        r == bump(n),
{
    if n < u32::MAX {
        n + 1
    } else {
        n
    }
}

/// The summary of a list of changes.
pub fn summarize(changes: &Vec<OpcodeChange>) -> (s: GasChangeSummary)
    ensures
        s == summary_of(changes@),
{
    let mut s = GasChangeSummary::default();
    let mut i: usize = 0;
    proof {
        assert(changes@.take(0) =~= Seq::<OpcodeChange>::empty());
    }
    while i < changes.len()
        invariant
            i <= changes.len(),
            s == summary_of(changes@.take(i as int)),
        decreases changes.len() - i,
    {
        let change = changes[i];
        proof {
            assert(changes@.take(i + 1).drop_last() =~= changes@.take(i as int));
            assert(changes@.take(i + 1).last() == change);
        }
        match change.change_type {
            ChangeType::Added => {
                s.opcodes_added = bumped(s.opcodes_added);
            },
            ChangeType::Removed => {
                s.opcodes_removed = bumped(s.opcodes_removed);
            },
            ChangeType::GasCostChanged => {
                s.gas_cost_changes = bumped(s.gas_cost_changes);
                match (change.old_value, change.new_value) {
                    (Some(old), Some(new)) => {
                        if new > old {
                            s.gas_increases = bumped(s.gas_increases);
                            s.total_gas_increase = s.total_gas_increase.saturating_add(new - old);
                        } else {
                            s.gas_decreases = bumped(s.gas_decreases);
                            s.total_gas_decrease = s.total_gas_decrease.saturating_add(old - new);
                        }
                    },
                    _ => {},
                }
            },
            ChangeType::StackBehaviorChanged => {
                s.stack_behavior_changes = bumped(s.stack_behavior_changes);
            },
            ChangeType::SemanticsChanged => {
                s.semantic_changes = bumped(s.semantic_changes);
            },
        }
        i += 1;
    }
    proof {
        assert(changes@.take(changes@.len() as int) =~= changes@);
    }
    s
}

/// The costs of `opcode` at two forks: its base cost in force at each,
/// where both forks have the opcode.
pub open spec fn compared_costs(
    tables: Seq<Seq<MetadataView>>,
    opcode: u8,
    fork1: Fork,
    fork2: Fork,
) -> Option<(u16, u16)> {
    let table1 = effective_opcodes(tables, fork1);
    let table2 = effective_opcodes(tables, fork2);
    if table1.contains_key(opcode) && table2.contains_key(opcode) {
        Some(
            (effective_gas_cost(table1[opcode], fork1), effective_gas_cost(table2[opcode], fork2)),
        )
    } else {
        None
    }
}

/// A change of gas cost from `old` to `new`.
pub open spec fn gas_change(opcode: u8, old: u16, new: u16) -> OpcodeChange {
    OpcodeChange {
        opcode,
        change_type: ChangeType::GasCostChanged,
        old_value: Some(old),
        new_value: Some(new),
    }
}

/// The changes of total price that are known beforehand: from Istanbul
/// to Berlin, those of EIP-2929 for the opcodes that read state, from
/// the old price to the price of a cold access.
pub open spec fn known_changes(fork1: Fork, fork2: Fork) -> Seq<OpcodeChange> {
    if fork1 == Fork::Istanbul && fork2 == Fork::Berlin {
        seq![
            gas_change(0x54, 800, 2100),
            gas_change(0x31, 400, 2600),
            gas_change(0x3b, 700, 2600),
            gas_change(0x3c, 700, 2600),
            gas_change(0x3f, 400, 2600),
            gas_change(0xf1, 700, 2600),
            gas_change(0xf2, 700, 2600),
            gas_change(0xf4, 700, 2600),
            gas_change(0xfa, 700, 2600),
        ]
    } else {
        Seq::empty()
    }
}

/// Some change of the list is about `opcode`.
pub open spec fn is_listed(changes: Seq<OpcodeChange>, opcode: u8) -> bool {
    exists|i: int| 0 <= i < changes.len() && (#[trigger] changes[i]).opcode == opcode
}

/// The changes of one opcode of the second table: added if the first
/// table lacks it; else a change of gas cost, if the base costs in force
/// differ and no known change is about the opcode, and then a change of
/// stack behaviour, if inputs or outputs differ.
pub open spec fn changes_at(
    table1: Map<u8, MetadataView>,
    table2: Map<u8, MetadataView>,
    fork1: Fork,
    fork2: Fork,
    known: Seq<OpcodeChange>,
    opcode: u8,
) -> Seq<OpcodeChange> {
    if !table2.contains_key(opcode) {
        Seq::empty()
    } else if !table1.contains_key(opcode) {
        seq![
            OpcodeChange {
                opcode,
                change_type: ChangeType::Added,
                old_value: None,
                new_value: Some(table2[opcode].gas_cost),
            },
        ]
    } else {
        let gas1 = effective_gas_cost(table1[opcode], fork1);
        let gas2 = effective_gas_cost(table2[opcode], fork2);
        let gas = if gas1 != gas2 && !is_listed(known, opcode) {
            seq![gas_change(opcode, gas1, gas2)]
        } else {
            Seq::empty()
        };
        let stack = if table1[opcode].stack_inputs != table2[opcode].stack_inputs
            || table1[opcode].stack_outputs != table2[opcode].stack_outputs {
            seq![
                OpcodeChange {
                    opcode,
                    change_type: ChangeType::StackBehaviorChanged,
                    old_value: Some(table1[opcode].stack_inputs as u16),
                    new_value: Some(table2[opcode].stack_inputs as u16),
                },
            ]
        } else {
            Seq::empty()
        };
        gas + stack
    }
}

/// The removal of one opcode that the first table has and the second lacks.
pub open spec fn removed_at(
    table1: Map<u8, MetadataView>,
    table2: Map<u8, MetadataView>,
    opcode: u8,
) -> Seq<OpcodeChange> {
    if table1.contains_key(opcode) && !table2.contains_key(opcode) {
        seq![
            OpcodeChange {
                opcode,
                change_type: ChangeType::Removed,
                old_value: Some(table1[opcode].gas_cost),
                new_value: None,
            },
        ]
    } else {
        Seq::empty()
    }
}

/// The changes of the opcodes below `bound`, in ascending order of the byte.
pub open spec fn changes_below(
    table1: Map<u8, MetadataView>,
    table2: Map<u8, MetadataView>,
    fork1: Fork,
    fork2: Fork,
    known: Seq<OpcodeChange>,
    bound: int,
) -> Seq<OpcodeChange>
    decreases bound,
{
    if bound <= 0 {
        Seq::empty()
    } else {
        changes_below(table1, table2, fork1, fork2, known, bound - 1) + changes_at(
            table1,
            table2,
            fork1,
            fork2,
            known,
            (bound - 1) as u8,
        )
    }
}

/// The removals of the opcodes below `bound`, in ascending order of the byte.
pub open spec fn removed_below(
    table1: Map<u8, MetadataView>,
    table2: Map<u8, MetadataView>,
    bound: int,
) -> Seq<OpcodeChange>
    decreases bound,
{
    if bound <= 0 {
        Seq::empty()
    } else {
        removed_below(table1, table2, bound - 1) + removed_at(table1, table2, (bound - 1) as u8)
    }
}

/// All changes between two forks: the known ones, then what the tables
/// in effect at the two forks show for each opcode of the second, then
/// the opcodes that the second lacks.
pub open spec fn changes_between(tables: Seq<Seq<MetadataView>>, fork1: Fork, fork2: Fork) -> Seq<
    OpcodeChange,
> {
    let table1 = effective_opcodes(tables, fork1);
    let table2 = effective_opcodes(tables, fork2);
    known_changes(fork1, fork2) + changes_below(
        table1,
        table2,
        fork1,
        fork2,
        known_changes(fork1, fork2),
        256,
    ) + removed_below(table1, table2, 256)
}

fn known_change_list(fork1: Fork, fork2: Fork) -> (known: Vec<OpcodeChange>)
    ensures
        known@ == known_changes(fork1, fork2),
{
    let mut known: Vec<OpcodeChange> = Vec::new();
    if fork1 == Fork::Istanbul && fork2 == Fork::Berlin {
        known.push(new_gas_change(0x54, 800, 2100));
        known.push(new_gas_change(0x31, 400, 2600));
        known.push(new_gas_change(0x3b, 700, 2600));
        known.push(new_gas_change(0x3c, 700, 2600));
        known.push(new_gas_change(0x3f, 400, 2600));
        known.push(new_gas_change(0xf1, 700, 2600));
        known.push(new_gas_change(0xf2, 700, 2600));
        known.push(new_gas_change(0xf4, 700, 2600));
        known.push(new_gas_change(0xfa, 700, 2600));
    }
    proof {
        assert(known@ =~= known_changes(fork1, fork2));
    }
    known
}

fn new_gas_change(opcode: u8, old: u16, new: u16) -> (c: OpcodeChange)
    ensures
        c == gas_change(opcode, old, new),
{
    OpcodeChange {
        opcode,
        change_type: ChangeType::GasCostChanged,
        old_value: Some(old),
        new_value: Some(new),
    }
}

fn listed(changes: &Vec<OpcodeChange>, opcode: u8) -> (r: bool)
    ensures
        r == is_listed(changes@, opcode),
{
    let mut i: usize = 0;
    while i < changes.len()
        invariant
            i <= changes.len(),
            forall|k: int| 0 <= k < i ==> (#[trigger] changes@[k]).opcode != opcode,
        decreases changes.len() - i,
    {
        if changes[i].opcode == opcode {
            return true;
        }
        i += 1;
    }
    false
}

/// Gas comparison utilities.
pub struct GasComparator;

impl GasComparator {
    /// Compare gas costs between two forks for the same opcode.
    pub fn compare_gas_costs(opcode: u8, fork1: Fork, fork2: Fork) -> (r: Option<(u16, u16)>)
        ensures
            r == compared_costs(standard_tables(), opcode, fork1, fork2),
    {
        let registry = OpcodeRegistry::new();
        match (registry.lookup(fork1, opcode), registry.lookup(fork2, opcode)) {
            (Some(metadata1), Some(metadata2)) => Some(
                (metadata1.effective_gas_cost(fork1), metadata2.effective_gas_cost(fork2)),
            ),
            _ => None,
        }
    }

    /// Get all opcodes that changed between two forks.
    pub fn get_changes_between_forks(fork1: Fork, fork2: Fork) -> (changes: Vec<OpcodeChange>)
        ensures
            changes@ == changes_between(standard_tables(), fork1, fork2),
    {
        let registry = OpcodeRegistry::new();
        let opcodes1 = registry.get_opcodes(fork1);
        let opcodes2 = registry.get_opcodes(fork2);
        let ghost table1 = effective_opcodes(standard_tables(), fork1);
        let ghost table2 = effective_opcodes(standard_tables(), fork2);
        let known = known_change_list(fork1, fork2);
        let mut changes: Vec<OpcodeChange> = known.clone();
        proof {
            assert(changes@ =~= known@);
            assert(changes@ =~= known@ + changes_below(table1, table2, fork1, fork2, known@, 0));
        }
        let mut b: u16 = 0;
        while b < 256
            invariant
                b <= 256,
                crate::registry::metadata_map_view(opcodes1@) == table1,
                crate::registry::metadata_map_view(opcodes2@) == table2,
                known@ == known_changes(fork1, fork2),
                changes@ == known@ + changes_below(
                    table1,
                    table2,
                    fork1,
                    fork2,
                    known@,
                    b as int,
                ),
            decreases 256 - b,
        {
            let opcode = b as u8;
            let ghost before = changes@;
            proof {
                assert(table1.contains_key(opcode) <==> opcodes1@.contains_key(opcode));
                assert(table2.contains_key(opcode) <==> opcodes2@.contains_key(opcode));
            }
            match opcodes2.get(&opcode) {
                Some(metadata2) => {
                    proof {
                        assert(table2[opcode] == opcodes2@[opcode]@);
                    }
                    match opcodes1.get(&opcode) {
                        Some(metadata1) => {
                            proof {
                                assert(table1[opcode] == opcodes1@[opcode]@);
                            }
                            let gas1 = metadata1.effective_gas_cost(fork1);
                            let gas2 = metadata2.effective_gas_cost(fork2);
                            let already_known = listed(&known, opcode);
                            if gas1 != gas2 && !already_known {
                                changes.push(new_gas_change(opcode, gas1, gas2));
                            }
                            if metadata1.stack_inputs != metadata2.stack_inputs
                                || metadata1.stack_outputs != metadata2.stack_outputs {
                                changes.push(
                                    OpcodeChange {
                                        opcode,
                                        change_type: ChangeType::StackBehaviorChanged,
                                        old_value: Some(metadata1.stack_inputs as u16),
                                        new_value: Some(metadata2.stack_inputs as u16),
                                    },
                                );
                            }
                        },
                        None => {
                            changes.push(
                                OpcodeChange {
                                    opcode,
                                    change_type: ChangeType::Added,
                                    old_value: None,
                                    new_value: Some(metadata2.gas_cost),
                                },
                            );
                        },
                    }
                },
                None => {},
            }
            proof {
                assert(changes@ =~= before + changes_at(
                    table1,
                    table2,
                    fork1,
                    fork2,
                    known@,
                    opcode,
                ));
                assert(changes@ =~= known@ + changes_below(
                    table1,
                    table2,
                    fork1,
                    fork2,
                    known@,
                    b + 1,
                ));
            }
            b += 1;
        }
        let ghost found = changes@;
        let mut b: u16 = 0;
        proof {
            assert(changes@ =~= found + removed_below(table1, table2, 0));
        }
        while b < 256
            invariant
                b <= 256,
                crate::registry::metadata_map_view(opcodes1@) == table1,
                crate::registry::metadata_map_view(opcodes2@) == table2,
                changes@ == found + removed_below(table1, table2, b as int),
            decreases 256 - b,
        {
            let opcode = b as u8;
            let ghost before = changes@;
            proof {
                assert(table1.contains_key(opcode) <==> opcodes1@.contains_key(opcode));
                assert(table2.contains_key(opcode) <==> opcodes2@.contains_key(opcode));
            }
            match opcodes1.get(&opcode) {
                Some(metadata1) => {
                    proof {
                        assert(table1[opcode] == opcodes1@[opcode]@);
                    }
                    if !opcodes2.contains_key(&opcode) {
                        changes.push(
                            OpcodeChange {
                                opcode,
                                change_type: ChangeType::Removed,
                                old_value: Some(metadata1.gas_cost),
                                new_value: None,
                            },
                        );
                    }
                },
                None => {},
            }
            proof {
                assert(changes@ =~= before + removed_at(table1, table2, opcode));
                assert(changes@ =~= found + removed_below(table1, table2, b + 1));
            }
            b += 1;
        }
        changes
    }

    /// Generate a comprehensive gas cost comparison report.
    pub fn generate_comparison_report(fork1: Fork, fork2: Fork) -> (report: GasComparisonReport)
        ensures
            report.fork1 == fork1,
            report.fork2 == fork2,
            report.changes@ == changes_between(standard_tables(), fork1, fork2),
            report.summary == summary_of(report.changes@),
    {
        let changes = GasComparator::get_changes_between_forks(fork1, fork2);
        let summary = summarize(&changes);
        GasComparisonReport { fork1, fork2, changes, summary }
    }
}

/// Comprehensive report comparing gas costs between forks.
#[derive(Debug, Clone)]
pub struct GasComparisonReport {
    /// First fork being compared
    pub fork1: Fork,
    /// Second fork being compared
    pub fork2: Fork,
    /// List of all changes
    pub changes: Vec<OpcodeChange>,
    /// Summary statistics
    pub summary: GasChangeSummary,
}

/// The changes of gas cost among `changes`, in their order.
pub open spec fn gas_cost_changes(changes: Seq<OpcodeChange>) -> Seq<OpcodeChange>
    decreases changes.len(),
{
    if changes.len() == 0 {
        Seq::empty()
    } else if changes.last().change_type == ChangeType::GasCostChanged {
        gas_cost_changes(changes.drop_last()).push(changes.last())
    } else {
        gas_cost_changes(changes.drop_last())
    }
}

/// How far the new value of a change is from the old one; 0 where one
/// of the two is missing.
pub open spec fn impact(change: OpcodeChange) -> u64 {
    if change.old_value is Some && change.new_value is Some {
        if change.new_value->0 >= change.old_value->0 {
            (change.new_value->0 - change.old_value->0) as u64
        } else {
            (change.old_value->0 - change.new_value->0) as u64
        }
    } else {
        0
    }
}

/// The `n` changes of gas cost with the largest impact, the largest
/// first; changes of equal impact stand in the order of the list.
pub open spec fn most_impactful(changes: Seq<OpcodeChange>, n: int) -> Seq<OpcodeChange> {
    let gas = gas_cost_changes(changes);
    let order = ranking(gas.map_values(|c: OpcodeChange| impact(c)), gas.len() as int);
    let kept = if n < gas.len() {
        n
    } else {
        gas.len() as int
    };
    Seq::new(kept as nat, |k: int| gas[order[k]])
}

/// The values behind a list of references.
pub open spec fn referenced(list: Seq<&OpcodeChange>) -> Seq<OpcodeChange> {
    list.map_values(|c: &OpcodeChange| *c)
}

/// What a detailed line of the report says of one change.
pub open spec fn change_line(change: OpcodeChange) -> Seq<char> {
    let old = match change.old_value {
        Some(v) => v,
        None => 0u16,
    };
    let new = match change.new_value {
        Some(v) => v,
        None => 0u16,
    };
    match change.change_type {
        ChangeType::Added => "  + Added opcode 0x"@ + hex2(change.opcode) + " (gas: "@ + decimal(
            new as nat,
        ) + ")"@,
        ChangeType::Removed => "  - Removed opcode 0x"@ + hex2(change.opcode) + " (was: "@
            + decimal(old as nat) + " gas)"@,
        ChangeType::GasCostChanged => "  ~ Opcode 0x"@ + hex2(change.opcode) + ": "@ + decimal(
            old as nat,
        ) + " → "@ + decimal(new as nat) + " gas"@,
        ChangeType::StackBehaviorChanged => "  ! Opcode 0x"@ + hex2(change.opcode)
            + ": stack behavior changed"@,
        ChangeType::SemanticsChanged => "  ! Opcode 0x"@ + hex2(change.opcode)
            + ": semantics changed"@,
    }
}

/// The detailed lines of a list of changes, one for each change.
pub open spec fn change_lines(changes: Seq<OpcodeChange>) -> Seq<Seq<char>> {
    changes.map_values(|c: OpcodeChange| change_line(c))
}

/// The head of the report: the title, the two forks, and the summary.
pub open spec fn report_head(fork1: Fork, fork2: Fork, s: GasChangeSummary) -> Seq<Seq<char>> {
    seq![
        "=== Gas Cost Comparison Report ==="@,
        "Comparing "@ + fork1.spec_name() + " → "@ + fork2.spec_name(),
        ""@,
        "Summary:"@,
        "  Opcodes added: "@ + decimal(s.opcodes_added as nat),
        "  Opcodes removed: "@ + decimal(s.opcodes_removed as nat),
        "  Gas cost changes: "@ + decimal(s.gas_cost_changes as nat),
        "  Gas increases: "@ + decimal(s.gas_increases as nat) + " (total: +"@ + decimal(
            s.total_gas_increase as nat,
        ) + " gas)"@,
        "  Gas decreases: "@ + decimal(s.gas_decreases as nat) + " (total: -"@ + decimal(
            s.total_gas_decrease as nat,
        ) + " gas)"@,
        "  Stack behavior changes: "@ + decimal(s.stack_behavior_changes as nat),
        ""@,
    ]
}

/// The lines of the human-readable report: the head, and where there
/// are changes a heading and a line for each.
pub open spec fn report_text(
    fork1: Fork,
    fork2: Fork,
    changes: Seq<OpcodeChange>,
    s: GasChangeSummary,
) -> Seq<Seq<char>> {
    if changes.len() == 0 {
        report_head(fork1, fork2, s)
    } else {
        report_head(fork1, fork2, s) + seq!["Detailed Changes:"@] + change_lines(changes)
    }
}

fn labelled_count(label: &str, n: u32) -> (s: String)
    ensures
        s@ == label@ + decimal(n as nat),
{
    let mut s = String::from_str(label);
    push_decimal(&mut s, n as u64);
    s
}

fn labelled_total(label: &str, n: u32, sign: &str, total: u16) -> (s: String)
    ensures
        s@ == label@ + decimal(n as nat) + sign@ + decimal(total as nat) + " gas)"@,
{
    let mut s = String::from_str(label);
    push_decimal(&mut s, n as u64);
    s.append(sign);
    push_decimal(&mut s, total as u64);
    s.append(" gas)");
    s
}

fn change_line_string(change: &OpcodeChange) -> (s: String)
    ensures
        s@ == change_line(*change),
{
    let old: u16 = match change.old_value {
        Some(v) => v,
        None => 0,
    };
    let new: u16 = match change.new_value {
        Some(v) => v,
        None => 0,
    };
    match change.change_type {
        ChangeType::Added => {
            let mut s = String::from_str("  + Added opcode 0x");
            push_hex2(&mut s, change.opcode);
            s.append(" (gas: ");
            push_decimal(&mut s, new as u64);
            s.append(")");
            s
        },
        ChangeType::Removed => {
            let mut s = String::from_str("  - Removed opcode 0x");
            push_hex2(&mut s, change.opcode);
            s.append(" (was: ");
            push_decimal(&mut s, old as u64);
            s.append(" gas)");
            s
        },
        ChangeType::GasCostChanged => {
            let mut s = String::from_str("  ~ Opcode 0x");
            push_hex2(&mut s, change.opcode);
            s.append(": ");
            push_decimal(&mut s, old as u64);
            s.append(" → ");
            push_decimal(&mut s, new as u64);
            s.append(" gas");
            s
        },
        ChangeType::StackBehaviorChanged => {
            let mut s = String::from_str("  ! Opcode 0x");
            push_hex2(&mut s, change.opcode);
            s.append(": stack behavior changed");
            s
        },
        ChangeType::SemanticsChanged => {
            let mut s = String::from_str("  ! Opcode 0x");
            push_hex2(&mut s, change.opcode);
            s.append(": semantics changed");
            s
        },
    }
}

impl GasComparisonReport {
    /// The lines of the human-readable report.
    pub fn report_lines(&self) -> (text: Vec<String>)
        ensures
            lines(text@) == report_text(self.fork1, self.fork2, self.changes@, self.summary),
    {
        let mut text: Vec<String> = Vec::new();
        let ghost none = lines(text@);
        push_line(&mut text, String::from_str("=== Gas Cost Comparison Report ==="));
        let mut comparing = String::from_str("Comparing ");
        comparing.append(self.fork1.name());
        comparing.append(" → ");
        comparing.append(self.fork2.name());
        push_line(&mut text, comparing);
        push_line(&mut text, String::from_str(""));
        push_line(&mut text, String::from_str("Summary:"));
        push_line(&mut text, labelled_count("  Opcodes added: ", self.summary.opcodes_added));
        push_line(&mut text, labelled_count("  Opcodes removed: ", self.summary.opcodes_removed));
        push_line(&mut text, labelled_count("  Gas cost changes: ", self.summary.gas_cost_changes));
        push_line(
            &mut text,
            labelled_total(
                "  Gas increases: ",
                self.summary.gas_increases,
                " (total: +",
                self.summary.total_gas_increase,
            ),
        );
        push_line(
            &mut text,
            labelled_total(
                "  Gas decreases: ",
                self.summary.gas_decreases,
                " (total: -",
                self.summary.total_gas_decrease,
            ),
        );
        push_line(
            &mut text,
            labelled_count("  Stack behavior changes: ", self.summary.stack_behavior_changes),
        );
        push_line(&mut text, String::from_str(""));
        proof {
            assert(none =~= Seq::<Seq<char>>::empty());
            assert(lines(text@) =~= report_head(self.fork1, self.fork2, self.summary));
        }
        if self.changes.len() > 0 {
            push_line(&mut text, String::from_str("Detailed Changes:"));
            let ghost head = lines(text@);
            let mut i: usize = 0;
            proof {
                assert(lines(text@) =~= head + change_lines(self.changes@.take(0)));
            }
            while i < self.changes.len()
                invariant
                    i <= self.changes.len(),
                    lines(text@) == head + change_lines(self.changes@.take(i as int)),
                decreases self.changes.len() - i,
            {
                let line = change_line_string(&self.changes[i]);
                push_line(&mut text, line);
                proof {
                    assert(lines(text@) =~= head + change_lines(self.changes@.take(i + 1)));
                }
                i += 1;
            }
            proof {
                assert(self.changes@.take(self.changes@.len() as int) =~= self.changes@);
            }
        }
        text
    }

    /// Get the most impactful changes (largest gas cost differences).
    pub fn get_most_impactful_changes(&self, n: usize) -> (top: Vec<&OpcodeChange>)
        ensures
            referenced(top@) == most_impactful(self.changes@, n as int),
    {
        let mut positions: Vec<usize> = Vec::new();
        let mut impacts: Vec<u64> = Vec::new();
        let mut i: usize = 0;
        let ghost changes = self.changes@;
        proof {
            assert(changes.take(0) =~= Seq::<OpcodeChange>::empty());
        }
        while i < self.changes.len()
            invariant
                i <= self.changes.len(),
                changes == self.changes@,
                positions@.len() == impacts@.len(),
                positions@.len() == gas_cost_changes(changes.take(i as int)).len(),
                forall|k: int|
                    0 <= k < positions@.len() ==> #[trigger] positions@[k] < i && changes[positions@[k] as int]
                        == gas_cost_changes(changes.take(i as int))[k],
                forall|k: int|
                    0 <= k < impacts@.len() ==> #[trigger] impacts@[k] == impact(
                        gas_cost_changes(changes.take(i as int))[k],
                    ),
            decreases self.changes.len() - i,
        {
            let change = &self.changes[i];
            proof {
                assert(changes.take(i + 1).drop_last() =~= changes.take(i as int));
                assert(changes.take(i + 1).last() == *change);
            }
            if change.change_type == ChangeType::GasCostChanged {
                let diff: u64 = match (change.old_value, change.new_value) {
                    (Some(old), Some(new)) => if new >= old {
                        (new - old) as u64
                    } else {
                        (old - new) as u64
                    },
                    _ => 0,
                };
                positions.push(i);
                impacts.push(diff);
            }
            i += 1;
        }
        proof {
            assert(changes.take(changes.len() as int) =~= changes);
        }
        let ghost gas = gas_cost_changes(changes);
        proof {
            assert(impacts@ =~= gas.map_values(|c: OpcodeChange| impact(c)));
        }
        let order = rank_descending(&impacts);
        let kept = if n < positions.len() {
            n
        } else {
            positions.len()
        };
        let mut top: Vec<&OpcodeChange> = Vec::new();
        let mut k: usize = 0;
        while k < kept
            invariant
                k <= kept,
                kept <= positions@.len(),
                changes == self.changes@,
                gas == gas_cost_changes(changes),
                positions@.len() == gas.len(),
                order@.len() == positions@.len(),
                forall|a: int| 0 <= a < order@.len() ==> #[trigger] order@[a] < positions@.len(),
                forall|a: int|
                    0 <= a < positions@.len() ==> #[trigger] positions@[a] < changes.len()
                        && changes[positions@[a] as int] == gas[a],
                indices(order@) == ranking(
                    gas.map_values(|c: OpcodeChange| impact(c)),
                    gas.len() as int,
                ),
                top@.len() == k,
                forall|a: int| 0 <= a < k ==> *(#[trigger] top@[a]) == gas[indices(order@)[a]],
            decreases kept - k,
        {
            let rank = order[k];
            assert(indices(order@)[k as int] == rank);
            let position = positions[rank];
            top.push(&self.changes[position]);
            k += 1;
        }
        proof {
            assert(referenced(top@) =~= most_impactful(self.changes@, n as int));
        }
        top
    }
}

/// The advice that holds for one fork.
pub open spec fn fork_advice(fork: Fork) -> Seq<Seq<char>> {
    match fork {
        Fork::Shanghai => seq![
            "Use PUSH0 instead of PUSH1 0x00 to save 2 gas per occurrence"@,
        ],
        Fork::Cancun => seq![
            "Use PUSH0 for zero values (2 gas savings)"@,
            "Consider TSTORE/TLOAD for temporary storage (100 gas vs 2100+ for SSTORE/SLOAD)"@,
            "Use MCOPY for memory copying (more gas efficient than loops)"@,
            "Consider blob transactions for large data storage"@,
        ],
        Fork::Berlin => seq![
            "Pre-warm storage slots and addresses to benefit from EIP-2929 gas reductions"@,
            "Batch operations on the same storage slots to amortize cold access costs"@,
        ],
        Fork::London => seq![
            "Account for EIP-1559 base fee in gas price calculations"@,
            "Use priority fee efficiently for transaction inclusion"@,
        ],
        _ => seq!["Consider upgrading to a newer fork for gas optimizations"@],
    }
}

/// The advice that holds for every fork.
pub open spec fn general_advice() -> Seq<Seq<char>> {
    seq![
        "Pack storage variables to minimize SSTORE operations"@,
        "Use events instead of storage for data that doesn't need on-chain queries"@,
        "Minimize external calls and account creations"@,
        "Use short-circuit evaluation in conditional logic"@,
        "Consider using libraries for common functionality to reduce deployment costs"@,
    ]
}

/// How often `first` is directly followed by `second`.
pub open spec fn count_pairs(opcodes: Seq<u8>, first: u8, second: u8) -> nat
    decreases opcodes.len(),
{
    if opcodes.len() < 2 {
        0
    } else if opcodes[opcodes.len() - 2] == first && opcodes.last() == second {
        count_pairs(opcodes.drop_last(), first, second) + 1
    } else {
        count_pairs(opcodes.drop_last(), first, second)
    }
}

/// The number of times PUSH1 is followed by a zero byte, counted since
/// Shanghai only, where PUSH0 can replace it.
pub open spec fn replaceable_pushes(fork: Fork, opcodes: Seq<u8>) -> nat {
    if fork.spec_at_least(Fork::Shanghai) {
        count_pairs(opcodes, 0x60, 0x00)
    } else {
        0
    }
}

/// The suggestions for a sequence of bare opcodes at `fork`: about
/// SLOADs in a row, about many SLOADs, about PUSH1 of zero, and about a
/// low efficiency score.
pub open spec fn pattern_suggestions(fork: Fork, opcodes: Seq<u8>) -> Seq<Seq<char>> {
    let consecutive = if count_pairs(opcodes, 0x54, 0x54) > 0 {
        seq![
            "Found "@ + decimal(count_pairs(opcodes, 0x54, 0x54))
                + " consecutive SLOAD operations - consider caching in memory"@,
        ]
    } else {
        Seq::empty()
    };
    let many = if count_of(opcodes, 0x54) > 3 {
        seq!["Multiple SLOAD operations detected - consider storage packing or caching"@]
    } else {
        Seq::empty()
    };
    let pushes = if replaceable_pushes(fork, opcodes) > 0 {
        seq![
            "Found "@ + decimal(replaceable_pushes(fork, opcodes))
                + " PUSH1 0x00 operations - replace with PUSH0 to save "@ + decimal(
                replaceable_pushes(fork, opcodes) * 2,
            ) + " gas"@,
        ]
    } else {
        Seq::empty()
    };
    let analysis = usage_analysis(fork, opcodes);
    let efficiency = if usage_score(analysis.total_gas, analysis.breakdown.len()) < 50 {
        seq!["Low gas efficiency detected - consider algorithmic improvements"@]
    } else {
        Seq::empty()
    };
    consecutive + many + pushes + efficiency
}

/// How often `first` is directly followed by `second`.
pub fn count_adjacent(opcodes: &[u8], first: u8, second: u8) -> (n: usize)
    ensures
        n == count_pairs(opcodes@, first, second),
        n <= opcodes@.len(),
{
    if opcodes.len() < 2 {
        return 0;
    }
    let mut n: usize = 0;
    let mut i: usize = 1;
    proof {
        assert(opcodes@.take(1).len() < 2);
    }
    while i < opcodes.len()
        invariant
            1 <= i <= opcodes.len(),
            n == count_pairs(opcodes@.take(i as int), first, second),
            n <= i,
        decreases opcodes.len() - i,
    {
        proof {
            let next = opcodes@.take(i + 1);
            assert(next.drop_last() =~= opcodes@.take(i as int));
            assert(next[next.len() - 2] == opcodes@[i - 1]);
        }
        if opcodes[i - 1] == first && opcodes[i] == second {
            n += 1;
        }
        i += 1;
    }
    proof {
        assert(opcodes@.take(opcodes@.len() as int) =~= opcodes@);
    }
    n
}

/// Gas optimization advisor.
pub struct GasOptimizationAdvisor;

impl GasOptimizationAdvisor {
    /// Get optimization recommendations for a specific fork: the advice
    /// for that fork, then the advice that holds for every fork.
    pub fn get_fork_optimizations(fork: Fork) -> (r: Vec<String>)
        ensures
            lines(r@) == fork_advice(fork) + general_advice(),
    {
        let mut r: Vec<String> = Vec::new();
        let ghost none = lines(r@);
        match fork {
            Fork::Shanghai => {
                push_line(
                    &mut r,
                    String::from_str("Use PUSH0 instead of PUSH1 0x00 to save 2 gas per occurrence"),
                );
            },
            Fork::Cancun => {
                push_line(&mut r, String::from_str("Use PUSH0 for zero values (2 gas savings)"));
                push_line(
                    &mut r,
                    String::from_str(
                        "Consider TSTORE/TLOAD for temporary storage (100 gas vs 2100+ for SSTORE/SLOAD)",
                    ),
                );
                push_line(
                    &mut r,
                    String::from_str("Use MCOPY for memory copying (more gas efficient than loops)"),
                );
                push_line(
                    &mut r,
                    String::from_str("Consider blob transactions for large data storage"),
                );
            },
            Fork::Berlin => {
                push_line(
                    &mut r,
                    String::from_str(
                        "Pre-warm storage slots and addresses to benefit from EIP-2929 gas reductions",
                    ),
                );
                push_line(
                    &mut r,
                    String::from_str(
                        "Batch operations on the same storage slots to amortize cold access costs",
                    ),
                );
            },
            Fork::London => {
                push_line(
                    &mut r,
                    String::from_str("Account for EIP-1559 base fee in gas price calculations"),
                );
                push_line(
                    &mut r,
                    String::from_str("Use priority fee efficiently for transaction inclusion"),
                );
            },
            _ => {
                push_line(
                    &mut r,
                    String::from_str("Consider upgrading to a newer fork for gas optimizations"),
                );
            },
        }
        proof {
            assert(none =~= Seq::<Seq<char>>::empty());
            assert(lines(r@) =~= fork_advice(fork));
        }
        push_line(
            &mut r,
            String::from_str("Pack storage variables to minimize SSTORE operations"),
        );
        push_line(
            &mut r,
            String::from_str(
                "Use events instead of storage for data that doesn't need on-chain queries",
            ),
        );
        push_line(&mut r, String::from_str("Minimize external calls and account creations"));
        push_line(&mut r, String::from_str("Use short-circuit evaluation in conditional logic"));
        push_line(
            &mut r,
            String::from_str(
                "Consider using libraries for common functionality to reduce deployment costs",
            ),
        );
        proof {
            assert(lines(r@) =~= fork_advice(fork) + general_advice());
        }
        r
    }

    /// Analyze a gas pattern and suggest specific optimizations.
    pub fn analyze_pattern(opcodes: &[u8], fork: Fork) -> (suggestions: Vec<String>)
        ensures
            lines(suggestions@) == pattern_suggestions(fork, opcodes@),
    {
        let mut suggestions: Vec<String> = Vec::new();
        let ghost none = lines(suggestions@);
        let analysis = GasAnalyzer::analyze_gas_usage(opcodes, fork);
        let consecutive_sloads = count_adjacent(opcodes, 0x54, 0x54);
        let push_zeros = if fork.at_least(Fork::Shanghai) {
            count_adjacent(opcodes, 0x60, 0x00)
        } else {
            0
        };
        let listed = vstd::slice::slice_to_vec(opcodes);
        let total_sloads = count_opcode(&listed, 0x54);
        if consecutive_sloads > 0 {
            let mut text = String::from_str("Found ");
            push_decimal(&mut text, consecutive_sloads as u64);
            text.append(" consecutive SLOAD operations - consider caching in memory");
            push_line(&mut suggestions, text);
        }
        if total_sloads > 3 {
            push_line(
                &mut suggestions,
                String::from_str(
                    "Multiple SLOAD operations detected - consider storage packing or caching",
                ),
            );
        }
        if push_zeros > 0 {
            let mut text = String::from_str("Found ");
            push_decimal(&mut text, push_zeros as u64);
            text.append(" PUSH1 0x00 operations - replace with PUSH0 to save ");
            push_decimal_wide(&mut text, push_zeros as u128 * 2);
            text.append(" gas");
            push_line(&mut suggestions, text);
        }
        if analysis.efficiency_score() < 50 {
            push_line(
                &mut suggestions,
                String::from_str("Low gas efficiency detected - consider algorithmic improvements"),
            );
        }
        proof {
            assert(none =~= Seq::<Seq<char>>::empty());
            assert(lines(suggestions@) =~= pattern_suggestions(fork, opcodes@));
        }
        suggestions
    }
}

} // verus!
