//! Dynamic gas cost calculator for EVM opcodes.
//!
//! The price of one opcode is its base cost at the calculator's fork plus
//! a surcharge that depends on the fork and on the execution context.
//! Prices are computed exactly and handed out as 64-bit values; a price
//! that does not fit in 64 bits comes out as the largest 64-bit value.

use vstd::prelude::*;
use vstd::string::StringExecFns;
use crate::error::GasError;
use crate::fork::Fork;
use crate::gas::context::{
    initial_context,
    with_call_entered,
    with_memory,
    with_warm_address,
    with_warm_slot,
    ContextView,
    ExecutionContext,
};
use crate::gas::keys::{address_bytes, address_of, storage_key, storage_key_bytes};
use crate::gas::memory::{
    clamp_u64,
    clamp_usize,
    expansion_delta,
    price_of_expansion,
    saturate_u64,
    saturate_usize,
    word_count,
    words,
};
use crate::gas::{AnalysisView, GasAnalysisResult};
use crate::metadata::{effective_gas_cost, MetadataView, OpcodeMetadata};
use crate::registry::{effective_opcodes, standard_tables, OpcodeRegistry};
use crate::text::{decimal, hex2, lemma_lines_push, lines, push_decimal, push_hex2, push_line};

verus! {

/// The error of an opcode that got fewer operands than it needs.
pub open spec fn missing(opcode: u8, needed: usize, operands: Seq<u64>) -> GasError {
    GasError::MissingOperand { opcode, needed, given: operands.len() as usize }
}

/// The slot that `w` names in the current contract is warm.
pub open spec fn slot_is_warm(ctx: ContextView, w: u64) -> bool {
    ctx.warm_storage.contains((ctx.current_address, storage_key(w)))
}

/// The account that `w` names is warm.
pub open spec fn account_is_warm(ctx: ContextView, w: u64) -> bool {
    ctx.warm_addresses.contains(address_of(w))
}

/// What it costs to grow the memory of `ctx` so that it reaches `end`;
/// nothing if it already does.
pub open spec fn growth(ctx: ContextView, end: int) -> int {
    expansion_delta(ctx.memory_size as int, end)
}

/// SLOAD: 800 before Berlin; since Berlin 100 for a warm slot and 2100
/// for a cold one, and the key operand is required.
pub open spec fn sload_surcharge(fork: Fork, ctx: ContextView, operands: Seq<u64>) -> Result<
    int,
    GasError,
> {
    if fork.spec_at_least(Fork::Berlin) {
        if operands.len() < 1 {
            Err(missing(0x54, 1, operands))
        } else if slot_is_warm(ctx, operands[0]) {
            Ok(100)
        } else {
            Ok(2100)
        }
    } else {
        Ok(800)
    }
}

/// SSTORE: key and value are required; since Berlin a cold slot costs
/// 2100 more.
///
/// This is a known limit of the model: the refunds and the net gas
/// metering of EIP-2200 and EIP-3529 depend on the value the slot had
/// at the start of the transaction and on its current value, which the
/// context does not hold, and are not priced.
pub open spec fn sstore_surcharge(fork: Fork, ctx: ContextView, operands: Seq<u64>) -> Result<
    int,
    GasError,
> {
    if operands.len() < 2 {
        Err(missing(0x55, 2, operands))
    } else if fork.spec_at_least(Fork::Berlin) && !slot_is_warm(ctx, operands[0]) {
        Ok(2100)
    } else {
        Ok(0)
    }
}

/// TLOAD: 100 since Cancun, whatever is warm; not supported before.
pub open spec fn tload_surcharge(fork: Fork, operands: Seq<u64>) -> Result<int, GasError> {
    if !fork.spec_at_least(Fork::Cancun) {
        Err(GasError::UnsupportedOpcode { opcode: 0x5c, fork })
    } else if operands.len() < 1 {
        Err(missing(0x5c, 1, operands))
    } else {
        Ok(100)
    }
}

/// TSTORE: 100 since Cancun, whatever is warm; not supported before.
pub open spec fn tstore_surcharge(fork: Fork, operands: Seq<u64>) -> Result<int, GasError> {
    if !fork.spec_at_least(Fork::Cancun) {
        Err(GasError::UnsupportedOpcode { opcode: 0x5d, fork })
    } else if operands.len() < 2 {
        Err(missing(0x5d, 2, operands))
    } else {
        Ok(100)
    }
}

/// The number of bytes that MLOAD, MSTORE and MSTORE8 touch.
pub open spec fn access_size(opcode: u8) -> int {
    if opcode == 0x53 {
        1
    } else {
        32
    }
}

/// MLOAD, MSTORE, MSTORE8: the offset is required; the growth of memory
/// up to the end of the access. Any other byte is no memory access and
/// is unknown to this rule.
pub open spec fn memory_surcharge(
    fork: Fork,
    opcode: u8,
    ctx: ContextView,
    operands: Seq<u64>,
) -> Result<int, GasError> {
    if operands.len() < 1 {
        Err(missing(opcode, 1, operands))
    } else if !(0x51 <= opcode <= 0x53) {
        Err(GasError::UnknownOpcode { opcode, fork })
    } else {
        Ok(growth(ctx, operands[0] + access_size(opcode)))
    }
}

/// MCOPY: since Cancun; destination, source and size are required; the
/// growth of memory up to the end of the destination, and 3 per word
/// copied.
pub open spec fn mcopy_surcharge(fork: Fork, ctx: ContextView, operands: Seq<u64>) -> Result<
    int,
    GasError,
> {
    if !fork.spec_at_least(Fork::Cancun) {
        Err(GasError::UnsupportedOpcode { opcode: 0x5e, fork })
    } else if operands.len() < 3 {
        Err(missing(0x5e, 3, operands))
    } else {
        Ok(growth(ctx, operands[0] + operands[2]) + 3 * words(operands[2] as int))
    }
}

/// The larger of two ends of memory accesses.
pub open spec fn later_end(a: int, b: int) -> int {
    if a >= b {
        a
    } else {
        b
    }
}

/// CALL, CALLCODE, DELEGATECALL, STATICCALL: seven operands are
/// required (gas, target, value, and the offsets and sizes of arguments
/// and return data). Since Berlin a cold target costs 2600. A CALL that
/// transfers value costs 9000, and 25000 more if the target is cold.
/// Added to that is the growth of memory up to the later end of the two
/// regions.
///
/// The 25000 are the price of creating the target account. Whether the
/// account exists is not part of the context, so a cold target stands
/// for an account that does not exist. This is an approximation: a warm
/// address may belong to no account, and a cold one to an existing one.
pub open spec fn call_surcharge(
    fork: Fork,
    opcode: u8,
    ctx: ContextView,
    operands: Seq<u64>,
) -> Result<int, GasError> {
    if operands.len() < 7 {
        Err(missing(opcode, 7, operands))
    } else {
        let cold = !account_is_warm(ctx, operands[1]);
        let transfers = opcode == 0xf1 && operands[2] > 0;
        let access: int = if fork.spec_at_least(Fork::Berlin) && cold {
            2600
        } else {
            0
        };
        let transfer: int = if transfers {
            9000
        } else {
            0
        };
        let creation: int = if transfers && cold {
            25000
        } else {
            0
        };
        Ok(
            access + transfer + creation + growth(
                ctx,
                later_end(operands[3] + operands[4], operands[5] + operands[6]),
            ),
        )
    }
}

/// BALANCE, EXTCODESIZE, EXTCODECOPY, EXTCODEHASH: since Berlin the
/// address is required, and the surcharge is 100 for a warm account and
/// 2600 for a cold one; before Berlin there is none, and no operand is
/// read.
pub open spec fn account_access_surcharge(
    fork: Fork,
    opcode: u8,
    ctx: ContextView,
    operands: Seq<u64>,
) -> Result<int, GasError> {
    if fork.spec_at_least(Fork::Berlin) {
        if operands.len() < 1 {
            Err(missing(opcode, 1, operands))
        } else if account_is_warm(ctx, operands[0]) {
            Ok(100)
        } else {
            Ok(2600)
        }
    } else {
        Ok(0)
    }
}

/// CALLDATACOPY, CODECOPY, RETURNDATACOPY: destination, source and
/// size are required; the growth of memory up to the end of the
/// destination and 3 per word copied.
pub open spec fn copy_surcharge(opcode: u8, ctx: ContextView, operands: Seq<u64>) -> Result<
    int,
    GasError,
> {
    if operands.len() < 3 {
        Err(missing(opcode, 3, operands))
    } else {
        Ok(growth(ctx, operands[0] + operands[2]) + 3 * words(operands[2] as int))
    }
}

/// CREATE and CREATE2: value, offset and size are required; 32000,
/// since Shanghai 2 per word of init code, for CREATE2 6 more per word
/// for hashing it, and the growth of memory up to the end of the init
/// code.
pub open spec fn create_surcharge(
    fork: Fork,
    opcode: u8,
    ctx: ContextView,
    operands: Seq<u64>,
) -> Result<int, GasError> {
    if operands.len() < 3 {
        Err(missing(opcode, 3, operands))
    } else {
        let hashing: int = if opcode == 0xf5 {
            6 * words(operands[2] as int)
        } else {
            0
        };
        let init_code: int = if fork.spec_at_least(Fork::Shanghai) {
            2 * words(operands[2] as int)
        } else {
            0
        };
        Ok(32000 + hashing + init_code + growth(ctx, operands[1] + operands[2]))
    }
}

/// KECCAK256: offset and size are required; the growth of memory up to
/// the end of the input and 6 per word hashed.
pub open spec fn keccak256_surcharge(ctx: ContextView, operands: Seq<u64>) -> Result<
    int,
    GasError,
> {
    if operands.len() < 2 {
        Err(missing(0x20, 2, operands))
    } else {
        Ok(growth(ctx, operands[0] + operands[1]) + 6 * words(operands[1] as int))
    }
}

/// The number of topics of a LOG opcode: its distance from LOG0.
pub open spec fn topic_count(opcode: u8) -> int {
    opcode - 0xa0
}

/// LOG0 to LOG4: offset and size are required; the growth of memory up
/// to the end of the data, 375 per topic and 8 per byte. Any other byte
/// is no LOG opcode and is unknown to this rule.
pub open spec fn log_surcharge(
    fork: Fork,
    opcode: u8,
    ctx: ContextView,
    operands: Seq<u64>,
) -> Result<int, GasError> {
    if operands.len() < 2 {
        Err(missing(opcode, 2, operands))
    } else if !(0xa0 <= opcode <= 0xa4) {
        Err(GasError::UnknownOpcode { opcode, fork })
    } else {
        Ok(growth(ctx, operands[0] + operands[1]) + 375 * topic_count(opcode) + 8 * operands[1])
    }
}

/// The surcharge of `opcode` at `fork` in the context `ctx`: what is
/// added to the base cost. An opcode that lacks an operand it requires
/// fails with the error of its rule. Opcodes without a rule of their own
/// have no surcharge and require no operand.
pub open spec fn surcharge(fork: Fork, opcode: u8, ctx: ContextView, operands: Seq<u64>) -> Result<
    int,
    GasError,
> {
    match opcode {
        0x54 => sload_surcharge(fork, ctx, operands),
        0x55 => sstore_surcharge(fork, ctx, operands),
        0x5c => tload_surcharge(fork, operands),
        0x5d => tstore_surcharge(fork, operands),
        0x51 | 0x52 | 0x53 => memory_surcharge(fork, opcode, ctx, operands),
        0x5e => mcopy_surcharge(fork, ctx, operands),
        0xf1 | 0xf2 | 0xf4 | 0xfa => call_surcharge(fork, opcode, ctx, operands),
        0x31 | 0x3b | 0x3c | 0x3f => account_access_surcharge(fork, opcode, ctx, operands),
        0x37 | 0x39 | 0x3e => copy_surcharge(opcode, ctx, operands),
        0xf0 | 0xf5 => create_surcharge(fork, opcode, ctx, operands),
        0x20 => keccak256_surcharge(ctx, operands),
        0xa0 | 0xa1 | 0xa2 | 0xa3 | 0xa4 => log_surcharge(fork, opcode, ctx, operands),
        _ => Ok(0),
    }
}

/// How many operands the rule of `opcode` requires at `fork`. SLOAD and
/// the account reads read their operand since Berlin only; opcodes
/// without a rule of their own require none.
pub open spec fn required_operands(fork: Fork, opcode: u8) -> usize {
    match opcode {
        0x54 | 0x31 | 0x3b | 0x3c | 0x3f => if fork.spec_at_least(Fork::Berlin) {
            1
        } else {
            0
        },
        0x55 | 0x5d => 2,
        0x5c | 0x51 | 0x52 | 0x53 => 1,
        0x5e | 0x37 | 0x39 | 0x3e | 0xf0 | 0xf5 => 3,
        0xf1 | 0xf2 | 0xf4 | 0xfa => 7,
        0x20 | 0xa0 | 0xa1 | 0xa2 | 0xa3 | 0xa4 => 2,
        _ => 0,
    }
}

/// The fork supports the opcode, as far as the rules of the surcharges
/// go: TLOAD, TSTORE and MCOPY have theirs since Cancun.
pub open spec fn rule_in_force(fork: Fork, opcode: u8) -> bool {
    !(opcode == 0x5c || opcode == 0x5d || opcode == 0x5e) || fork.spec_at_least(Fork::Cancun)
}

/// An exact amount as the 64-bit value that is handed out for it.
pub open spec fn clamped(r: Result<int, GasError>) -> Result<u64, GasError> {
    match r {
        Ok(amount) => Ok(clamp_u64(amount)),
        Err(e) => Err(e),
    }
}

/// The price of `opcode` at `fork` in the context `ctx`: the base cost
/// in force at the fork plus the surcharge. A byte that the table in
/// effect at the fork does not have is unknown, whatever the operands.
pub open spec fn opcode_cost(
    tables: Seq<Seq<MetadataView>>,
    fork: Fork,
    opcode: u8,
    ctx: ContextView,
    operands: Seq<u64>,
) -> Result<u64, GasError> {
    if !effective_opcodes(tables, fork).contains_key(opcode) {
        Err(GasError::UnknownOpcode { opcode, fork })
    } else {
        match surcharge(fork, opcode, ctx, operands) {
            Ok(extra) => Ok(
                clamp_u64(effective_gas_cost(effective_opcodes(tables, fork)[opcode], fork) + extra),
            ),
            Err(e) => Err(e),
        }
    }
}

/// The context after `opcode` ran: the slot it read or wrote and the
/// account it touched are warm, memory has grown to the end of what it
/// wrote, and a call is one frame deeper. Memory grows with the loads,
/// stores and copies; a size that no `usize` holds counts as the largest.
pub open spec fn after_opcode(ctx: ContextView, opcode: u8, operands: Seq<u64>) -> ContextView {
    match opcode {
        0x54 | 0x55 => if operands.len() >= 1 {
            with_warm_slot(ctx, ctx.current_address, storage_key(operands[0]))
        } else {
            ctx
        },
        0x31 | 0x3b | 0x3c | 0x3f => if operands.len() >= 1 {
            with_warm_address(ctx, address_of(operands[0]))
        } else {
            ctx
        },
        0xf1 | 0xf2 | 0xf4 | 0xfa => if operands.len() >= 2 {
            with_call_entered(with_warm_address(ctx, address_of(operands[1])))
        } else {
            ctx
        },
        0x51 | 0x52 | 0x53 => if operands.len() >= 1 {
            with_memory(ctx, clamp_usize(operands[0] + access_size(opcode)))
        } else {
            ctx
        },
        0x5e | 0x37 | 0x39 | 0x3e => if operands.len() >= 3 {
            with_memory(ctx, clamp_usize(operands[0] + operands[2]))
        } else {
            ctx
        },
        _ => ctx,
    }
}

/// The base cost of a transaction, with which every analysis starts.
pub const BASE_TRANSACTION_COST: u64 = 21000;

/// An opcode that costs more than this gets a warning.
pub const HIGH_COST_THRESHOLD: u64 = 10000;

/// What an analysis has gathered after some opcodes of the sequence.
pub struct AnalysisState {
    pub context: ContextView,
    pub total_gas: u64,
    pub breakdown: Seq<(u8, u64)>,
    pub warnings: Seq<Seq<char>>,
}

/// The state before the first opcode: a fresh context and the base
/// transaction cost.
pub open spec fn initial_state() -> AnalysisState {
    AnalysisState {
        context: initial_context(),
        total_gas: BASE_TRANSACTION_COST,
        breakdown: Seq::empty(),
        warnings: Seq::empty(),
    }
}

/// The warning about an opcode that costs more than the threshold.
pub open spec fn warning_text(name: Seq<char>, opcode: u8, cost: u64) -> Seq<char> {
    "High gas cost operation: "@ + name + " (0x"@ + hex2(opcode) + ") costs "@ + decimal(
        cost as nat,
    ) + " gas"@
}

/// One step of an analysis: the opcode is priced in the context as it
/// stands, the price is added to the total and to the breakdown, a
/// warning is added if the price is above the threshold, and only then
/// the context is updated. An opcode that cannot be priced changes
/// nothing and ends the analysis with its error.
pub open spec fn step(
    tables: Seq<Seq<MetadataView>>,
    fork: Fork,
    state: AnalysisState,
    opcode: u8,
    operands: Seq<u64>,
) -> Result<AnalysisState, GasError> {
    match opcode_cost(tables, fork, opcode, state.context, operands) {
        Err(e) => Err(e),
        Ok(cost) => Ok(
            AnalysisState {
                context: after_opcode(state.context, opcode, operands),
                total_gas: clamp_u64(state.total_gas + cost),
                breakdown: state.breakdown.push((opcode, cost)),
                warnings: if cost > HIGH_COST_THRESHOLD {
                    state.warnings.push(
                        warning_text(effective_opcodes(tables, fork)[opcode].name, opcode, cost),
                    )
                } else {
                    state.warnings
                },
            },
        ),
    }
}

/// The analysis of a sequence, opcode by opcode from the first; it ends
/// with the error of the first opcode that cannot be priced.
pub open spec fn run(
    tables: Seq<Seq<MetadataView>>,
    fork: Fork,
    sequence: Seq<(u8, Seq<u64>)>,
) -> Result<AnalysisState, GasError>
    decreases sequence.len(),
{
    if sequence.len() == 0 {
        Ok(initial_state())
    } else {
        match run(tables, fork, sequence.drop_last()) {
            Err(e) => Err(e),
            Ok(state) => step(tables, fork, state, sequence.last().0, sequence.last().1),
        }
    }
}

/// A sequence of opcodes with their operands, as plain values.
pub open spec fn sequence_view(sequence: Seq<(u8, Vec<u64>)>) -> Seq<(u8, Seq<u64>)> {
    sequence.map_values(|entry: (u8, Vec<u64>)| (entry.0, entry.1@))
}

/// The opcodes of a breakdown, without their prices.
pub open spec fn opcodes_of(breakdown: Seq<(u8, u64)>) -> Seq<u8> {
    breakdown.map_values(|entry: (u8, u64)| entry.0)
}

/// How often `target` occurs among `opcodes`.
pub open spec fn count_of(opcodes: Seq<u8>, target: u8) -> nat
    decreases opcodes.len(),
{
    if opcodes.len() == 0 {
        0
    } else if opcodes.last() == target {
        count_of(opcodes.drop_last(), target) + 1
    } else {
        count_of(opcodes.drop_last(), target)
    }
}

/// The suggestion that two opcodes next to each other give rise to: a
/// DUP followed by a POP, or two SLOADs or two SSTOREs in a row.
pub open spec fn pair_hint(previous: u8, current: u8) -> Option<Seq<char>> {
    if 0x80 <= previous <= 0x8f && current == 0x50 {
        Some("Found DUP followed by POP - consider eliminating redundant operations"@)
    } else if (previous == 0x54 && current == 0x54) || (previous == 0x55 && current == 0x55) {
        Some("Consecutive storage operations detected - consider batching"@)
    } else {
        None
    }
}

/// The suggestions of all pairs of neighbours, in the order of the sequence.
pub open spec fn pair_hints(opcodes: Seq<u8>) -> Seq<Seq<char>>
    decreases opcodes.len(),
{
    if opcodes.len() < 2 {
        Seq::empty()
    } else {
        match pair_hint(opcodes[opcodes.len() - 2], opcodes.last()) {
            Some(hint) => pair_hints(opcodes.drop_last()).push(hint),
            None => pair_hints(opcodes.drop_last()),
        }
    }
}

/// The suggestion made when SLOAD occurs more than three times.
pub open spec fn sload_hint(count: nat) -> Seq<char> {
    "Found "@ + decimal(count)
        + " SLOAD operations - consider caching values in memory or using packed storage"@
}

/// The suggestion made when SSTORE occurs more than twice.
pub open spec fn sstore_hint(count: nat) -> Seq<char> {
    "Found "@ + decimal(count)
        + " SSTORE operations - consider batching writes or using transient storage for temporary values"@
}

/// The suggestions about storage: many SLOADs, then many SSTOREs.
pub open spec fn storage_hints(opcodes: Seq<u8>) -> Seq<Seq<char>> {
    let sloads = if count_of(opcodes, 0x54) > 3 {
        seq![sload_hint(count_of(opcodes, 0x54))]
    } else {
        Seq::empty()
    };
    let sstores = if count_of(opcodes, 0x55) > 2 {
        seq![sstore_hint(count_of(opcodes, 0x55))]
    } else {
        Seq::empty()
    };
    sloads + sstores
}

/// The suggestions about opcodes that the fork offers and the sequence
/// does not use: PUSH0 since Shanghai, and since Cancun TSTORE where
/// the sequence stores.
pub open spec fn fork_hints(fork: Fork, opcodes: Seq<u8>) -> Seq<Seq<char>> {
    let push0 = if fork.spec_at_least(Fork::Shanghai) && count_of(opcodes, 0x5f) == 0 {
        seq![
            "Consider using PUSH0 instead of PUSH1 0x00 to save gas (available since Shanghai)"@,
        ]
    } else {
        Seq::empty()
    };
    let tstore = if fork.spec_at_least(Fork::Cancun) && count_of(opcodes, 0x55) > 0 && count_of(
        opcodes,
        0x5d,
    ) == 0 {
        seq!["Consider using TSTORE for temporary storage to avoid permanent storage costs"@]
    } else {
        Seq::empty()
    };
    push0 + tstore
}

/// The optimization suggestions for a sequence of opcodes at `fork`.
pub open spec fn optimization_hints(fork: Fork, opcodes: Seq<u8>) -> Seq<Seq<char>> {
    storage_hints(opcodes) + pair_hints(opcodes) + fork_hints(fork, opcodes)
}

/// The result of analysing `sequence` at `fork`.
pub open spec fn analysis_of(
    tables: Seq<Seq<MetadataView>>,
    fork: Fork,
    sequence: Seq<(u8, Seq<u64>)>,
) -> Result<AnalysisView, GasError> {
    match run(tables, fork, sequence) {
        Err(e) => Err(e),
        Ok(state) => Ok(
            AnalysisView {
                total_gas: state.total_gas,
                breakdown: state.breakdown,
                warnings: state.warnings,
                context: state.context,
                optimizations: optimization_hints(fork, opcodes_of(state.breakdown)),
            },
        ),
    }
}

/// An analysis that has failed on a prefix of a sequence fails on the
/// sequence with the same error.
pub proof fn lemma_run_error_persists(
    tables: Seq<Seq<MetadataView>>,
    fork: Fork,
    sequence: Seq<(u8, Seq<u64>)>,
    n: int,
)
    requires
        0 <= n <= sequence.len(),
        run(tables, fork, sequence.take(n)) is Err,
    ensures
        run(tables, fork, sequence) == run(tables, fork, sequence.take(n)),
    decreases sequence.len() - n,
{
    if n < sequence.len() {
        assert(sequence.take(n + 1).drop_last() =~= sequence.take(n));
        lemma_run_error_persists(tables, fork, sequence, n + 1);
    } else {
        assert(sequence.take(n) =~= sequence);
    }
}

/// Dynamic gas cost calculator that accounts for execution context.
pub struct DynamicGasCalculator {
    registry: OpcodeRegistry,
    fork: Fork,
}

impl DynamicGasCalculator {
    /// The fork whose rules the calculator applies.
    pub closed spec fn spec_fork(&self) -> Fork {
        self.fork
    }

    /// The opcode tables the calculator reads base costs from.
    pub closed spec fn tables(&self) -> Seq<Seq<MetadataView>> {
        self.registry@
    }

    /// Create a new dynamic gas calculator for a specific fork, over the
    /// standard registry.
    pub fn new(fork: Fork) -> (c: Self)
        ensures
            c.spec_fork() == fork,
            c.tables() == standard_tables(),
    {
        DynamicGasCalculator { registry: OpcodeRegistry::new(), fork }
    }

    /// Create a dynamic gas calculator for a specific fork over the
    /// tables of `registry`.
    pub fn with_registry(registry: OpcodeRegistry, fork: Fork) -> (c: Self)
        ensures
            c.spec_fork() == fork,
            c.tables() == registry@,
    {
        DynamicGasCalculator { registry, fork }
    }

    /// The fork whose rules the calculator applies.
    #[verifier::when_used_as_spec(spec_fork)]
    pub fn fork(&self) -> (f: Fork)
        ensures
            f == self.spec_fork(),
    {
        self.fork
    }

    /// Calculate gas cost for a single opcode with execution context.
    pub fn calculate_gas_cost(
        &self,
        opcode: u8,
        context: &ExecutionContext,
        operands: &[u64],
    ) -> (r: Result<u64, GasError>)
        ensures
            r == opcode_cost(self.tables(), self.spec_fork(), opcode, context@, operands@),
    {
        match self.priced(opcode, context, operands) {
            Ok((cost, _)) => Ok(cost),
            Err(e) => Err(e),
        }
    }

    /// Get base gas cost from metadata with fork-specific adjustments.
    pub fn get_base_gas_cost(&self, metadata: &OpcodeMetadata) -> (cost: u64)
        ensures
            cost == effective_gas_cost(metadata@, self.spec_fork()),
    {
        metadata.effective_gas_cost(self.fork) as u64
    }

    /// Calculate dynamic gas costs based on opcode and context.
    pub fn calculate_dynamic_cost(
        &self,
        opcode: u8,
        _metadata: &OpcodeMetadata,
        context: &ExecutionContext,
        operands: &[u64],
    ) -> (r: Result<u64, GasError>)
        ensures
            r == clamped(surcharge(self.spec_fork(), opcode, context@, operands@)),
    {
        match opcode {
            0x54 => self.calculate_sload_cost(context, operands),
            0x55 => self.calculate_sstore_cost(context, operands),
            0x5c => self.calculate_tload_cost(context, operands),
            0x5d => self.calculate_tstore_cost(context, operands),
            0x51 | 0x52 | 0x53 => self.calculate_memory_cost(opcode, context, operands),
            0x5e => self.calculate_mcopy_cost(context, operands),
            0xf1 | 0xf2 | 0xf4 | 0xfa => self.calculate_call_cost(opcode, context, operands),
            0x31 | 0x3b | 0x3c | 0x3f => self.calculate_account_access_cost(
                opcode,
                context,
                operands,
            ),
            0x37 | 0x39 | 0x3e => self.calculate_copy_cost(opcode, context, operands),
            0xf0 | 0xf5 => self.calculate_create_cost(opcode, context, operands),
            0x20 => self.calculate_keccak256_cost(context, operands),
            0xa0 | 0xa1 | 0xa2 | 0xa3 | 0xa4 => self.calculate_log_cost(opcode, context, operands),
            _ => Ok(0),
        }
    }

    /// Calculate SLOAD gas cost with warm/cold access (EIP-2929).
    pub fn calculate_sload_cost(&self, context: &ExecutionContext, operands: &[u64]) -> (r: Result<
        u64,
        GasError,
    >)
        ensures
            r == clamped(sload_surcharge(self.spec_fork(), context@, operands@)),
    {
        if self.fork.at_least(Fork::Berlin) {
            if operands.len() < 1 {
                return Err(
                    GasError::MissingOperand { opcode: 0x54, needed: 1, given: operands.len() },
                );
            }
            let key = storage_key_bytes(operands[0]);
            if context.is_storage_warm(context.current_address.as_slice(), key.as_slice()) {
                Ok(100)
            } else {
                Ok(2100)
            }
        } else {
            Ok(800)
        }
    }

    /// Calculate SSTORE gas cost: the cold access surcharge of EIP-2929.
    pub fn calculate_sstore_cost(&self, context: &ExecutionContext, operands: &[u64]) -> (r: Result<
        u64,
        GasError,
    >)
        ensures
            r == clamped(sstore_surcharge(self.spec_fork(), context@, operands@)),
    {
        if operands.len() < 2 {
            return Err(GasError::MissingOperand { opcode: 0x55, needed: 2, given: operands.len() });
        }
        if self.fork.at_least(Fork::Berlin) {
            let key = storage_key_bytes(operands[0]);
            if !context.is_storage_warm(context.current_address.as_slice(), key.as_slice()) {
                return Ok(2100);
            }
        }
        Ok(0)
    }

    /// Calculate TLOAD gas cost (transient storage).
    pub fn calculate_tload_cost(&self, _context: &ExecutionContext, operands: &[u64]) -> (r: Result<
        u64,
        GasError,
    >)
        ensures
            r == clamped(tload_surcharge(self.spec_fork(), operands@)),
    {
        if !self.fork.at_least(Fork::Cancun) {
            Err(GasError::UnsupportedOpcode { opcode: 0x5c, fork: self.fork })
        } else if operands.len() < 1 {
            Err(GasError::MissingOperand { opcode: 0x5c, needed: 1, given: operands.len() })
        } else {
            Ok(100)
        }
    }

    /// Calculate TSTORE gas cost (transient storage).
    pub fn calculate_tstore_cost(&self, _context: &ExecutionContext, operands: &[u64]) -> (r:
        Result<u64, GasError>)
        ensures
            r == clamped(tstore_surcharge(self.spec_fork(), operands@)),
    {
        if !self.fork.at_least(Fork::Cancun) {
            Err(GasError::UnsupportedOpcode { opcode: 0x5d, fork: self.fork })
        } else if operands.len() < 2 {
            Err(GasError::MissingOperand { opcode: 0x5d, needed: 2, given: operands.len() })
        } else {
            Ok(100)
        }
    }

    /// Calculate memory operation costs with expansion. `opcode` is
    /// MLOAD or MSTORE for an access of one word and MSTORE8 for an
    /// access of one byte; any other byte is an unknown opcode.
    pub fn calculate_memory_cost(
        &self,
        opcode: u8,
        context: &ExecutionContext,
        operands: &[u64],
    ) -> (r: Result<u64, GasError>)
        ensures
            r == clamped(memory_surcharge(self.spec_fork(), opcode, context@, operands@)),
    {
        if operands.len() < 1 {
            return Err(GasError::MissingOperand { opcode, needed: 1, given: operands.len() });
        }
        if !(0x51 <= opcode && opcode <= 0x53) {
            return Err(GasError::UnknownOpcode { opcode, fork: self.fork });
        }
        let size: u128 = if opcode == 0x53 {
            1
        } else {
            32
        };
        let end: u128 = operands[0] as u128 + size;
        Ok(saturate_u64(price_of_expansion(context.memory_size, end)))
    }

    /// Calculate MCOPY gas cost (EIP-5656, Cancun).
    pub fn calculate_mcopy_cost(&self, context: &ExecutionContext, operands: &[u64]) -> (r: Result<
        u64,
        GasError,
    >)
        ensures
            r == clamped(mcopy_surcharge(self.spec_fork(), context@, operands@)),
    {
        if !self.fork.at_least(Fork::Cancun) {
            return Err(GasError::UnsupportedOpcode { opcode: 0x5e, fork: self.fork });
        }
        if operands.len() < 3 {
            return Err(GasError::MissingOperand { opcode: 0x5e, needed: 3, given: operands.len() });
        }
        let end: u128 = operands[0] as u128 + operands[2] as u128;
        let expansion_cost = price_of_expansion(context.memory_size, end);
        let copy_cost = 3 * word_count(operands[2] as u128);
        Ok(saturate_u64(expansion_cost + copy_cost))
    }

    /// Calculate memory expansion cost (quadratic).
    pub fn calculate_memory_expansion_cost(&self, old_size: usize, new_size: usize) -> (cost: u64)
        ensures
            cost == clamp_u64(expansion_delta(old_size as int, new_size as int)),
    {
        saturate_u64(price_of_expansion(old_size, new_size as u128))
    }

    /// Calculate call operation costs.
    pub fn calculate_call_cost(
        &self,
        opcode: u8,
        context: &ExecutionContext,
        operands: &[u64],
    ) -> (r: Result<u64, GasError>)
        ensures
            r == clamped(call_surcharge(self.spec_fork(), opcode, context@, operands@)),
    {
        if operands.len() < 7 {
            return Err(GasError::MissingOperand { opcode, needed: 7, given: operands.len() });
        }
        let target = address_bytes(operands[1]);
        let is_warm = context.is_address_warm(target.as_slice());
        let value: u64 = if opcode == 0xf1 {
            operands[2]
        } else {
            0
        };
        let mut total_cost: u128 = 0;
        if self.fork.at_least(Fork::Berlin) && !is_warm {
            total_cost += 2600;
        }
        if value > 0 {
            total_cost += 9000;
            if !is_warm {
                total_cost += 25000;
            }
        }
        let args_end: u128 = operands[3] as u128 + operands[4] as u128;
        let ret_end: u128 = operands[5] as u128 + operands[6] as u128;
        let end: u128 = if args_end >= ret_end {
            args_end
        } else {
            ret_end
        };
        total_cost += price_of_expansion(context.memory_size, end);
        Ok(saturate_u64(total_cost))
    }

    /// Calculate account access costs (BALANCE, EXTCODESIZE, etc.).
    pub fn calculate_account_access_cost(
        &self,
        opcode: u8,
        context: &ExecutionContext,
        operands: &[u64],
    ) -> (r: Result<u64, GasError>)
        ensures
            r == clamped(
                account_access_surcharge(self.spec_fork(), opcode, context@, operands@),
            ),
    {
        if self.fork.at_least(Fork::Berlin) {
            if operands.len() < 1 {
                return Err(GasError::MissingOperand { opcode, needed: 1, given: operands.len() });
            }
            let address = address_bytes(operands[0]);
            if context.is_address_warm(address.as_slice()) {
                Ok(100)
            } else {
                Ok(2600)
            }
        } else {
            Ok(0)
        }
    }

    /// Calculate copy operation costs (CALLDATACOPY, CODECOPY, RETURNDATACOPY).
    pub fn calculate_copy_cost(
        &self,
        opcode: u8,
        context: &ExecutionContext,
        operands: &[u64],
    ) -> (r: Result<u64, GasError>)
        ensures
            r == clamped(copy_surcharge(opcode, context@, operands@)),
    {
        if operands.len() < 3 {
            return Err(GasError::MissingOperand { opcode, needed: 3, given: operands.len() });
        }
        let end: u128 = operands[0] as u128 + operands[2] as u128;
        let expansion_cost = price_of_expansion(context.memory_size, end);
        let copy_cost = 3 * word_count(operands[2] as u128);
        Ok(saturate_u64(expansion_cost + copy_cost))
    }

    /// Calculate CREATE/CREATE2 costs. `opcode` is CREATE2 for the
    /// hashing charge; any other byte is priced as CREATE.
    pub fn calculate_create_cost(
        &self,
        opcode: u8,
        context: &ExecutionContext,
        operands: &[u64],
    ) -> (r: Result<u64, GasError>)
        ensures
            r == clamped(create_surcharge(self.spec_fork(), opcode, context@, operands@)),
    {
        if operands.len() < 3 {
            return Err(GasError::MissingOperand { opcode, needed: 3, given: operands.len() });
        }
        let code_words = word_count(operands[2] as u128);
        let mut total_cost: u128 = 32000;
        if opcode == 0xf5 {
            total_cost += 6 * code_words;
        }
        if self.fork.at_least(Fork::Shanghai) {
            total_cost += 2 * code_words;
        }
        let end: u128 = operands[1] as u128 + operands[2] as u128;
        total_cost += price_of_expansion(context.memory_size, end);
        Ok(saturate_u64(total_cost))
    }

    /// Calculate KECCAK256 (SHA3) cost.
    pub fn calculate_keccak256_cost(&self, context: &ExecutionContext, operands: &[u64]) -> (r:
        Result<u64, GasError>)
        ensures
            r == clamped(keccak256_surcharge(context@, operands@)),
    {
        if operands.len() < 2 {
            return Err(
                GasError::MissingOperand { opcode: 0x20, needed: 2, given: operands.len() },
            );
        }
        let end: u128 = operands[0] as u128 + operands[1] as u128;
        let expansion_cost = price_of_expansion(context.memory_size, end);
        let hash_cost = 6 * word_count(operands[1] as u128);
        Ok(saturate_u64(expansion_cost + hash_cost))
    }

    /// Calculate LOG operation costs. `opcode` is one of LOG0 to LOG4;
    /// any other byte is an unknown opcode.
    pub fn calculate_log_cost(
        &self,
        opcode: u8,
        context: &ExecutionContext,
        operands: &[u64],
    ) -> (r: Result<u64, GasError>)
        ensures
            r == clamped(log_surcharge(self.spec_fork(), opcode, context@, operands@)),
    {
        if operands.len() < 2 {
            return Err(GasError::MissingOperand { opcode, needed: 2, given: operands.len() });
        }
        if !(0xa0 <= opcode && opcode <= 0xa4) {
            return Err(GasError::UnknownOpcode { opcode, fork: self.fork });
        }
        let topic_count: u128 = (opcode - 0xa0) as u128;
        let end: u128 = operands[0] as u128 + operands[1] as u128;
        let expansion_cost = price_of_expansion(context.memory_size, end);
        let log_cost = topic_count * 375 + operands[1] as u128 * 8;
        Ok(saturate_u64(expansion_cost + log_cost))
    }

    /// The price of an opcode together with its name in the table.
    fn priced(&self, opcode: u8, context: &ExecutionContext, operands: &[u64]) -> (r: Result<
        (u64, &'static str),
        GasError,
    >)
        ensures
            match opcode_cost(self.tables(), self.spec_fork(), opcode, context@, operands@) {
                Ok(cost) => r is Ok && r->Ok_0.0 == cost && r->Ok_0.1@ == effective_opcodes(
                    self.tables(),
                    self.spec_fork(),
                )[opcode].name,
                Err(e) => r is Err && r->Err_0 == e,
            },
    {
        match self.registry.metadata(self.fork, opcode) {
            Err(e) => Err(e),
            Ok(metadata) => {
                let base_cost = self.get_base_gas_cost(&metadata);
                match self.calculate_dynamic_cost(opcode, &metadata, context, operands) {
                    Err(e) => Err(e),
                    Ok(dynamic_cost) => Ok((base_cost.saturating_add(dynamic_cost), metadata.name)),
                }
            },
        }
    }

    /// Analyze gas characteristics for a sequence of opcodes, each with
    /// its operands.
    ///
    /// The analysis starts from a fresh context and the base transaction
    /// cost. Each opcode is priced in the context that the opcodes before
    /// it left, so it pays the cold or the growing price for its own
    /// occurrence. The first opcode that cannot be priced ends the
    /// analysis with its error.
    pub fn analyze_sequence_gas(&self, opcodes: &[(u8, Vec<u64>)]) -> (r: Result<
        GasAnalysisResult,
        GasError,
    >)
        ensures
            match analysis_of(self.tables(), self.spec_fork(), sequence_view(opcodes@)) {
                Ok(analysis) => r is Ok && r->Ok_0@ == analysis
                    && r->Ok_0.context.lists_each_once(),
                Err(e) => r is Err && r->Err_0 == e,
            },
    {
        let mut context = ExecutionContext::new();
        let mut total_gas: u64 = BASE_TRANSACTION_COST;
        let mut breakdown: Vec<(u8, u64)> = Vec::new();
        let mut warnings: Vec<String> = Vec::new();
        let mut optimizations: Vec<String> = Vec::new();
        let ghost sequence = sequence_view(opcodes@);
        let mut i: usize = 0;
        proof {
            assert(lines(warnings@) =~= Seq::<Seq<char>>::empty());
            assert(sequence.take(0) =~= Seq::<(u8, Seq<u64>)>::empty());
        }
        while i < opcodes.len()
            invariant
                i <= opcodes.len(),
                sequence == sequence_view(opcodes@),
                context.lists_each_once(),
                run(self.tables(), self.spec_fork(), sequence.take(i as int)) == Ok::<
                    AnalysisState,
                    GasError,
                >(
                    AnalysisState {
                        context: context@,
                        total_gas,
                        breakdown: breakdown@,
                        warnings: lines(warnings@),
                    },
                ),
            decreases opcodes.len() - i,
        {
            let opcode = opcodes[i].0;
            let operands = opcodes[i].1.as_slice();
            proof {
                assert(sequence.take(i + 1).drop_last() =~= sequence.take(i as int));
                assert(sequence.take(i + 1).last() == (opcode, operands@));
            }
            match self.priced(opcode, &context, operands) {
                Err(e) => {
                    proof {
                        lemma_run_error_persists(
                            self.tables(),
                            self.spec_fork(),
                            sequence,
                            i + 1,
                        );
                    }
                    return Err(e);
                },
                Ok((gas_cost, name)) => {
                    total_gas = total_gas.saturating_add(gas_cost);
                    breakdown.push((opcode, gas_cost));
                    self.update_context(&mut context, opcode, operands);
                    if gas_cost > HIGH_COST_THRESHOLD {
                        let mut warning = String::from_str("High gas cost operation: ");
                        warning.append(name);
                        warning.append(" (0x");
                        push_hex2(&mut warning, opcode);
                        warning.append(") costs ");
                        push_decimal(&mut warning, gas_cost);
                        warning.append(" gas");
                        proof {
                            lemma_lines_push(warnings@, warning);
                        }
                        warnings.push(warning);
                    }
                },
            }
            i += 1;
        }
        proof {
            assert(sequence.take(opcodes@.len() as int) =~= sequence);
            assert(lines(optimizations@) =~= Seq::<Seq<char>>::empty());
        }
        self.generate_optimizations(breakdown.as_slice(), &mut optimizations);
        proof {
            assert(Seq::<Seq<char>>::empty() + optimization_hints(
                self.spec_fork(),
                opcodes_of(breakdown@),
            ) =~= optimization_hints(self.spec_fork(), opcodes_of(breakdown@)));
        }
        Ok(GasAnalysisResult { total_gas, breakdown, warnings, context, optimizations })
    }

    /// Generate optimization suggestions based on gas usage patterns, and
    /// append them to `optimizations`.
    pub fn generate_optimizations(&self, breakdown: &[(u8, u64)], optimizations: &mut Vec<String>)
        ensures
            lines(final(optimizations)@) == lines(old(optimizations)@) + optimization_hints(
                self.spec_fork(),
                opcodes_of(breakdown@),
            ),
    {
        let ghost opcodes = opcodes_of(breakdown@);
        let ghost start = lines(optimizations@);
        let mut sload_count: usize = 0;
        let mut sstore_count: usize = 0;
        let mut push0_count: usize = 0;
        let mut tstore_count: usize = 0;
        let mut i: usize = 0;
        while i < breakdown.len()
            invariant
                i <= breakdown.len(),
                opcodes == opcodes_of(breakdown@),
                sload_count == count_of(opcodes.take(i as int), 0x54),
                sstore_count == count_of(opcodes.take(i as int), 0x55),
                push0_count == count_of(opcodes.take(i as int), 0x5f),
                tstore_count == count_of(opcodes.take(i as int), 0x5d),
                sload_count <= i,
                sstore_count <= i,
                push0_count <= i,
                tstore_count <= i,
            decreases breakdown.len() - i,
        {
            let opcode = breakdown[i].0;
            proof {
                assert(opcodes.take(i + 1).drop_last() =~= opcodes.take(i as int));
                assert(opcodes.take(i + 1).last() == opcode);
            }
            if opcode == 0x54 {
                sload_count += 1;
            } else if opcode == 0x55 {
                sstore_count += 1;
            } else if opcode == 0x5f {
                push0_count += 1;
            } else if opcode == 0x5d {
                tstore_count += 1;
            }
            i += 1;
        }
        proof {
            assert(opcodes.take(breakdown@.len() as int) =~= opcodes);
        }
        if sload_count > 3 {
            let mut hint = String::from_str("Found ");
            push_decimal(&mut hint, sload_count as u64);
            hint.append(
                " SLOAD operations - consider caching values in memory or using packed storage",
            );
            push_line(optimizations, hint);
        }
        let ghost after_sload = lines(optimizations@);
        if sstore_count > 2 {
            let mut hint = String::from_str("Found ");
            push_decimal(&mut hint, sstore_count as u64);
            hint.append(
                " SSTORE operations - consider batching writes or using transient storage for temporary values",
            );
            push_line(optimizations, hint);
        }
        proof {
            assert(lines(optimizations@) =~= start + storage_hints(opcodes));
            if breakdown.len() > 0 {
                assert(opcodes.take(1).len() < 2);
            }
            assert(lines(optimizations@) + Seq::<Seq<char>>::empty() =~= lines(optimizations@));
        }
        let ghost after_storage = lines(optimizations@);
        let mut j: usize = 1;
        while j < breakdown.len()
            invariant
                1 <= j,
                opcodes == opcodes_of(breakdown@),
                j <= breakdown.len() || breakdown.len() == 0,
                lines(optimizations@) == after_storage + pair_hints(
                    opcodes.take(if breakdown.len() == 0 { 0 } else { j as int }),
                ),
            decreases breakdown.len() - j,
        {
            let previous = breakdown[j - 1].0;
            let current = breakdown[j].0;
            proof {
                let next = opcodes.take(j + 1);
                assert(next.drop_last() =~= opcodes.take(j as int));
                assert(next[next.len() - 2] == previous);
                assert(next.last() == current);
            }
            if 0x80 <= previous && previous <= 0x8f && current == 0x50 {
                push_line(
                    optimizations,
                    String::from_str(
                        "Found DUP followed by POP - consider eliminating redundant operations",
                    ),
                );
            } else if (previous == 0x54 && current == 0x54) || (previous == 0x55 && current
                == 0x55) {
                push_line(
                    optimizations,
                    String::from_str("Consecutive storage operations detected - consider batching"),
                );
            }
            proof {
                assert(lines(optimizations@) =~= after_storage + pair_hints(opcodes.take(j + 1)));
            }
            j += 1;
        }
        proof {
            if breakdown.len() == 0 {
                assert(opcodes.take(0) =~= opcodes);
            } else {
                assert(opcodes.take(breakdown@.len() as int) =~= opcodes);
            }
        }
        let ghost after_pairs = lines(optimizations@);
        if self.fork.at_least(Fork::Shanghai) && push0_count == 0 {
            push_line(
                optimizations,
                String::from_str(
                    "Consider using PUSH0 instead of PUSH1 0x00 to save gas (available since Shanghai)",
                ),
            );
        }
        if self.fork.at_least(Fork::Cancun) && sstore_count > 0 && tstore_count == 0 {
            push_line(
                optimizations,
                String::from_str(
                    "Consider using TSTORE for temporary storage to avoid permanent storage costs",
                ),
            );
        }
        proof {
            assert(lines(optimizations@) =~= after_pairs + fork_hints(self.spec_fork(), opcodes));
            assert(lines(optimizations@) =~= start + optimization_hints(
                self.spec_fork(),
                opcodes,
            ));
        }
    }

    /// Update execution context based on opcode execution.
    pub fn update_context(&self, context: &mut ExecutionContext, opcode: u8, operands: &[u64])
        ensures
            final(context)@ == after_opcode(old(context)@, opcode, operands@),
            old(context).lists_each_once() ==> final(context).lists_each_once(),
    {
        match opcode {
            0x54 | 0x55 => {
                if operands.len() >= 1 {
                    let key = storage_key_bytes(operands[0]);
                    let address = context.current_address.clone();
                    context.mark_storage_accessed(address.as_slice(), key.as_slice());
                }
            },
            0x31 | 0x3b | 0x3c | 0x3f => {
                if operands.len() >= 1 {
                    let address = address_bytes(operands[0]);
                    context.mark_address_accessed(address.as_slice());
                }
            },
            0xf1 | 0xf2 | 0xf4 | 0xfa => {
                if operands.len() >= 2 {
                    let target = address_bytes(operands[1]);
                    context.mark_address_accessed(target.as_slice());
                    context.enter_call();
                }
            },
            0x51 | 0x52 | 0x53 => {
                if operands.len() >= 1 {
                    let size: u128 = if opcode == 0x53 {
                        1
                    } else {
                        32
                    };
                    context.expand_memory(saturate_usize(operands[0] as u128 + size));
                }
            },
            0x5e | 0x37 | 0x39 | 0x3e => {
                if operands.len() >= 3 {
                    context.expand_memory(
                        saturate_usize(operands[0] as u128 + operands[2] as u128),
                    );
                }
            },
            _ => {},
        }
    }
}

/// Since Berlin, an SLOAD of a cold slot has a surcharge of 2100 and
/// leaves the slot warm, so that the next SLOAD of the same slot has a
/// surcharge of 100: the charge never sees its own side effect, and the
/// side effect is there for the next charge.
pub proof fn lemma_sload_cold_then_warm(fork: Fork, ctx: ContextView, key: u64)
    requires
        fork.spec_at_least(Fork::Berlin),
        !slot_is_warm(ctx, key),
    ensures
        sload_surcharge(fork, ctx, seq![key]) == Ok::<int, GasError>(2100),
        sload_surcharge(fork, after_opcode(ctx, 0x54, seq![key]), seq![key]) == Ok::<
            int,
            GasError,
        >(100),
{
}

/// Since Berlin, a slot that is warm stays warm under every SLOAD that
/// follows: each further SLOAD of it has a surcharge of 100.
pub proof fn lemma_sload_stays_warm(fork: Fork, ctx: ContextView, key: u64, other: u64)
    requires
        fork.spec_at_least(Fork::Berlin),
        slot_is_warm(ctx, key),
    ensures
        slot_is_warm(after_opcode(ctx, 0x54, seq![other]), key),
        sload_surcharge(fork, after_opcode(ctx, 0x54, seq![other]), seq![key]) == Ok::<
            int,
            GasError,
        >(100),
{
}

/// Three SLOADs of one slot in a row, on Berlin over the standard
/// registry, are charged 2100, 100 and 100: 2300 on top of the base
/// transaction cost.
pub proof fn lemma_three_sloads_on_berlin(key: u64)
    ensures
        run(
            standard_tables(),
            Fork::Berlin,
            seq![(0x54u8, seq![key]), (0x54u8, seq![key]), (0x54u8, seq![key])],
        ) matches Ok(state) && state.breakdown == seq![
            (0x54u8, 2100u64),
            (0x54u8, 100u64),
            (0x54u8, 100u64),
        ] && state.total_gas == 21000 + 2100 + 100 + 100,
{
    let tables = standard_tables();
    let fork = Fork::Berlin;
    let entry = (0x54u8, seq![key]);
    let three = seq![entry, entry, entry];
    let two = seq![entry, entry];
    let one = seq![entry];
    assert(three.drop_last() =~= two);
    assert(two.drop_last() =~= one);
    assert(one.drop_last() =~= Seq::<(u8, Seq<u64>)>::empty());
    crate::registry::lemma_standard_availability(fork, 0x54);
    let history = crate::tables::table_history(0x54);
    assert(history.last() == (Fork::Berlin, 0u16));
    assert(effective_gas_cost(crate::tables::table_entry(0x54), fork) == 0);
    let s0 = initial_state();
    assert(!slot_is_warm(s0.context, key));
    let none = Seq::<(u8, Seq<u64>)>::empty();
    assert(run(tables, fork, none) == Ok::<AnalysisState, GasError>(s0));
    assert(one.last() == entry && two.last() == entry && three.last() == entry);
    let r1 = run(tables, fork, one);
    assert(run(tables, fork, one.drop_last()) == Ok::<AnalysisState, GasError>(s0));
    assert(r1 == step(tables, fork, s0, 0x54, seq![key]));
    let s1 = r1->Ok_0;
    assert(s1.breakdown =~= seq![(0x54u8, 2100u64)]);
    let r2 = run(tables, fork, two);
    assert(run(tables, fork, two.drop_last()) == r1);
    assert(r2 == step(tables, fork, s1, 0x54, seq![key]));
    let s2 = r2->Ok_0;
    assert(s2.breakdown =~= seq![(0x54u8, 2100u64), (0x54u8, 100u64)]);
    let r3 = run(tables, fork, three);
    assert(run(tables, fork, three.drop_last()) == r2);
    assert(r3 == step(tables, fork, s2, 0x54, seq![key]));
    let s3 = r3->Ok_0;
    assert(s3.breakdown =~= seq![(0x54u8, 2100u64), (0x54u8, 100u64), (0x54u8, 100u64)]);
}

/// Since Shanghai, a CREATE with an init code of 100 bytes has a
/// surcharge of 32000, plus 8 for the four words of init code, plus the
/// growth of memory up to the end of the init code.
pub proof fn lemma_create_with_init_code(fork: Fork, ctx: ContextView, value: u64, offset: u64)
    requires
        fork.spec_at_least(Fork::Shanghai),
    ensures
        create_surcharge(fork, 0xf0, ctx, seq![value, offset, 100u64]) == Ok::<int, GasError>(
            32000 + 8 + growth(ctx, offset + 100),
        ),
{
}

/// Running an opcode never shrinks memory, never makes a warm slot or a
/// warm address cold, never lowers the call depth, and leaves the gas
/// figures, the addresses and the value alone.
pub proof fn lemma_after_opcode_only_grows(ctx: ContextView, opcode: u8, operands: Seq<u64>)
    ensures
        after_opcode(ctx, opcode, operands).memory_size >= ctx.memory_size,
        ctx.warm_storage.subset_of(after_opcode(ctx, opcode, operands).warm_storage),
        ctx.warm_addresses.subset_of(after_opcode(ctx, opcode, operands).warm_addresses),
        after_opcode(ctx, opcode, operands).call_depth >= ctx.call_depth,
        after_opcode(ctx, opcode, operands).gas_remaining == ctx.gas_remaining,
        after_opcode(ctx, opcode, operands).gas_price == ctx.gas_price,
        after_opcode(ctx, opcode, operands).gas_limit == ctx.gas_limit,
        after_opcode(ctx, opcode, operands).is_static == ctx.is_static,
        after_opcode(ctx, opcode, operands).current_address == ctx.current_address,
        after_opcode(ctx, opcode, operands).caller_address == ctx.caller_address,
        after_opcode(ctx, opcode, operands).call_value == ctx.call_value,
{
}

/// No surcharge is negative: the price of an opcode is at least its
/// base cost.
pub proof fn lemma_surcharge_is_not_negative(
    fork: Fork,
    opcode: u8,
    ctx: ContextView,
    operands: Seq<u64>,
)
    requires
        surcharge(fork, opcode, ctx, operands) is Ok,
    ensures
        surcharge(fork, opcode, ctx, operands)->Ok_0 >= 0,
{
    let memory = ctx.memory_size as int;
    if operands.len() >= 1 {
        crate::gas::memory::lemma_expansion_delta(memory, operands[0] + access_size(opcode));
    }
    if operands.len() >= 2 {
        crate::gas::memory::lemma_expansion_delta(memory, operands[0] + operands[1]);
    }
    if operands.len() >= 3 {
        crate::gas::memory::lemma_expansion_delta(memory, operands[0] + operands[2]);
        crate::gas::memory::lemma_expansion_delta(memory, operands[1] + operands[2]);
    }
    if operands.len() >= 7 {
        crate::gas::memory::lemma_expansion_delta(
            memory,
            later_end(operands[3] + operands[4], operands[5] + operands[6]),
        );
    }
}

/// The opcodes of a sequence, without their operands.
pub open spec fn sequence_opcodes(sequence: Seq<(u8, Seq<u64>)>) -> Seq<u8> {
    sequence.map_values(|entry: (u8, Seq<u64>)| entry.0)
}

/// An analysis that succeeds has priced every opcode of the sequence,
/// in order, and its total is at least the base transaction cost.
pub proof fn lemma_run_shape(
    tables: Seq<Seq<MetadataView>>,
    fork: Fork,
    sequence: Seq<(u8, Seq<u64>)>,
)
    requires
        run(tables, fork, sequence) is Ok,
    ensures
        opcodes_of(run(tables, fork, sequence)->Ok_0.breakdown) == sequence_opcodes(sequence),
        run(tables, fork, sequence)->Ok_0.breakdown.len() == sequence.len(),
        run(tables, fork, sequence)->Ok_0.total_gas >= BASE_TRANSACTION_COST,
        run(tables, fork, sequence)->Ok_0.warnings.len() <= sequence.len(),
    decreases sequence.len(),
{
    if sequence.len() > 0 {
        let front = sequence.drop_last();
        lemma_run_shape(tables, fork, front);
        let before = run(tables, fork, front)->Ok_0;
        let after = run(tables, fork, sequence)->Ok_0;
        assert(opcodes_of(after.breakdown) =~= sequence_opcodes(sequence)) by {
            assert forall|i: int| 0 <= i < sequence.len() implies opcodes_of(after.breakdown)[i]
                == sequence_opcodes(sequence)[i] by {
                if i < front.len() {
                    assert(opcodes_of(before.breakdown)[i] == sequence_opcodes(front)[i]);
                }
            }
        }
    } else {
        assert(opcodes_of(initial_state().breakdown) =~= sequence_opcodes(sequence));
    }
}

/// The sequence of `n` SLOADs of the slot that `key` names.
pub open spec fn repeated_sload(key: u64, n: nat) -> Seq<(u8, Seq<u64>)> {
    Seq::new(n, |i: int| (0x54u8, seq![key]))
}

/// Since Berlin, on the standard registry, any number of SLOADs of one
/// slot in a row costs 2100 for the first and 100 for each that follows:
/// the slot is warm from the first SLOAD on and stays warm.
pub proof fn lemma_repeated_sloads(fork: Fork, key: u64, n: nat)
    requires
        fork.spec_at_least(Fork::Berlin),
        n >= 1,
    ensures
        run(standard_tables(), fork, repeated_sload(key, n)) is Ok,
        run(standard_tables(), fork, repeated_sload(key, n))->Ok_0.total_gas == clamp_u64(
            BASE_TRANSACTION_COST + 2100 + 100 * (n - 1),
        ),
        run(standard_tables(), fork, repeated_sload(key, n))->Ok_0.breakdown.len() == n,
        run(standard_tables(), fork, repeated_sload(key, n))->Ok_0.breakdown[0] == (
            0x54u8,
            2100u64,
        ),
        forall|i: int|
            1 <= i < n ==> #[trigger] run(
                standard_tables(),
                fork,
                repeated_sload(key, n),
            )->Ok_0.breakdown[i] == (0x54u8, 100u64),
        slot_is_warm(run(standard_tables(), fork, repeated_sload(key, n))->Ok_0.context, key),
        run(standard_tables(), fork, repeated_sload(key, n))->Ok_0.warnings.len() == 0,
    decreases n,
{
    let tables = standard_tables();
    let sequence = repeated_sload(key, n);
    let front = repeated_sload(key, (n - 1) as nat);
    assert(sequence.drop_last() =~= front);
    assert(sequence.last() == (0x54u8, seq![key]));
    crate::registry::lemma_standard_availability(fork, 0x54);
    let history = crate::tables::table_history(0x54);
    assert(history.last() == (Fork::Berlin, 0u16));
    assert(effective_gas_cost(crate::tables::table_entry(0x54), fork) == 0);
    if n == 1 {
        assert(front =~= Seq::<(u8, Seq<u64>)>::empty());
        let s0 = initial_state();
        assert(run(tables, fork, front) == Ok::<AnalysisState, GasError>(s0));
        assert(!slot_is_warm(s0.context, key));
        assert(run(tables, fork, sequence) == step(tables, fork, s0, 0x54, seq![key]));
    } else {
        lemma_repeated_sloads(fork, key, (n - 1) as nat);
        let before = run(tables, fork, front)->Ok_0;
        assert(run(tables, fork, sequence) == step(tables, fork, before, 0x54, seq![key]));
        let after = run(tables, fork, sequence)->Ok_0;
        assert forall|i: int| 1 <= i < n implies #[trigger] after.breakdown[i] == (
            0x54u8,
            100u64,
        ) by {
            if i < n - 1 {
                assert(after.breakdown[i] == before.breakdown[i]);
            }
        }
        assert(after.breakdown[0] == before.breakdown[0]);
    }
}

/// When a surcharge is owed: an opcode that the fork does not support
/// is refused as unsupported; a supported opcode that got fewer operands
/// than its rule requires is refused for the missing operand; and every
/// other opcode has a surcharge.
pub proof fn lemma_surcharge_is_owed(fork: Fork, opcode: u8, ctx: ContextView, operands: Seq<u64>)
    ensures
        !rule_in_force(fork, opcode) ==> surcharge(fork, opcode, ctx, operands) == Err::<
            int,
            GasError,
        >(GasError::UnsupportedOpcode { opcode, fork }),
        rule_in_force(fork, opcode) && operands.len() < required_operands(fork, opcode)
            ==> surcharge(fork, opcode, ctx, operands) == Err::<int, GasError>(
            missing(opcode, required_operands(fork, opcode), operands),
        ),
        rule_in_force(fork, opcode) && operands.len() >= required_operands(fork, opcode)
            ==> surcharge(fork, opcode, ctx, operands) is Ok,
{
}

} // verus!
