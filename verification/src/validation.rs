//! Validation and verification system for opcode consistency with gas
//! analysis integration.
//!
//! The registry takes its tables as they come; the checks of this module
//! say what is wrong with them.

use vstd::prelude::*;
use vstd::string::StringExecFns;
use crate::fork::{Fork, FORK_COUNT};
use std::collections::HashMap;
use crate::gas::analysis::{
    pattern_suggestions,
    sequence_verdict,
    usage_analysis,
    usage_costs,
    usage_opcodes,
    usage_score,
    GasAnalysis,
    GasAnalyzer,
    GasOptimizationAdvisor,
    UsageView,
};
use crate::gas::recommendations;
use crate::traits::{ForkOpcodes, OpcodeAnalysis};
use crate::gas::calculator::{opcode_cost, DynamicGasCalculator, BASE_TRANSACTION_COST};
use crate::gas::context::{initial_context, with_warm_slot, zero_address, ExecutionContext};
use crate::gas::keys::{storage_key, storage_key_bytes};
use crate::metadata::{MetadataView, OpcodeMetadata};
use crate::registry::{
    effective_opcodes,
    lemma_availability_persists,
    metadata_map_view,
    standard_tables,
    OpcodeRegistry,
};
use crate::tables::{
    canonical_metadata,
    fork_table_view,
    table_below,
    table_defines,
    table_entry,
    table_introduced,
    table_view,
};
use crate::text::{decimal, hex2, lines, push_decimal, push_hex2, push_line, push_lines};

verus! {

/// The checks that look at each record of each fork's own table.
#[derive(Clone, Copy, Debug, PartialEq, Eq, Structural)]
pub enum Check {
    /// No byte occurs twice in the table of one fork.
    Uniqueness,
    /// Base costs are plausible and gas histories chronological.
    GasCosts,
    /// Stack inputs and outputs are plausible, and exact for DUP and SWAP.
    Stack,
    /// Opcodes introduced after Frontier name their EIP.
    EipReferences,
}

/// The fork at an epoch of the timeline; Frontier for a number that is
/// no epoch.
pub open spec fn fork_at(e: int) -> Fork {
    match Fork::spec_from_epoch(e as u8) {
        Some(fork) => fork,
        None => Fork::Frontier,
    }
}

/// The byte of the record at `i` occurs earlier in the table.
pub open spec fn occurs_before(table: Seq<MetadataView>, i: int) -> bool {
    exists|j: int| 0 <= j < i && (#[trigger] table[j]).opcode == table[i].opcode
}

/// What the uniqueness check finds at the record `i`.
pub open spec fn duplicate_finding(fork: Fork, table: Seq<MetadataView>, i: int) -> Seq<Seq<char>> {
    if occurs_before(table, i) {
        seq![
            "Duplicate opcode 0x"@ + hex2(table[i].opcode) + " found in fork "@ + fork.spec_name(),
        ]
    } else {
        Seq::empty()
    }
}

/// What is said of a gas history that steps back in time.
pub open spec fn history_text(m: MetadataView) -> Seq<char> {
    "Gas history for opcode 0x"@ + hex2(m.opcode) + " ("@ + m.name
        + ") is not in chronological order"@
}

/// One finding for each entry among the first `n` of a gas history
/// whose fork is before that of the entry in front of it.
pub open spec fn history_findings(m: MetadataView, n: int) -> Seq<Seq<char>>
    decreases n,
{
    if n <= 1 {
        Seq::empty()
    } else if m.gas_history[n - 1].0.spec_epoch() < m.gas_history[n - 2].0.spec_epoch() {
        history_findings(m, n - 1).push(history_text(m))
    } else {
        history_findings(m, n - 1)
    }
}

/// What the check of gas costs finds at a record: a base cost above
/// 50000, and steps back in time in the gas history.
pub open spec fn gas_cost_finding(fork: Fork, m: MetadataView) -> Seq<Seq<char>> {
    let high = if m.gas_cost > 50000 {
        seq![
            "Unusually high gas cost "@ + decimal(m.gas_cost as nat) + " for opcode 0x"@ + hex2(
                m.opcode,
            ) + " ("@ + m.name + ") in fork "@ + fork.spec_name(),
        ]
    } else {
        Seq::empty()
    };
    high + history_findings(m, m.gas_history.len() as int)
}

/// What is said of a DUP or SWAP with a wrong number of stack items.
pub open spec fn stack_count_text(
    kind: Seq<char>,
    number: int,
    expected: int,
    what: Seq<char>,
    found: u8,
) -> Seq<char> {
    kind + decimal(number as nat) + " opcode should have "@ + decimal(expected as nat) + " stack "@
        + what + ", found "@ + decimal(found as nat)
}

/// What the stack check finds at a record: more than 17 inputs, more
/// than one output for anything but a DUP or a SWAP, and for DUPn and
/// SWAPn inputs and outputs that are not the ones their number gives
/// (DUPn: n in, n + 1 out; SWAPn: n + 1 in, n + 1 out).
pub open spec fn stack_finding(m: MetadataView) -> Seq<Seq<char>> {
    let inputs = if m.stack_inputs > 17 {
        seq![
            "Opcode 0x"@ + hex2(m.opcode) + " ("@ + m.name + ") has more than 17 stack inputs ("@
                + decimal(m.stack_inputs as nat) + "), which exceeds EVM stack limit"@,
        ]
    } else {
        Seq::empty()
    };
    let outputs = if m.stack_outputs > 1 && !(0x80 <= m.opcode <= 0x9f) {
        seq![
            "Non-DUP opcode 0x"@ + hex2(m.opcode) + " ("@ + m.name + ") produces "@ + decimal(
                m.stack_outputs as nat,
            ) + " stack outputs"@,
        ]
    } else {
        Seq::empty()
    };
    let dup_inputs = if 0x80 <= m.opcode <= 0x8f && m.stack_inputs != m.opcode - 0x7f {
        seq![stack_count_text("DUP"@, m.opcode - 0x7f, m.opcode - 0x7f, "inputs"@, m.stack_inputs)]
    } else {
        Seq::empty()
    };
    let dup_outputs = if 0x80 <= m.opcode <= 0x8f && m.stack_outputs != m.opcode - 0x7e {
        seq![
            stack_count_text("DUP"@, m.opcode - 0x7f, m.opcode - 0x7e, "outputs"@, m.stack_outputs),
        ]
    } else {
        Seq::empty()
    };
    let swap_inputs = if 0x90 <= m.opcode <= 0x9f && m.stack_inputs != m.opcode - 0x8e {
        seq![
            stack_count_text("SWAP"@, m.opcode - 0x8f, m.opcode - 0x8e, "inputs"@, m.stack_inputs),
        ]
    } else {
        Seq::empty()
    };
    let swap_outputs = if 0x90 <= m.opcode <= 0x9f && m.stack_outputs != m.opcode - 0x8e {
        seq![
            stack_count_text(
                "SWAP"@,
                m.opcode - 0x8f,
                m.opcode - 0x8e,
                "outputs"@,
                m.stack_outputs,
            ),
        ]
    } else {
        Seq::empty()
    };
    inputs + outputs + dup_inputs + dup_outputs + swap_inputs + swap_outputs
}

/// What the check of EIP references finds at a record: an opcode
/// introduced after Frontier that names no EIP.
pub open spec fn eip_finding(m: MetadataView) -> Seq<Seq<char>> {
    if m.introduced_in.spec_epoch() > Fork::Frontier.spec_epoch() && m.eip is None {
        seq![
            "Opcode 0x"@ + hex2(m.opcode) + " ("@ + m.name + ") introduced in "@
                + m.introduced_in.spec_name() + " is missing EIP reference"@,
        ]
    } else {
        Seq::empty()
    }
}

/// What a check finds at the record `i` of the own table of `fork`.
pub open spec fn finding(check: Check, fork: Fork, table: Seq<MetadataView>, i: int) -> Seq<
    Seq<char>,
> {
    match check {
        Check::Uniqueness => duplicate_finding(fork, table, i),
        Check::GasCosts => gas_cost_finding(fork, table[i]),
        Check::Stack => stack_finding(table[i]),
        Check::EipReferences => eip_finding(table[i]),
    }
}

/// What a check finds at the first `n` records of the own table of `fork`.
pub open spec fn table_findings(check: Check, fork: Fork, table: Seq<MetadataView>, n: int) -> Seq<
    Seq<char>,
>
    decreases n,
{
    if n <= 0 {
        Seq::empty()
    } else {
        table_findings(check, fork, table, n - 1) + finding(check, fork, table, n - 1)
    }
}

/// What a check finds in the own tables of the first `e` epochs, in the
/// order of the timeline and, within a table, of its records.
pub open spec fn registry_findings(check: Check, tables: Seq<Seq<MetadataView>>, e: int) -> Seq<
    Seq<char>,
>
    decreases e,
{
    if e <= 0 {
        Seq::empty()
    } else {
        registry_findings(check, tables, e - 1) + table_findings(
            check,
            fork_at(e - 1),
            tables[e - 1],
            tables[e - 1].len() as int,
        )
    }
}

fn duplicate_findings(fork: Fork, table: &Vec<OpcodeMetadata>, i: usize) -> (r: Vec<String>)
    requires
        i < table@.len(),
    ensures
        lines(r@) == duplicate_finding(fork, table_view(table@), i as int),
{
    let mut r: Vec<String> = Vec::new();
    let ghost view = table_view(table@);
    let mut j: usize = 0;
    let mut seen = false;
    while j < i
        invariant
            j <= i,
            i < table@.len(),
            view == table_view(table@),
            seen <==> exists|k: int| 0 <= k < j && (#[trigger] view[k]).opcode == view[i as int].opcode,
        decreases i - j,
    {
        if table[j].opcode == table[i].opcode {
            assert(view[j as int].opcode == view[i as int].opcode);
            seen = true;
        }
        j += 1;
    }
    if seen {
        let mut text = String::from_str("Duplicate opcode 0x");
        push_hex2(&mut text, table[i].opcode);
        text.append(" found in fork ");
        text.append(fork.name());
        assert(view[i as int].opcode == table@[i as int].opcode);
        push_line(&mut r, text);
    }
    proof {
        assert(lines(r@) =~= duplicate_finding(fork, view, i as int));
    }
    r
}

fn gas_cost_findings(fork: Fork, m: &OpcodeMetadata) -> (r: Vec<String>)
    ensures
        lines(r@) == gas_cost_finding(fork, m@),
{
    let mut r: Vec<String> = Vec::new();
    let ghost none = lines(r@);
    if m.gas_cost > 50000 {
        let mut text = String::from_str("Unusually high gas cost ");
        push_decimal(&mut text, m.gas_cost as u64);
        text.append(" for opcode 0x");
        push_hex2(&mut text, m.opcode);
        text.append(" (");
        text.append(m.name);
        text.append(") in fork ");
        text.append(fork.name());
        push_line(&mut r, text);
    }
    let ghost high = lines(r@);
    let mut k: usize = 1;
    proof {
        assert(none =~= Seq::<Seq<char>>::empty());
        assert(high + history_findings(m@, 1) =~= high);
        assert(high + history_findings(m@, 0) =~= high);
    }
    while k < m.gas_history.len()
        invariant
            1 <= k,
            k <= m.gas_history.len() || m.gas_history.len() == 0,
            lines(r@) == high + history_findings(
                m@,
                if m.gas_history.len() == 0 {
                    0
                } else {
                    k as int
                },
            ),
        decreases m.gas_history.len() - k,
    {
        if !m.gas_history[k].0.at_least(m.gas_history[k - 1].0) {
            let mut text = String::from_str("Gas history for opcode 0x");
            push_hex2(&mut text, m.opcode);
            text.append(" (");
            text.append(m.name);
            text.append(") is not in chronological order");
            push_line(&mut r, text);
        }
        proof {
            assert(lines(r@) =~= high + history_findings(m@, k + 1));
        }
        k += 1;
    }
    r
}

fn stack_count_string(kind: &str, number: u8, expected: u8, what: &str, found: u8) -> (s: String)
    ensures
        s@ == stack_count_text(kind@, number as int, expected as int, what@, found),
{
    let mut s = String::from_str(kind);
    push_decimal(&mut s, number as u64);
    s.append(" opcode should have ");
    push_decimal(&mut s, expected as u64);
    s.append(" stack ");
    s.append(what);
    s.append(", found ");
    push_decimal(&mut s, found as u64);
    s
}

fn stack_findings(m: &OpcodeMetadata) -> (r: Vec<String>)
    ensures
        lines(r@) == stack_finding(m@),
{
    let mut r: Vec<String> = Vec::new();
    let ghost none = lines(r@);
    if m.stack_inputs > 17 {
        let mut text = String::from_str("Opcode 0x");
        push_hex2(&mut text, m.opcode);
        text.append(" (");
        text.append(m.name);
        text.append(") has more than 17 stack inputs (");
        push_decimal(&mut text, m.stack_inputs as u64);
        text.append("), which exceeds EVM stack limit");
        push_line(&mut r, text);
    }
    let is_dup = 0x80 <= m.opcode && m.opcode <= 0x8f;
    let is_swap = 0x90 <= m.opcode && m.opcode <= 0x9f;
    if m.stack_outputs > 1 && !is_dup && !is_swap {
        let mut text = String::from_str("Non-DUP opcode 0x");
        push_hex2(&mut text, m.opcode);
        text.append(" (");
        text.append(m.name);
        text.append(") produces ");
        push_decimal(&mut text, m.stack_outputs as u64);
        text.append(" stack outputs");
        push_line(&mut r, text);
    }
    if is_dup {
        let number = m.opcode - 0x7f;
        if m.stack_inputs != number {
            push_line(&mut r, stack_count_string("DUP", number, number, "inputs", m.stack_inputs));
        }
        if m.stack_outputs != number + 1 {
            push_line(
                &mut r,
                stack_count_string("DUP", number, number + 1, "outputs", m.stack_outputs),
            );
        }
    }
    if is_swap {
        let number = m.opcode - 0x8f;
        if m.stack_inputs != number + 1 {
            push_line(
                &mut r,
                stack_count_string("SWAP", number, number + 1, "inputs", m.stack_inputs),
            );
        }
        if m.stack_outputs != number + 1 {
            push_line(
                &mut r,
                stack_count_string("SWAP", number, number + 1, "outputs", m.stack_outputs),
            );
        }
    }
    proof {
        assert(none =~= Seq::<Seq<char>>::empty());
        assert(lines(r@) =~= stack_finding(m@));
    }
    r
}

fn eip_findings(m: &OpcodeMetadata) -> (r: Vec<String>)
    ensures
        lines(r@) == eip_finding(m@),
{
    let mut r: Vec<String> = Vec::new();
    if m.introduced_in.epoch() > Fork::Frontier.epoch() && m.eip.is_none() {
        let mut text = String::from_str("Opcode 0x");
        push_hex2(&mut text, m.opcode);
        text.append(" (");
        text.append(m.name);
        text.append(") introduced in ");
        text.append(m.introduced_in.name());
        text.append(" is missing EIP reference");
        push_line(&mut r, text);
    }
    proof {
        assert(lines(r@) =~= eip_finding(m@));
    }
    r
}

/// What `check` finds in the own tables of a registry.
pub fn run_check(registry: &OpcodeRegistry, check: Check) -> (r: Vec<String>)
    ensures
        lines(r@) == registry_findings(check, registry@, FORK_COUNT as int),
{
    let mut r: Vec<String> = Vec::new();
    let mut e: u8 = 0;
    proof {
        assert(lines(r@) =~= registry_findings(check, registry@, 0));
    }
    while e < FORK_COUNT
        invariant
            e <= FORK_COUNT,
            lines(r@) == registry_findings(check, registry@, e as int),
        decreases FORK_COUNT - e,
    {
        let fork = match Fork::from_epoch(e) {
            Some(fork) => fork,
            None => Fork::Frontier,
        };
        let table = registry.own_table(fork);
        let ghost view = registry@[e as int];
        let ghost before = lines(r@);
        let mut i: usize = 0;
        proof {
            assert(before + table_findings(check, fork, view, 0) =~= before);
        }
        while i < table.len()
            invariant
                i <= table.len(),
                view == table_view(table@),
                lines(r@) == before + table_findings(check, fork, view, i as int),
            decreases table.len() - i,
        {
            let found = match check {
                Check::Uniqueness => duplicate_findings(fork, table, i),
                Check::GasCosts => gas_cost_findings(fork, &table[i]),
                Check::Stack => stack_findings(&table[i]),
                Check::EipReferences => eip_findings(&table[i]),
            };
            proof {
                assert(view[i as int] == table@[i as int]@);
                assert(lines(found@) == finding(check, fork, view, i as int));
                assert(before + table_findings(check, fork, view, i as int) + lines(found@)
                    =~= before + table_findings(check, fork, view, i + 1));
            }
            push_lines(&mut r, found);
            i += 1;
        }
        e += 1;
    }
    r
}

/// The forks that have an opcode table of their own, in the order of
/// the timeline.
pub open spec fn known_forks() -> Seq<Fork> {
    seq![
        Fork::Frontier,
        Fork::Homestead,
        Fork::Byzantium,
        Fork::Constantinople,
        Fork::Istanbul,
        Fork::Berlin,
        Fork::London,
        Fork::Shanghai,
        Fork::Cancun,
    ]
}

/// The forks that have an opcode table of their own.
pub fn known_fork_list() -> (forks: Vec<Fork>)
    ensures
        forks@ == known_forks(),
{
    let forks = vec![
        Fork::Frontier,
        Fork::Homestead,
        Fork::Byzantium,
        Fork::Constantinople,
        Fork::Istanbul,
        Fork::Berlin,
        Fork::London,
        Fork::Shanghai,
        Fork::Cancun,
    ];
    proof {
        assert(forks@ =~= known_forks());
    }
    forks
}

/// What the inheritance check finds for one byte: an opcode of the
/// earlier fork, introduced by then, that the later fork lacks.
pub open spec fn inheritance_finding(
    tables: Seq<Seq<MetadataView>>,
    previous: Fork,
    current: Fork,
    byte: u8,
) -> Seq<Seq<char>> {
    let earlier = effective_opcodes(tables, previous);
    if earlier.contains_key(byte) && earlier[byte].introduced_in.spec_epoch()
        <= previous.spec_epoch() && !effective_opcodes(tables, current).contains_key(byte) {
        seq![
            "Opcode 0x"@ + hex2(byte) + " ("@ + earlier[byte].name + ") missing from fork "@
                + current.spec_name() + " but exists in "@ + previous.spec_name(),
        ]
    } else {
        Seq::empty()
    }
}

/// What the inheritance check finds for the bytes below `bound`.
pub open spec fn inheritance_findings_below(
    tables: Seq<Seq<MetadataView>>,
    previous: Fork,
    current: Fork,
    bound: int,
) -> Seq<Seq<char>>
    decreases bound,
{
    if bound <= 0 {
        Seq::empty()
    } else {
        inheritance_findings_below(tables, previous, current, bound - 1) + inheritance_finding(
            tables,
            previous,
            current,
            (bound - 1) as u8,
        )
    }
}

/// What the inheritance check finds between each of the first `n` known
/// forks and the one before it.
pub open spec fn inheritance_findings(tables: Seq<Seq<MetadataView>>, n: int) -> Seq<Seq<char>>
    decreases n,
{
    if n <= 1 {
        Seq::empty()
    } else {
        inheritance_findings(tables, n - 1) + inheritance_findings_below(
            tables,
            known_forks()[n - 2],
            known_forks()[n - 1],
            256,
        )
    }
}

/// Between a fork and a later one the inheritance check finds nothing,
/// whatever the tables hold: the table in effect at a fork has every
/// opcode of the tables before it.
pub proof fn lemma_inheritance_holds(
    tables: Seq<Seq<MetadataView>>,
    previous: Fork,
    current: Fork,
    bound: int,
)
    requires
        previous.spec_epoch() <= current.spec_epoch(),
    ensures
        inheritance_findings_below(tables, previous, current, bound).len() == 0,
    decreases bound,
{
    if bound > 0 {
        lemma_inheritance_holds(tables, previous, current, bound - 1);
        let byte = (bound - 1) as u8;
        if effective_opcodes(tables, previous).contains_key(byte) {
            lemma_availability_persists(tables, previous, current, byte);
        }
    }
}

/// The inheritance check finds nothing in any registry.
pub proof fn lemma_no_inheritance_findings(tables: Seq<Seq<MetadataView>>, n: int)
    requires
        n <= known_forks().len(),
    ensures
        inheritance_findings(tables, n).len() == 0,
    decreases n,
{
    if n > 1 {
        lemma_no_inheritance_findings(tables, n - 1);
        lemma_inheritance_holds(tables, known_forks()[n - 2], known_forks()[n - 1], 256);
    }
}

/// An opcode and the fork that is known to have introduced it.
pub struct Introduction {
    /// The opcode byte
    pub opcode: u8,
    /// The fork that introduced it
    pub fork: Fork,
    /// Its mnemonic
    pub name: &'static str,
}

/// The introductions that history records for the opcodes that came
/// after Frontier, as (byte, fork, mnemonic).
pub open spec fn known_introductions() -> Seq<(u8, Fork, Seq<char>)> {
    seq![
        (0xf4u8, Fork::Homestead, "DELEGATECALL"@),
        (0x3du8, Fork::Byzantium, "RETURNDATASIZE"@),
        (0x3eu8, Fork::Byzantium, "RETURNDATACOPY"@),
        (0xfau8, Fork::Byzantium, "STATICCALL"@),
        (0xfdu8, Fork::Byzantium, "REVERT"@),
        (0x1bu8, Fork::Constantinople, "SHL"@),
        (0x1cu8, Fork::Constantinople, "SHR"@),
        (0x1du8, Fork::Constantinople, "SAR"@),
        (0x3fu8, Fork::Constantinople, "EXTCODEHASH"@),
        (0xf5u8, Fork::Constantinople, "CREATE2"@),
        (0x5fu8, Fork::Shanghai, "PUSH0"@),
        (0x5cu8, Fork::Cancun, "TLOAD"@),
        (0x5du8, Fork::Cancun, "TSTORE"@),
        (0x5eu8, Fork::Cancun, "MCOPY"@),
        (0x49u8, Fork::Cancun, "BLOBHASH"@),
        (0x4au8, Fork::Cancun, "BLOBBASEFEE"@),
    ]
}

/// An introduction as plain values.
pub open spec fn introduction_view(i: Introduction) -> (u8, Fork, Seq<char>) {
    (i.opcode, i.fork, i.name@)
}

fn known_introduction_list() -> (list: Vec<Introduction>)
    ensures
        list@.map_values(|i: Introduction| introduction_view(i)) == known_introductions(),
{
    let list = vec![
        Introduction { opcode: 0xf4, fork: Fork::Homestead, name: "DELEGATECALL" },
        Introduction { opcode: 0x3d, fork: Fork::Byzantium, name: "RETURNDATASIZE" },
        Introduction { opcode: 0x3e, fork: Fork::Byzantium, name: "RETURNDATACOPY" },
        Introduction { opcode: 0xfa, fork: Fork::Byzantium, name: "STATICCALL" },
        Introduction { opcode: 0xfd, fork: Fork::Byzantium, name: "REVERT" },
        Introduction { opcode: 0x1b, fork: Fork::Constantinople, name: "SHL" },
        Introduction { opcode: 0x1c, fork: Fork::Constantinople, name: "SHR" },
        Introduction { opcode: 0x1d, fork: Fork::Constantinople, name: "SAR" },
        Introduction { opcode: 0x3f, fork: Fork::Constantinople, name: "EXTCODEHASH" },
        Introduction { opcode: 0xf5, fork: Fork::Constantinople, name: "CREATE2" },
        Introduction { opcode: 0x5f, fork: Fork::Shanghai, name: "PUSH0" },
        Introduction { opcode: 0x5c, fork: Fork::Cancun, name: "TLOAD" },
        Introduction { opcode: 0x5d, fork: Fork::Cancun, name: "TSTORE" },
        Introduction { opcode: 0x5e, fork: Fork::Cancun, name: "MCOPY" },
        Introduction { opcode: 0x49, fork: Fork::Cancun, name: "BLOBHASH" },
        Introduction { opcode: 0x4a, fork: Fork::Cancun, name: "BLOBBASEFEE" },
    ];
    proof {
        assert(list@.map_values(|i: Introduction| introduction_view(i)) =~= known_introductions());
    }
    list
}

/// What the check of history finds for one known introduction: the
/// latest table lacks the opcode, or records another fork for it.
pub open spec fn historical_finding(latest: Map<u8, MetadataView>, known: (u8, Fork, Seq<char>)) -> Seq<
    Seq<char>,
> {
    if !latest.contains_key(known.0) {
        seq![
            "Missing expected opcode 0x"@ + hex2(known.0) + " ("@ + known.2 + ") introduced in "@
                + known.1.spec_name(),
        ]
    } else if latest[known.0].introduced_in != known.1 {
        seq![
            "Opcode 0x"@ + hex2(known.0) + " ("@ + known.2 + ") should be introduced in "@
                + known.1.spec_name() + " but found in "@ + latest[known.0].introduced_in.spec_name(),
        ]
    } else {
        Seq::empty()
    }
}

/// What the check of history finds for the first `n` known introductions.
pub open spec fn historical_findings(latest: Map<u8, MetadataView>, n: int) -> Seq<Seq<char>>
    decreases n,
{
    if n <= 0 {
        Seq::empty()
    } else {
        historical_findings(latest, n - 1) + historical_finding(
            latest,
            known_introductions()[n - 1],
        )
    }
}

/// The sequence that the gas analysis is tried on: ADD, MUL, SUB.
pub open spec fn trial_sequence() -> Seq<u8> {
    seq![0x01u8, 0x02u8, 0x03u8]
}

/// The forks at which the gas analysis is tried.
pub open spec fn trial_forks() -> Seq<Fork> {
    seq![Fork::Frontier, Fork::Berlin, Fork::London, Fork::Shanghai, Fork::Cancun]
}

/// What the trial of the gas analysis finds at one fork: a total below
/// the base transaction cost, or a breakdown that is not as long as the
/// sequence.
pub open spec fn integration_finding(fork: Fork) -> Seq<Seq<char>> {
    let analysis = usage_analysis(fork, trial_sequence());
    if analysis.total_gas < BASE_TRANSACTION_COST {
        seq![
            "Gas analysis validation failed for "@ + fork.spec_name()
                + ": Gas analysis returned less than base transaction cost"@,
        ]
    } else if analysis.breakdown.len() != trial_sequence().len() {
        seq![
            "Gas analysis validation failed for "@ + fork.spec_name()
                + ": Gas breakdown length doesn't match sequence length"@,
        ]
    } else {
        Seq::empty()
    }
}

/// What the trial of the gas analysis finds at the first `n` trial forks.
pub open spec fn integration_findings(n: int) -> Seq<Seq<char>>
    decreases n,
{
    if n <= 0 {
        Seq::empty()
    } else {
        integration_findings(n - 1) + integration_finding(trial_forks()[n - 1])
    }
}

/// All errors of a registry: what the checks of uniqueness, of
/// inheritance, of history, of gas costs and of stack behaviour find,
/// and what the trial of the gas analysis finds, in this order.
pub open spec fn registry_errors(tables: Seq<Seq<MetadataView>>) -> Seq<Seq<char>> {
    registry_findings(Check::Uniqueness, tables, FORK_COUNT as int) + inheritance_findings(
        tables,
        known_forks().len() as int,
    ) + historical_findings(
        effective_opcodes(tables, Fork::Cancun),
        known_introductions().len() as int,
    ) + registry_findings(Check::GasCosts, tables, FORK_COUNT as int) + registry_findings(
        Check::Stack,
        tables,
        FORK_COUNT as int,
    ) + integration_findings(trial_forks().len() as int)
}

/// Ensure no opcode is defined twice in the same fork.
pub fn validate_opcode_uniqueness(registry: &OpcodeRegistry) -> (errors: Vec<String>)
    ensures
        lines(errors@) == registry_findings(Check::Uniqueness, registry@, FORK_COUNT as int),
{
    run_check(registry, Check::Uniqueness)
}

/// Validate that forks properly inherit opcodes from previous forks.
/// The check finds nothing, whatever the registry holds.
pub fn validate_fork_inheritance(registry: &OpcodeRegistry) -> (errors: Vec<String>)
    ensures
        lines(errors@) == inheritance_findings(registry@, known_forks().len() as int),
        errors@.len() == 0,
{
    let mut errors: Vec<String> = Vec::new();
    let fork_order = known_fork_list();
    let mut i: usize = 1;
    proof {
        assert(lines(errors@) =~= inheritance_findings(registry@, 1));
    }
    while i < fork_order.len()
        invariant
            1 <= i <= fork_order.len(),
            fork_order@ == known_forks(),
            lines(errors@) == inheritance_findings(registry@, i as int),
        decreases fork_order.len() - i,
    {
        let current_fork = fork_order[i];
        let previous_fork = fork_order[i - 1];
        let current_opcodes = registry.get_opcodes(current_fork);
        let previous_opcodes = registry.get_opcodes(previous_fork);
        let ghost before = lines(errors@);
        let ghost earlier = effective_opcodes(registry@, previous_fork);
        let ghost later = effective_opcodes(registry@, current_fork);
        let mut b: u16 = 0;
        proof {
            assert(before + inheritance_findings_below(registry@, previous_fork, current_fork, 0)
                =~= before);
        }
        while b < 256
            invariant
                b <= 256,
                metadata_map_view(previous_opcodes@) == earlier,
                metadata_map_view(current_opcodes@) == later,
                earlier == effective_opcodes(registry@, previous_fork),
                later == effective_opcodes(registry@, current_fork),
                lines(errors@) == before + inheritance_findings_below(
                    registry@,
                    previous_fork,
                    current_fork,
                    b as int,
                ),
            decreases 256 - b,
        {
            let byte = b as u8;
            let ghost so_far = lines(errors@);
            proof {
                assert(earlier.contains_key(byte) <==> previous_opcodes@.contains_key(byte));
                assert(later.contains_key(byte) <==> current_opcodes@.contains_key(byte));
            }
            match previous_opcodes.get(&byte) {
                Some(metadata) => {
                    proof {
                        assert(earlier[byte] == previous_opcodes@[byte]@);
                    }
                    if previous_fork.at_least(metadata.introduced_in)
                        && !current_opcodes.contains_key(&byte) {
                        let mut text = String::from_str("Opcode 0x");
                        push_hex2(&mut text, byte);
                        text.append(" (");
                        text.append(metadata.name);
                        text.append(") missing from fork ");
                        text.append(current_fork.name());
                        text.append(" but exists in ");
                        text.append(previous_fork.name());
                        push_line(&mut errors, text);
                    }
                },
                None => {},
            }
            proof {
                assert(lines(errors@) =~= so_far + inheritance_finding(
                    registry@,
                    previous_fork,
                    current_fork,
                    byte,
                ));
                assert(lines(errors@) =~= before + inheritance_findings_below(
                    registry@,
                    previous_fork,
                    current_fork,
                    b + 1,
                ));
            }
            b += 1;
        }
        i += 1;
    }
    proof {
        lemma_no_inheritance_findings(registry@, known_forks().len() as int);
    }
    errors
}

/// Validate historical accuracy against known opcode introductions.
pub fn validate_historical_accuracy(registry: &OpcodeRegistry) -> (errors: Vec<String>)
    ensures
        lines(errors@) == historical_findings(
            effective_opcodes(registry@, Fork::Cancun),
            known_introductions().len() as int,
        ),
{
    let mut errors: Vec<String> = Vec::new();
    let known = known_introduction_list();
    let all_opcodes = registry.get_opcodes(Fork::Cancun);
    let ghost latest = effective_opcodes(registry@, Fork::Cancun);
    let mut i: usize = 0;
    proof {
        assert(lines(errors@) =~= historical_findings(latest, 0));
    }
    while i < known.len()
        invariant
            i <= known.len(),
            known@.map_values(|i: Introduction| introduction_view(i)) == known_introductions(),
            metadata_map_view(all_opcodes@) == latest,
            lines(errors@) == historical_findings(latest, i as int),
        decreases known.len() - i,
    {
        let opcode = known[i].opcode;
        let expected = known[i].fork;
        let name = known[i].name;
        let ghost before = lines(errors@);
        proof {
            assert(known@.map_values(|i: Introduction| introduction_view(i))[i as int]
                == introduction_view(known@[i as int]));
            assert(latest.contains_key(opcode) <==> all_opcodes@.contains_key(opcode));
        }
        match all_opcodes.get(&opcode) {
            Some(metadata) => {
                proof {
                    assert(latest[opcode] == all_opcodes@[opcode]@);
                }
                if metadata.introduced_in != expected {
                    let mut text = String::from_str("Opcode 0x");
                    push_hex2(&mut text, opcode);
                    text.append(" (");
                    text.append(name);
                    text.append(") should be introduced in ");
                    text.append(expected.name());
                    text.append(" but found in ");
                    text.append(metadata.introduced_in.name());
                    push_line(&mut errors, text);
                }
            },
            None => {
                let mut text = String::from_str("Missing expected opcode 0x");
                push_hex2(&mut text, opcode);
                text.append(" (");
                text.append(name);
                text.append(") introduced in ");
                text.append(expected.name());
                push_line(&mut errors, text);
            },
        }
        proof {
            assert(lines(errors@) =~= before + historical_finding(
                latest,
                known_introductions()[i as int],
            ));
        }
        i += 1;
    }
    errors
}

/// Validate gas cost consistency and historical changes.
pub fn validate_gas_cost_consistency(registry: &OpcodeRegistry) -> (errors: Vec<String>)
    ensures
        lines(errors@) == registry_findings(Check::GasCosts, registry@, FORK_COUNT as int),
{
    run_check(registry, Check::GasCosts)
}

/// Validate stack input/output consistency.
pub fn validate_stack_consistency(registry: &OpcodeRegistry) -> (errors: Vec<String>)
    ensures
        lines(errors@) == registry_findings(Check::Stack, registry@, FORK_COUNT as int),
{
    run_check(registry, Check::Stack)
}

/// Validate integration with gas analysis system: the analysis of a
/// short sequence is tried at several forks of the standard registry.
pub fn validate_gas_analysis_integration(_registry: &OpcodeRegistry) -> (errors: Vec<String>)
    ensures
        lines(errors@) == integration_findings(trial_forks().len() as int),
{
    let mut errors: Vec<String> = Vec::new();
    let test_sequence: Vec<u8> = vec![0x01u8, 0x02u8, 0x03u8];
    let forks = vec![Fork::Frontier, Fork::Berlin, Fork::London, Fork::Shanghai, Fork::Cancun];
    let mut i: usize = 0;
    proof {
        assert(test_sequence@ =~= trial_sequence());
        assert(forks@ =~= trial_forks());
        assert(lines(errors@) =~= integration_findings(0));
    }
    while i < forks.len()
        invariant
            i <= forks.len(),
            forks@ == trial_forks(),
            test_sequence@ == trial_sequence(),
            lines(errors@) == integration_findings(i as int),
        decreases forks.len() - i,
    {
        let fork = forks[i];
        let analysis = GasAnalyzer::analyze_gas_usage(test_sequence.as_slice(), fork);
        let ghost before = lines(errors@);
        if analysis.total_gas < BASE_TRANSACTION_COST {
            let mut text = String::from_str("Gas analysis validation failed for ");
            text.append(fork.name());
            text.append(": Gas analysis returned less than base transaction cost");
            push_line(&mut errors, text);
        } else if analysis.breakdown.len() != test_sequence.len() {
            let mut text = String::from_str("Gas analysis validation failed for ");
            text.append(fork.name());
            text.append(": Gas breakdown length doesn't match sequence length");
            push_line(&mut errors, text);
        }
        proof {
            assert(lines(errors@) =~= before + integration_finding(fork));
        }
        i += 1;
    }
    errors
}

/// Validate the entire opcode registry for consistency.
pub fn validate_registry(registry: &OpcodeRegistry) -> (r: Result<(), Vec<String>>)
    ensures
        match r {
            Ok(_) => registry_errors(registry@).len() == 0,
            Err(errors) => lines(errors@) == registry_errors(registry@) && errors@.len() > 0,
        },
{
    let mut errors: Vec<String> = Vec::new();
    proof {
        assert(lines(errors@) =~= Seq::<Seq<char>>::empty());
    }
    push_lines(&mut errors, validate_opcode_uniqueness(registry));
    push_lines(&mut errors, validate_fork_inheritance(registry));
    push_lines(&mut errors, validate_historical_accuracy(registry));
    push_lines(&mut errors, validate_gas_cost_consistency(registry));
    push_lines(&mut errors, validate_stack_consistency(registry));
    push_lines(&mut errors, validate_gas_analysis_integration(registry));
    proof {
        assert(lines(errors@) =~= registry_errors(registry@));
        assert(lines(errors@).len() == errors@.len());
    }
    if errors.len() == 0 {
        Ok(())
    } else {
        Err(errors)
    }
}

/// A change of gas cost that history records.
pub struct KnownGasChange {
    /// Opcode byte
    pub opcode: u8,
    /// Fork where change occurred
    pub fork: Fork,
    /// Old gas cost
    pub old_cost: u16,
    /// New gas cost
    pub new_cost: u16,
    /// Reason for change
    pub reason: &'static str,
}

/// A known change as plain values.
pub struct KnownGasChangeView {
    pub opcode: u8,
    pub fork: Fork,
    pub old_cost: u16,
    pub new_cost: u16,
    pub reason: Seq<char>,
}

impl View for KnownGasChange {
    type V = KnownGasChangeView;

    open spec fn view(&self) -> KnownGasChangeView {
        KnownGasChangeView {
            opcode: self.opcode,
            fork: self.fork,
            old_cost: self.old_cost,
            new_cost: self.new_cost,
            reason: self.reason@,
        }
    }
}

/// A change that Berlin made with EIP-2929.
pub open spec fn berlin_change(opcode: u8, old_cost: u16, new_cost: u16) -> KnownGasChangeView {
    KnownGasChangeView {
        opcode,
        fork: Fork::Berlin,
        old_cost,
        new_cost,
        reason: "EIP-2929: Gas cost increases for state access opcodes"@,
    }
}

/// The known changes of gas cost: those of EIP-2929 for SLOAD, BALANCE,
/// EXTCODESIZE, EXTCODECOPY and EXTCODEHASH.
pub open spec fn known_gas_changes() -> Seq<KnownGasChangeView> {
    seq![
        berlin_change(0x54, 800, 2100),
        berlin_change(0x31, 400, 2600),
        berlin_change(0x3b, 700, 2600),
        berlin_change(0x3c, 700, 2600),
        berlin_change(0x3f, 400, 2600),
    ]
}

fn new_berlin_change(opcode: u8, old_cost: u16, new_cost: u16) -> (c: KnownGasChange)
    ensures
        c@ == berlin_change(opcode, old_cost, new_cost),
{
    KnownGasChange {
        opcode,
        fork: Fork::Berlin,
        old_cost,
        new_cost,
        reason: "EIP-2929: Gas cost increases for state access opcodes",
    }
}

fn known_gas_change_list() -> (list: Vec<KnownGasChange>)
    ensures
        list@.map_values(|c: KnownGasChange| c@) == known_gas_changes(),
{
    let mut list: Vec<KnownGasChange> = Vec::new();
    list.push(new_berlin_change(0x54, 800, 2100));
    list.push(new_berlin_change(0x31, 400, 2600));
    list.push(new_berlin_change(0x3b, 700, 2600));
    list.push(new_berlin_change(0x3c, 700, 2600));
    list.push(new_berlin_change(0x3f, 400, 2600));
    proof {
        assert(list@.map_values(|c: KnownGasChange| c@) =~= known_gas_changes());
    }
    list
}

/// The fork that immediately precedes `fork`; Frontier precedes itself.
pub open spec fn previous_fork(fork: Fork) -> Fork {
    if fork.spec_epoch() == 0 {
        Fork::Frontier
    } else {
        fork_at(fork.spec_epoch() - 1)
    }
}

/// Get the fork that immediately precedes the given fork.
pub fn get_previous_fork(fork: Fork) -> (previous: Fork)
    ensures
        previous == previous_fork(fork),
{
    let e = fork.epoch();
    if e == 0 {
        Fork::Frontier
    } else {
        match Fork::from_epoch(e - 1) {
            Some(previous) => previous,
            None => Fork::Frontier,
        }
    }
}

/// The cost of the first entry of `history`, from the position `from`
/// on, that is for `fork`.
pub open spec fn cost_recorded_at(history: Seq<(Fork, u16)>, fork: Fork, from: int) -> Option<u16>
    decreases history.len() - from,
{
    if from < 0 || from >= history.len() {
        None
    } else if history[from].0 == fork {
        Some(history[from].1)
    } else {
        cost_recorded_at(history, fork, from + 1)
    }
}

/// The cost that a record shows for `fork`: the one its history has for
/// that very fork, and without one its base cost.
pub open spec fn cost_shown_at(m: MetadataView, fork: Fork) -> u16 {
    match cost_recorded_at(m.gas_history, fork, 0) {
        Some(cost) => cost,
        None => m.gas_cost,
    }
}

/// What the check of a known change finds, where the opcode exists
/// before and at the fork of the change: a base cost before the fork
/// that is not the old cost, and a cost shown for the fork that is not
/// the new one.
pub open spec fn known_change_finding(tables: Seq<Seq<MetadataView>>, change: KnownGasChangeView) -> Seq<
    Seq<char>,
> {
    let before = effective_opcodes(tables, previous_fork(change.fork));
    let after = effective_opcodes(tables, change.fork);
    if before.contains_key(change.opcode) && after.contains_key(change.opcode) {
        let old = if before[change.opcode].gas_cost != change.old_cost {
            seq![
                "Expected gas cost "@ + decimal(change.old_cost as nat) + " for opcode 0x"@ + hex2(
                    change.opcode,
                ) + " before fork "@ + change.fork.spec_name() + ", found "@ + decimal(
                    before[change.opcode].gas_cost as nat,
                ),
            ]
        } else {
            Seq::empty()
        };
        let new = if cost_shown_at(after[change.opcode], change.fork) != change.new_cost {
            seq![
                "Expected gas cost "@ + decimal(change.new_cost as nat) + " for opcode 0x"@ + hex2(
                    change.opcode,
                ) + " after fork "@ + change.fork.spec_name() + ", found "@ + decimal(
                    cost_shown_at(after[change.opcode], change.fork) as nat,
                ) + ". Reason: "@ + change.reason,
            ]
        } else {
            Seq::empty()
        };
        old + new
    } else {
        Seq::empty()
    }
}

/// What the check of the first `n` known changes finds.
pub open spec fn known_change_findings(tables: Seq<Seq<MetadataView>>, n: int) -> Seq<Seq<char>>
    decreases n,
{
    if n <= 0 {
        Seq::empty()
    } else {
        known_change_findings(tables, n - 1) + known_change_finding(
            tables,
            known_gas_changes()[n - 1],
        )
    }
}

fn recorded_cost(m: &OpcodeMetadata, fork: Fork) -> (cost: u16)
    ensures
        cost == cost_shown_at(m@, fork),
{
    let mut i: usize = 0;
    while i < m.gas_history.len()
        invariant
            i <= m.gas_history.len(),
            cost_recorded_at(m@.gas_history, fork, 0) == cost_recorded_at(
                m@.gas_history,
                fork,
                i as int,
            ),
        decreases m.gas_history.len() - i,
    {
        if m.gas_history[i].0 == fork {
            return m.gas_history[i].1;
        }
        i += 1;
    }
    m.gas_cost
}

/// Validate against known historical gas cost changes.
pub fn validate_known_gas_changes(registry: &OpcodeRegistry) -> (errors: Vec<String>)
    ensures
        lines(errors@) == known_change_findings(registry@, known_gas_changes().len() as int),
{
    let mut errors: Vec<String> = Vec::new();
    let known = known_gas_change_list();
    let mut i: usize = 0;
    proof {
        assert(lines(errors@) =~= known_change_findings(registry@, 0));
    }
    while i < known.len()
        invariant
            i <= known.len(),
            known@.map_values(|c: KnownGasChange| c@) == known_gas_changes(),
            lines(errors@) == known_change_findings(registry@, i as int),
        decreases known.len() - i,
    {
        let change = &known[i];
        let ghost before = lines(errors@);
        proof {
            assert(known@.map_values(|c: KnownGasChange| c@)[i as int] == known@[i as int]@);
        }
        let pre = registry.lookup(get_previous_fork(change.fork), change.opcode);
        let post = registry.lookup(change.fork, change.opcode);
        match (pre, post) {
            (Some(pre_metadata), Some(post_metadata)) => {
                if pre_metadata.gas_cost != change.old_cost {
                    let mut text = String::from_str("Expected gas cost ");
                    push_decimal(&mut text, change.old_cost as u64);
                    text.append(" for opcode 0x");
                    push_hex2(&mut text, change.opcode);
                    text.append(" before fork ");
                    text.append(change.fork.name());
                    text.append(", found ");
                    push_decimal(&mut text, pre_metadata.gas_cost as u64);
                    push_line(&mut errors, text);
                }
                let actual_new_cost = recorded_cost(&post_metadata, change.fork);
                if actual_new_cost != change.new_cost {
                    let mut text = String::from_str("Expected gas cost ");
                    push_decimal(&mut text, change.new_cost as u64);
                    text.append(" for opcode 0x");
                    push_hex2(&mut text, change.opcode);
                    text.append(" after fork ");
                    text.append(change.fork.name());
                    text.append(", found ");
                    push_decimal(&mut text, actual_new_cost as u64);
                    text.append(". Reason: ");
                    text.append(change.reason);
                    push_line(&mut errors, text);
                }
            },
            _ => {},
        }
        proof {
            assert(lines(errors@) =~= before + known_change_finding(
                registry@,
                known_gas_changes()[i as int],
            ));
        }
        i += 1;
    }
    errors
}

/// Check for opcodes missing EIP references.
pub fn check_missing_eip_references(registry: &OpcodeRegistry) -> (warnings: Vec<String>)
    ensures
        lines(warnings@) == registry_findings(Check::EipReferences, registry@, FORK_COUNT as int),
{
    run_check(registry, Check::EipReferences)
}

/// The line that says how many opcodes a fork has.
pub open spec fn fork_count_line(tables: Seq<Seq<MetadataView>>, fork: Fork) -> Seq<char> {
    fork.spec_name() + ": "@ + decimal(effective_opcodes(tables, fork).len()) + " opcodes"@
}

/// The lines that say how many opcodes each of the first `n` known forks has.
pub open spec fn fork_count_lines(tables: Seq<Seq<MetadataView>>, n: int) -> Seq<Seq<char>>
    decreases n,
{
    if n <= 0 {
        Seq::empty()
    } else {
        fork_count_lines(tables, n - 1).push(fork_count_line(tables, known_forks()[n - 1]))
    }
}

/// The coverage information: how many of the 256 bytes the latest fork
/// assigns, as a count and as a whole percentage, and how many opcodes
/// each known fork has.
pub open spec fn coverage_info(tables: Seq<Seq<MetadataView>>) -> Seq<Seq<char>> {
    let count = effective_opcodes(tables, Fork::Cancun).len();
    seq![
        "Total opcodes implemented: "@ + decimal(count) + " / 256 ("@ + decimal(
            ((count * 100) / 256) as nat,
        ) + ".0% coverage)"@,
    ] + fork_count_lines(tables, known_forks().len() as int)
}

/// A map of records has as many entries as the map of what they hold.
pub proof fn lemma_metadata_map_len(m: Map<u8, OpcodeMetadata>)
    ensures
        metadata_map_view(m).len() == m.len(),
{
    assert(metadata_map_view(m).dom() =~= m.dom());
}

/// Generate coverage information.
pub fn generate_coverage_info(registry: &OpcodeRegistry) -> (info: Vec<String>)
    ensures
        lines(info@) == coverage_info(registry@),
{
    let mut info: Vec<String> = Vec::new();
    let ghost none = lines(info@);
    let latest_opcodes = registry.get_opcodes(Fork::Cancun);
    let count = latest_opcodes.len();
    proof {
        lemma_metadata_map_len(latest_opcodes@);
    }
    let coverage_percentage: u128 = (count as u128 * 100) / 256;
    let mut text = String::from_str("Total opcodes implemented: ");
    push_decimal(&mut text, count as u64);
    text.append(" / 256 (");
    crate::text::push_decimal_wide(&mut text, coverage_percentage);
    text.append(".0% coverage)");
    push_line(&mut info, text);
    let ghost head = lines(info@);
    let forks = known_fork_list();
    let mut i: usize = 0;
    proof {
        assert(none =~= Seq::<Seq<char>>::empty());
        assert(head + fork_count_lines(registry@, 0) =~= head);
    }
    while i < forks.len()
        invariant
            i <= forks.len(),
            forks@ == known_forks(),
            lines(info@) == head + fork_count_lines(registry@, i as int),
        decreases forks.len() - i,
    {
        let fork = forks[i];
        let opcodes = registry.get_opcodes(fork);
        proof {
            lemma_metadata_map_len(opcodes@);
        }
        let mut line = String::from_str(fork.name());
        line.append(": ");
        push_decimal(&mut line, opcodes.len() as u64);
        line.append(" opcodes");
        push_line(&mut info, line);
        proof {
            assert(lines(info@) =~= head + fork_count_lines(registry@, i + 1));
        }
        i += 1;
    }
    info
}

/// The line that reports the analysis of a sample sequence on London.
pub open spec fn usage_line(description: Seq<char>, opcodes: Seq<u8>) -> Seq<char> {
    let analysis = usage_analysis(Fork::London, opcodes);
    description + ": "@ + decimal(analysis.total_gas as nat) + " gas (efficiency: "@ + decimal(
        usage_score(analysis.total_gas, analysis.breakdown.len()) as nat,
    ) + "%)"@
}

/// The line that reports the price of an SLOAD on Berlin, of a cold
/// slot and of the same slot once it is warm.
pub open spec fn sload_cost_lines() -> Seq<Seq<char>> {
    let cold = opcode_cost(
        standard_tables(),
        Fork::Berlin,
        0x54,
        initial_context(),
        seq![0x123u64],
    );
    let warm = opcode_cost(
        standard_tables(),
        Fork::Berlin,
        0x54,
        with_warm_slot(initial_context(), zero_address(), storage_key(0x123)),
        seq![0x123u64],
    );
    if cold is Ok && warm is Ok {
        seq![
            "SLOAD gas costs (Berlin): cold="@ + decimal(cold->Ok_0 as nat) + ", warm="@ + decimal(
                warm->Ok_0 as nat,
            ),
        ]
    } else {
        Seq::empty()
    }
}

/// The line that reports the price of an MSTORE on Berlin, near the
/// start of memory and far from it.
pub open spec fn mstore_cost_lines() -> Seq<Seq<char>> {
    let small = opcode_cost(standard_tables(), Fork::Berlin, 0x52, initial_context(), seq![64u64]);
    let large = opcode_cost(
        standard_tables(),
        Fork::Berlin,
        0x52,
        initial_context(),
        seq![10000u64],
    );
    if small is Ok && large is Ok {
        seq![
            "MSTORE gas costs: small_memory="@ + decimal(small->Ok_0 as nat) + ", large_memory="@
                + decimal(large->Ok_0 as nat),
        ]
    } else {
        Seq::empty()
    }
}

/// The information about the gas analysis: what it makes of four sample
/// sequences, what an SLOAD and an MSTORE cost, and that it runs.
pub open spec fn gas_analysis_info() -> Seq<Seq<char>> {
    seq![
        usage_line("Simple arithmetic"@, seq![0x01u8, 0x02u8, 0x03u8]),
        usage_line("Storage operations"@, seq![0x54u8, 0x55u8]),
        usage_line("Memory operations"@, seq![0x51u8, 0x52u8]),
        usage_line("Call operation"@, seq![0xf1u8]),
    ] + sload_cost_lines() + mstore_cost_lines() + seq!["Gas analysis system: ✅ Operational"@]
}

fn usage_line_string(description: &str, opcodes: &Vec<u8>) -> (s: String)
    ensures
        s@ == usage_line(description@, opcodes@),
{
    let analysis = GasAnalyzer::analyze_gas_usage(opcodes.as_slice(), Fork::London);
    let mut s = String::from_str(description);
    s.append(": ");
    push_decimal(&mut s, analysis.total_gas);
    s.append(" gas (efficiency: ");
    push_decimal(&mut s, analysis.efficiency_score() as u64);
    s.append("%)");
    s
}

/// Appends the line that reports the price of an SLOAD on Berlin.
fn push_sload_costs(info: &mut Vec<String>)
    ensures
        lines(final(info)@) == lines(old(info)@) + sload_cost_lines(),
{
    let ghost start = lines(info@);
    let calculator = DynamicGasCalculator::new(Fork::Berlin);
    let context = ExecutionContext::new();
    let key_operand: Vec<u64> = vec![0x123u64];
    proof {
        assert(key_operand@ =~= seq![0x123u64]);
    }
    let cold = calculator.calculate_gas_cost(0x54, &context, key_operand.as_slice());
    let mut warm_context = context.clone();
    let address = warm_context.current_address.clone();
    let key = storage_key_bytes(0x123);
    warm_context.mark_storage_accessed(address.as_slice(), key.as_slice());
    let warm = calculator.calculate_gas_cost(0x54, &warm_context, key_operand.as_slice());
    match (cold, warm) {
        (Ok(cold_cost), Ok(warm_cost)) => {
            let mut text = String::from_str("SLOAD gas costs (Berlin): cold=");
            push_decimal(&mut text, cold_cost);
            text.append(", warm=");
            push_decimal(&mut text, warm_cost);
            push_line(info, text);
            proof {
                assert(lines(info@) =~= start + sload_cost_lines());
            }
        },
        _ => {
            proof {
                assert(lines(info@) =~= start + sload_cost_lines());
            }
        },
    }
}

/// Appends the line that reports the price of an MSTORE on Berlin.
fn push_mstore_costs(info: &mut Vec<String>)
    ensures
        lines(final(info)@) == lines(old(info)@) + mstore_cost_lines(),
{
    let ghost start = lines(info@);
    let calculator = DynamicGasCalculator::new(Fork::Berlin);
    let context = ExecutionContext::new();
    let small_offset: Vec<u64> = vec![64u64];
    let large_offset: Vec<u64> = vec![10000u64];
    proof {
        assert(small_offset@ =~= seq![64u64]);
        assert(large_offset@ =~= seq![10000u64]);
    }
    let small = calculator.calculate_gas_cost(0x52, &context, small_offset.as_slice());
    let large = calculator.calculate_gas_cost(0x52, &context, large_offset.as_slice());
    match (small, large) {
        (Ok(small_memory_cost), Ok(large_memory_cost)) => {
            let mut text = String::from_str("MSTORE gas costs: small_memory=");
            push_decimal(&mut text, small_memory_cost);
            text.append(", large_memory=");
            push_decimal(&mut text, large_memory_cost);
            push_line(info, text);
            proof {
                assert(lines(info@) =~= start + mstore_cost_lines());
            }
        },
        _ => {
            proof {
                assert(lines(info@) =~= start + mstore_cost_lines());
            }
        },
    }
}

/// Appends the lines that report the analyses of the sample sequences.
fn push_usage_lines(info: &mut Vec<String>)
    ensures
        lines(final(info)@) == lines(old(info)@) + seq![
            usage_line("Simple arithmetic"@, seq![0x01u8, 0x02u8, 0x03u8]),
            usage_line("Storage operations"@, seq![0x54u8, 0x55u8]),
            usage_line("Memory operations"@, seq![0x51u8, 0x52u8]),
            usage_line("Call operation"@, seq![0xf1u8]),
        ],
{
    let ghost start = lines(info@);
    let arithmetic: Vec<u8> = vec![0x01u8, 0x02u8, 0x03u8];
    let storage: Vec<u8> = vec![0x54u8, 0x55u8];
    let memory: Vec<u8> = vec![0x51u8, 0x52u8];
    let call: Vec<u8> = vec![0xf1u8];
    proof {
        assert(arithmetic@ =~= seq![0x01u8, 0x02u8, 0x03u8]);
        assert(storage@ =~= seq![0x54u8, 0x55u8]);
        assert(memory@ =~= seq![0x51u8, 0x52u8]);
        assert(call@ =~= seq![0xf1u8]);
    }
    push_line(info, usage_line_string("Simple arithmetic", &arithmetic));
    push_line(info, usage_line_string("Storage operations", &storage));
    push_line(info, usage_line_string("Memory operations", &memory));
    push_line(info, usage_line_string("Call operation", &call));
    proof {
        assert(lines(info@) =~= start + seq![
            usage_line("Simple arithmetic"@, seq![0x01u8, 0x02u8, 0x03u8]),
            usage_line("Storage operations"@, seq![0x54u8, 0x55u8]),
            usage_line("Memory operations"@, seq![0x51u8, 0x52u8]),
            usage_line("Call operation"@, seq![0xf1u8]),
        ]);
    }
}

/// Generate gas analysis system information.
pub fn generate_gas_analysis_info(_registry: &OpcodeRegistry) -> (info: Vec<String>)
    ensures
        lines(info@) == gas_analysis_info(),
{
    let mut info: Vec<String> = Vec::new();
    let ghost none = lines(info@);
    push_usage_lines(&mut info);
    push_sload_costs(&mut info);
    push_mstore_costs(&mut info);
    push_line(&mut info, String::from_str("Gas analysis system: ✅ Operational"));
    proof {
        assert(none =~= Seq::<Seq<char>>::empty());
        assert(lines(info@) =~= gas_analysis_info());
    }
    info
}

/// A list of named sections, each with its messages, as plain values.
pub open spec fn sections_view(sections: Seq<(String, Vec<String>)>) -> Seq<
    (Seq<char>, Seq<Seq<char>>),
> {
    sections.map_values(|section: (String, Vec<String>)| (section.0@, lines(section.1@)))
}

/// No two sections have the same name.
pub open spec fn names_are_distinct(sections: Seq<(Seq<char>, Seq<Seq<char>>)>) -> bool {
    forall|i: int, j: int|
        0 <= i < j < sections.len() ==> (#[trigger] sections[i]).0 != (#[trigger] sections[j]).0
}

/// The position of the first section named `category`, from the
/// position `from` on.
pub open spec fn section_index(
    sections: Seq<(Seq<char>, Seq<Seq<char>>)>,
    category: Seq<char>,
    from: int,
) -> Option<int>
    decreases sections.len() - from,
{
    if from < 0 || from >= sections.len() {
        None
    } else if sections[from].0 == category {
        Some(from)
    } else {
        section_index(sections, category, from + 1)
    }
}

/// The sections with `messages` filed under `category`: nothing changes
/// where there are no messages; a section of that name gets the messages
/// in place of its own; else a new section is added at the end.
pub open spec fn with_section(
    sections: Seq<(Seq<char>, Seq<Seq<char>>)>,
    category: Seq<char>,
    messages: Seq<Seq<char>>,
) -> Seq<(Seq<char>, Seq<Seq<char>>)> {
    if messages.len() == 0 {
        sections
    } else {
        match section_index(sections, category, 0) {
            Some(i) => sections.update(i, (category, messages)),
            None => sections.push((category, messages)),
        }
    }
}

fn file_section(sections: &mut Vec<(String, Vec<String>)>, category: &str, messages: Vec<String>)
    ensures
        sections_view(final(sections)@) == with_section(
            sections_view(old(sections)@),
            category@,
            lines(messages@),
        ),
        names_are_distinct(sections_view(old(sections)@)) ==> names_are_distinct(
            sections_view(final(sections)@),
        ),
{
    if messages.len() == 0 {
        return ;
    }
    let ghost view = sections_view(sections@);
    let mut i: usize = 0;
    while i < sections.len()
        invariant
            i <= sections.len(),
            sections@ == old(sections)@,
            view == sections_view(sections@),
            messages@.len() > 0,
            section_index(view, category@, 0) == section_index(view, category@, i as int),
            forall|k: int| 0 <= k < i ==> (#[trigger] view[k]).0 != category@,
        decreases sections.len() - i,
    {
        if crate::unified::str_equal(sections[i].0.as_str(), category) {
            let name = String::from_str(category);
            proof {
                assert(sections_view(sections@.update(i as int, (name, messages))) =~= view.update(
                    i as int,
                    (category@, lines(messages@)),
                ));
            }
            sections[i] = (name, messages);
            return ;
        }
        proof {
            assert(view[i as int].0 != category@);
        }
        i += 1;
    }
    let name = String::from_str(category);
    proof {
        assert(sections_view(sections@.push((name, messages))) =~= view.push(
            (category@, lines(messages@)),
        ));
    }
    sections.push((name, messages));
}

/// Comprehensive validation report. Each list holds named sections in
/// the order in which they were first filed; a report whose sections
/// have distinct names keeps them distinct when messages are added.
#[derive(Debug)]
pub struct ValidationReport {
    /// Critical errors that must be fixed
    pub errors: Vec<(String, Vec<String>)>,
    /// Warnings that should be addressed
    pub warnings: Vec<(String, Vec<String>)>,
    /// Informational messages
    pub info: Vec<(String, Vec<String>)>,
}

/// What a [`ValidationReport`] holds, as plain values.
pub struct ReportView {
    pub errors: Seq<(Seq<char>, Seq<Seq<char>>)>,
    pub warnings: Seq<(Seq<char>, Seq<Seq<char>>)>,
    pub info: Seq<(Seq<char>, Seq<Seq<char>>)>,
}

impl View for ValidationReport {
    type V = ReportView;

    open spec fn view(&self) -> ReportView {
        ReportView {
            errors: sections_view(self.errors@),
            warnings: sections_view(self.warnings@),
            info: sections_view(self.info@),
        }
    }
}

/// The report without any section.
pub open spec fn empty_report() -> ReportView {
    ReportView { errors: Seq::empty(), warnings: Seq::empty(), info: Seq::empty() }
}

/// The lines of the messages of a section, each behind `bullet`.
pub open spec fn message_lines(messages: Seq<Seq<char>>, bullet: Seq<char>) -> Seq<Seq<char>> {
    messages.map_values(|m: Seq<char>| bullet + m)
}

/// The lines of the first `n` sections: for each its name, indented and
/// with a colon, and then its messages.
pub open spec fn section_lines(
    sections: Seq<(Seq<char>, Seq<Seq<char>>)>,
    bullet: Seq<char>,
    n: int,
) -> Seq<Seq<char>>
    decreases n,
{
    if n <= 0 {
        Seq::empty()
    } else {
        section_lines(sections, bullet, n - 1) + seq!["  "@ + sections[n - 1].0 + ":"@]
            + message_lines(sections[n - 1].1, bullet)
    }
}

/// The lines of one part of the summary: nothing for a part without
/// sections, else an empty line, the heading and the sections.
pub open spec fn part_lines(
    heading: Seq<char>,
    sections: Seq<(Seq<char>, Seq<Seq<char>>)>,
    bullet: Seq<char>,
) -> Seq<Seq<char>> {
    if sections.len() == 0 {
        Seq::empty()
    } else {
        seq![""@, heading] + section_lines(sections, bullet, sections.len() as int)
    }
}

/// The lines of the summary of a report: the title, the errors, the
/// warnings and the information, and where there are neither errors nor
/// warnings the word that all validations passed.
pub open spec fn summary_text(report: ReportView) -> Seq<Seq<char>> {
    let passed = if report.errors.len() == 0 && report.warnings.len() == 0 {
        seq![""@, "✅ All validations passed!"@]
    } else {
        Seq::empty()
    };
    seq!["=== EOT Validation Report ==="@] + part_lines(
        "❌ ERRORS:"@,
        report.errors,
        "    - "@,
    ) + part_lines("⚠️  WARNINGS:"@, report.warnings, "    - "@) + part_lines(
        "ℹ️  INFO:"@,
        report.info,
        "    "@,
    ) + passed
}

fn push_part(
    out: &mut Vec<String>,
    heading: &str,
    sections: &Vec<(String, Vec<String>)>,
    bullet: &str,
)
    ensures
        lines(final(out)@) == lines(old(out)@) + part_lines(
            heading@,
            sections_view(sections@),
            bullet@,
        ),
{
    let ghost start = lines(out@);
    let ghost view = sections_view(sections@);
    if sections.len() == 0 {
        proof {
            assert(start + part_lines(heading@, view, bullet@) =~= start);
        }
        return ;
    }
    push_line(out, String::from_str(""));
    push_line(out, String::from_str(heading));
    let ghost head = lines(out@);
    let mut i: usize = 0;
    proof {
        assert(head + section_lines(view, bullet@, 0) =~= head);
    }
    while i < sections.len()
        invariant
            i <= sections.len(),
            view == sections_view(sections@),
            lines(out@) == head + section_lines(view, bullet@, i as int),
        decreases sections.len() - i,
    {
        let mut title = String::from_str("  ");
        title.append(sections[i].0.as_str());
        title.append(":");
        push_line(out, title);
        let ghost titled = lines(out@);
        let messages = &sections[i].1;
        let mut k: usize = 0;
        proof {
            assert(view[i as int] == (sections@[i as int].0@, lines(sections@[i as int].1@)));
            assert(titled + message_lines(lines(messages@.take(0)), bullet@) =~= titled);
        }
        while k < messages.len()
            invariant
                k <= messages.len(),
                lines(out@) == titled + message_lines(lines(messages@.take(k as int)), bullet@),
            decreases messages.len() - k,
        {
            let mut line = String::from_str(bullet);
            line.append(messages[k].as_str());
            push_line(out, line);
            proof {
                assert(lines(out@) =~= titled + message_lines(
                    lines(messages@.take(k + 1)),
                    bullet@,
                ));
            }
            k += 1;
        }
        proof {
            assert(messages@.take(messages@.len() as int) =~= messages@);
            assert(lines(out@) =~= head + section_lines(view, bullet@, i + 1));
        }
        i += 1;
    }
    proof {
        assert(lines(out@) =~= start + part_lines(heading@, view, bullet@));
    }
}

impl ValidationReport {
    /// Within each list, no two sections have the same name.
    pub open spec fn names_each_section_once(&self) -> bool {
        &&& names_are_distinct(sections_view(self.errors@))
        &&& names_are_distinct(sections_view(self.warnings@))
        &&& names_are_distinct(sections_view(self.info@))
    }

    /// Create a new validation report.
    pub fn new() -> (r: Self)
        ensures
            r@ == empty_report(),
            r.names_each_section_once(),
    {
        let r = ValidationReport { errors: Vec::new(), warnings: Vec::new(), info: Vec::new() };
        proof {
            assert(r@.errors =~= Seq::empty());
            assert(r@.warnings =~= Seq::empty());
            assert(r@.info =~= Seq::empty());
        }
        r
    }

    /// Add errors to a category.
    pub fn add_errors(&mut self, category: &str, errors: Vec<String>)
        ensures
            final(self)@ == (ReportView {
                errors: with_section(old(self)@.errors, category@, lines(errors@)),
                ..old(self)@
            }),
            old(self).names_each_section_once() ==> final(self).names_each_section_once(),
    {
        file_section(&mut self.errors, category, errors);
    }

    /// Add warnings to a category.
    pub fn add_warnings(&mut self, category: &str, warnings: Vec<String>)
        ensures
            final(self)@ == (ReportView {
                warnings: with_section(old(self)@.warnings, category@, lines(warnings@)),
                ..old(self)@
            }),
            old(self).names_each_section_once() ==> final(self).names_each_section_once(),
    {
        file_section(&mut self.warnings, category, warnings);
    }

    /// Add info to a category.
    pub fn add_info(&mut self, category: &str, info: Vec<String>)
        ensures
            final(self)@ == (ReportView {
                info: with_section(old(self)@.info, category@, lines(info@)),
                ..old(self)@
            }),
            old(self).names_each_section_once() ==> final(self).names_each_section_once(),
    {
        file_section(&mut self.info, category, info);
    }

    /// Check if report has any errors.
    pub fn has_errors(&self) -> (r: bool)
        ensures
            r == (self@.errors.len() > 0),
    {
        self.errors.len() > 0
    }

    /// The lines of the summary of the report.
    pub fn summary_lines(&self) -> (text: Vec<String>)
        ensures
            lines(text@) == summary_text(self@),
    {
        let mut text: Vec<String> = Vec::new();
        let ghost none = lines(text@);
        push_line(&mut text, String::from_str("=== EOT Validation Report ==="));
        proof {
            assert(none =~= Seq::<Seq<char>>::empty());
            assert(lines(text@) =~= seq!["=== EOT Validation Report ==="@]);
        }
        push_part(&mut text, "❌ ERRORS:", &self.errors, "    - ");
        push_part(&mut text, "⚠️  WARNINGS:", &self.warnings, "    - ");
        push_part(&mut text, "ℹ️  INFO:", &self.info, "    ");
        if self.errors.len() == 0 && self.warnings.len() == 0 {
            push_line(&mut text, String::from_str(""));
            push_line(&mut text, String::from_str("✅ All validations passed!"));
        }
        proof {
            assert(lines(text@) =~= summary_text(self@));
        }
        text
    }
}

impl Default for ValidationReport {
    fn default() -> (r: Self)
        ensures
            r@ == empty_report(),
            r.names_each_section_once(),
    {
        ValidationReport::new()
    }
}

/// The report of all checks on a registry: each list of findings filed
/// under the name of its check.
pub open spec fn comprehensive_report(tables: Seq<Seq<MetadataView>>) -> ReportView {
    let errors = with_section(
        with_section(
            with_section(
                with_section(
                    with_section(
                        with_section(
                            with_section(
                                Seq::empty(),
                                "Opcode Uniqueness"@,
                                registry_findings(Check::Uniqueness, tables, FORK_COUNT as int),
                            ),
                            "Fork Inheritance"@,
                            inheritance_findings(tables, known_forks().len() as int),
                        ),
                        "Historical Accuracy"@,
                        historical_findings(
                            effective_opcodes(tables, Fork::Cancun),
                            known_introductions().len() as int,
                        ),
                    ),
                    "Gas Cost Consistency"@,
                    registry_findings(Check::GasCosts, tables, FORK_COUNT as int),
                ),
                "Stack Consistency"@,
                registry_findings(Check::Stack, tables, FORK_COUNT as int),
            ),
            "Known Gas Changes"@,
            known_change_findings(tables, known_gas_changes().len() as int),
        ),
        "Gas Analysis Integration"@,
        integration_findings(trial_forks().len() as int),
    );
    ReportView {
        errors,
        warnings: with_section(
            Seq::empty(),
            "Missing EIPs"@,
            registry_findings(Check::EipReferences, tables, FORK_COUNT as int),
        ),
        info: with_section(
            with_section(Seq::empty(), "Coverage"@, coverage_info(tables)),
            "Gas Analysis"@,
            gas_analysis_info(),
        ),
    }
}

/// Check for common validation patterns and issues.
pub fn run_comprehensive_validation(registry: &OpcodeRegistry) -> (report: ValidationReport)
    ensures
        report@ == comprehensive_report(registry@),
        report.names_each_section_once(),
{
    let mut report = ValidationReport::new();
    report.add_errors("Opcode Uniqueness", validate_opcode_uniqueness(registry));
    report.add_errors("Fork Inheritance", validate_fork_inheritance(registry));
    report.add_errors("Historical Accuracy", validate_historical_accuracy(registry));
    report.add_errors("Gas Cost Consistency", validate_gas_cost_consistency(registry));
    report.add_errors("Stack Consistency", validate_stack_consistency(registry));
    report.add_errors("Known Gas Changes", validate_known_gas_changes(registry));
    report.add_errors("Gas Analysis Integration", validate_gas_analysis_integration(registry));
    report.add_warnings("Missing EIPs", check_missing_eip_references(registry));
    report.add_info("Coverage", generate_coverage_info(registry));
    report.add_info("Gas Analysis", generate_gas_analysis_info(registry));
    report
}

/// Extended implementation of OpcodeAnalysis for the registry: the
/// analysis of the gas analyzer over the standard registry.
impl OpcodeAnalysis for OpcodeRegistry {
    open spec fn spec_analysis(opcodes: Seq<u8>, fork: Fork) -> UsageView {
        usage_analysis(fork, opcodes)
    }

    open spec fn spec_verdict(opcodes: Seq<u8>, fork: Fork) -> Result<(), Seq<char>> {
        sequence_verdict(fork, opcodes)
    }

    fn analyze_gas_usage(opcodes: &[u8], fork: Fork) -> (analysis: GasAnalysis) {
        let analysis = GasAnalyzer::analyze_gas_usage(opcodes, fork);
        assert(analysis@ == Self::spec_analysis(opcodes@, fork));
        analysis
    }

    fn validate_opcode_sequence(opcodes: &[u8], fork: Fork) -> (r: Result<(), String>) {
        let r = GasAnalyzer::validate_opcode_sequence(opcodes, fork);
        assert(Self::spec_verdict(opcodes@, fork) == sequence_verdict(fork, opcodes@));
        r
    }

    /// The recommendations of the analysis, and then the suggestions
    /// that the patterns of the sequence give rise to.
    fn get_optimization_suggestions(opcodes: &[u8], fork: Fork) -> (suggestions: Vec<String>)
        ensures
            lines(suggestions@) == recommendations(
                usage_analysis(fork, opcodes@).optimizations,
                usage_opcodes(usage_analysis(fork, opcodes@).breakdown),
                usage_costs(usage_analysis(fork, opcodes@).breakdown),
            ) + pattern_suggestions(fork, opcodes@),
    {
        let analysis = GasAnalyzer::analyze_gas_usage(opcodes, fork);
        let mut suggestions = analysis.get_optimization_recommendations();
        let ghost first = lines(suggestions@);
        push_lines(&mut suggestions, GasOptimizationAdvisor::analyze_pattern(opcodes, fork));
        proof {
            assert(Self::spec_analysis(opcodes@, fork) == usage_analysis(fork, opcodes@));
            assert(lines(suggestions@).take(first.len() as int) =~= first);
        }
        suggestions
    }

    fn estimate_gas_savings(opcodes: &[u8], fork: Fork) -> (savings: u64) {
        let analysis = GasAnalyzer::analyze_gas_usage(opcodes, fork);
        assert(Self::spec_analysis(opcodes@, fork) == usage_analysis(fork, opcodes@));
        analysis.estimate_optimization_savings()
    }
}

/// The registry as the source of the opcodes of each fork: the tables
/// of the standard registry.
impl ForkOpcodes for OpcodeRegistry {
    open spec fn spec_opcodes_for_fork(fork: Fork) -> Map<u8, MetadataView> {
        effective_opcodes(standard_tables(), fork)
    }

    open spec fn spec_opcode_introduced_in(opcode: u8) -> Option<Fork> {
        if table_defines(opcode) {
            Some(table_introduced(opcode))
        } else {
            None
        }
    }

    fn get_opcodes_for_fork(fork: Fork) -> (opcodes: HashMap<u8, OpcodeMetadata>) {
        let opcodes = OpcodeRegistry::new().get_opcodes(fork);
        assert(metadata_map_view(opcodes@) == Self::spec_opcodes_for_fork(fork));
        opcodes
    }

    fn opcode_introduced_in(opcode: u8) -> (fork: Option<Fork>) {
        let fork = match canonical_metadata(opcode) {
            Some(metadata) => Some(metadata.introduced_in),
            None => None,
        };
        assert(fork == Self::spec_opcode_introduced_in(opcode));
        fork
    }
}

/// A canonical record passes the checks of gas costs, of stack
/// behaviour and of EIP references: its base cost is plausible, its gas
/// history chronological, its stack counts are within the limits and
/// exact for DUP and SWAP, and it names its EIP if it came after
/// Frontier.
pub proof fn lemma_canonical_record_is_sound(fork: Fork, byte: u8)
    requires
        table_defines(byte),
    ensures
        table_entry(byte).opcode == byte,
        table_entry(byte).stack_inputs <= 17,
        crate::metadata::history_is_chronological(table_entry(byte).gas_history),
        gas_cost_finding(fork, table_entry(byte)).len() == 0,
        stack_finding(table_entry(byte)).len() == 0,
        eip_finding(table_entry(byte)).len() == 0,
{
    let m = table_entry(byte);
    reveal_with_fuel(history_findings, 5);
    assert(m.gas_history.len() <= 3);
    assert(history_findings(m, m.gas_history.len() as int).len() == 0);
}

/// The records of the table of a fork stand in strictly ascending order
/// of their bytes.
pub proof fn lemma_table_is_ascending(fork: Fork, bound: int)
    requires
        0 <= bound <= 256,
    ensures
        forall|i: int, j: int|
            0 <= i < j < table_below(fork, bound).len() ==> (#[trigger] table_below(
                fork,
                bound,
            )[i]).opcode < (#[trigger] table_below(fork, bound)[j]).opcode,
    decreases bound,
{
    if bound > 0 {
        lemma_table_is_ascending(fork, bound - 1);
        crate::registry::lemma_table_below(fork, bound - 1);
    }
}

/// In a table whose records are canonical and stand in ascending order,
/// the checks of uniqueness, gas costs, stack behaviour and EIP
/// references find nothing.
pub proof fn lemma_canonical_table_has_no_findings(check: Check, fork: Fork, n: int)
    requires
        0 <= n <= fork_table_view(fork).len(),
    ensures
        table_findings(check, fork, fork_table_view(fork), n).len() == 0,
    decreases n,
{
    if n > 0 {
        lemma_canonical_table_has_no_findings(check, fork, n - 1);
        let table = fork_table_view(fork);
        crate::registry::lemma_table_below(fork, 256);
        lemma_table_is_ascending(fork, 256);
        let entry = table[n - 1];
        assert(entry == table_entry(entry.opcode));
        lemma_canonical_record_is_sound(fork, entry.opcode);
        if occurs_before(table, n - 1) {
            let j = choose|j: int| 0 <= j < n - 1 && (#[trigger] table[j]).opcode == table[n - 1].opcode;
            assert(table[j].opcode < table[n - 1].opcode);
        }
    }
}

/// In the standard registry, the checks of uniqueness, gas costs, stack
/// behaviour and EIP references find nothing.
pub proof fn lemma_standard_registry_has_no_findings(check: Check, e: int)
    requires
        0 <= e <= FORK_COUNT,
    ensures
        registry_findings(check, standard_tables(), e).len() == 0,
    decreases e,
{
    if e > 0 {
        lemma_standard_registry_has_no_findings(check, e - 1);
        let own = standard_tables()[e - 1];
        assert(own == crate::registry::standard_table_at(e - 1));
        let fork = fork_at(e - 1);
        if own.len() > 0 {
            assert(own == fork_table_view(fork));
            lemma_canonical_table_has_no_findings(check, fork, own.len() as int);
        }
    }
}

/// The standard registry records each known introduction as history
/// has it.
pub proof fn lemma_standard_registry_matches_history()
    ensures
        historical_findings(
            effective_opcodes(standard_tables(), Fork::Cancun),
            known_introductions().len() as int,
        ).len() == 0,
{
    let latest = effective_opcodes(standard_tables(), Fork::Cancun);
    assert forall|i: int| 0 <= i < known_introductions().len() implies historical_finding(
        latest,
        #[trigger] known_introductions()[i],
    ).len() == 0 by {
        let known = known_introductions()[i];
        crate::registry::lemma_standard_availability(Fork::Cancun, known.0);
    }
    lemma_no_historical_findings(latest, known_introductions().len() as int);
}

/// Where no known introduction has a finding, the check of history
/// finds nothing.
pub proof fn lemma_no_historical_findings(latest: Map<u8, MetadataView>, n: int)
    requires
        0 <= n <= known_introductions().len(),
        forall|i: int|
            0 <= i < known_introductions().len() ==> historical_finding(
                latest,
                #[trigger] known_introductions()[i],
            ).len() == 0,
    ensures
        historical_findings(latest, n).len() == 0,
    decreases n,
{
    if n > 0 {
        lemma_no_historical_findings(latest, n - 1);
    }
}

/// On the standard registry, the analysis of ADD, MUL, SUB succeeds at
/// every fork: the three opcodes cost 3, 5 and 3 on top of the base
/// transaction cost.
pub proof fn lemma_trial_analysis(fork: Fork)
    ensures
        usage_analysis(fork, trial_sequence()).total_gas == 21011,
        usage_analysis(fork, trial_sequence()).breakdown == seq![
            (0x01u8, 3u16),
            (0x02u8, 5u16),
            (0x03u8, 3u16),
        ],
        integration_finding(fork).len() == 0,
{
    let tables = standard_tables();
    let sequence = crate::gas::analysis::estimated_sequence(trial_sequence());
    let none = Seq::<u64>::empty();
    let three = seq![(0x01u8, none), (0x02u8, none), (0x03u8, none)];
    assert(sequence =~= three);
    let two = seq![(0x01u8, none), (0x02u8, none)];
    let one = seq![(0x01u8, none)];
    let zero = Seq::<(u8, Seq<u64>)>::empty();
    assert(three.drop_last() =~= two);
    assert(two.drop_last() =~= one);
    assert(one.drop_last() =~= zero);
    crate::registry::lemma_standard_availability(fork, 0x01);
    crate::registry::lemma_standard_availability(fork, 0x02);
    crate::registry::lemma_standard_availability(fork, 0x03);
    let s0 = crate::gas::calculator::initial_state();
    assert(crate::gas::calculator::run(tables, fork, zero) == Ok::<
        crate::gas::calculator::AnalysisState,
        crate::error::GasError,
    >(s0));
    let r1 = crate::gas::calculator::run(tables, fork, one);
    assert(r1 == crate::gas::calculator::step(tables, fork, s0, 0x01, none));
    let s1 = r1->Ok_0;
    assert(s1.breakdown =~= seq![(0x01u8, 3u64)]);
    let r2 = crate::gas::calculator::run(tables, fork, two);
    assert(crate::gas::calculator::run(tables, fork, two.drop_last()) == r1);
    assert(r2 == crate::gas::calculator::step(tables, fork, s1, 0x02, none));
    let s2 = r2->Ok_0;
    assert(s2.breakdown =~= seq![(0x01u8, 3u64), (0x02u8, 5u64)]);
    let r3 = crate::gas::calculator::run(tables, fork, three);
    assert(crate::gas::calculator::run(tables, fork, three.drop_last()) == r2);
    assert(r3 == crate::gas::calculator::step(tables, fork, s2, 0x03, none));
    let s3 = r3->Ok_0;
    assert(s3.breakdown =~= seq![(0x01u8, 3u64), (0x02u8, 5u64), (0x03u8, 3u64)]);
    assert(s3.total_gas == 21011);
    assert(crate::gas::analysis::capped_breakdown(s3.breakdown) =~= seq![
        (0x01u8, 3u16),
        (0x02u8, 5u16),
        (0x03u8, 3u16),
    ]);
}

/// The standard registry is valid: the checks that `validate_registry`
/// runs find nothing in it.
pub proof fn lemma_standard_registry_is_valid()
    ensures
        registry_errors(standard_tables()).len() == 0,
{
    lemma_standard_registry_has_no_findings(Check::Uniqueness, FORK_COUNT as int);
    lemma_standard_registry_has_no_findings(Check::GasCosts, FORK_COUNT as int);
    lemma_standard_registry_has_no_findings(Check::Stack, FORK_COUNT as int);
    lemma_no_inheritance_findings(standard_tables(), known_forks().len() as int);
    lemma_standard_registry_matches_history();
    reveal_with_fuel(integration_findings, 6);
    lemma_trial_analysis(Fork::Frontier);
    lemma_trial_analysis(Fork::Berlin);
    lemma_trial_analysis(Fork::London);
    lemma_trial_analysis(Fork::Shanghai);
    lemma_trial_analysis(Fork::Cancun);
}

} // verus!
