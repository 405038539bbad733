//! Questions about an opcode that its byte alone answers.

use vstd::prelude::*;
use vstd::string::StringExecFns;
use crate::fork::Fork;
use crate::text::{lines, push_line};

verus! {

/// The opcode changes state: SSTORE, TSTORE, CREATE, CALL, CALLCODE,
/// DELEGATECALL, CREATE2 or SELFDESTRUCT.
pub open spec fn spec_modifies_state(opcode: u8) -> bool {
    opcode == 0x55 || opcode == 0x5d || opcode == 0xf0 || opcode == 0xf1 || opcode == 0xf2
        || opcode == 0xf4 || opcode == 0xf5 || opcode == 0xff
}

/// The opcode can revert: a call, CREATE2 or REVERT.
pub open spec fn spec_can_revert(opcode: u8) -> bool {
    opcode == 0xf1 || opcode == 0xf2 || opcode == 0xf4 || opcode == 0xf5 || opcode == 0xfa
        || opcode == 0xfd
}

/// The opcode is PUSH0 or one of PUSH1 to PUSH32.
pub open spec fn spec_is_push(opcode: u8) -> bool {
    0x5f <= opcode <= 0x7f
}

/// The number of bytes that a push opcode pushes: 0 for PUSH0, `n` for
/// PUSHn; `None` for any other opcode.
pub open spec fn spec_push_size(opcode: u8) -> Option<u8> {
    if 0x5f <= opcode <= 0x7f {
        Some((opcode - 0x5f) as u8)
    } else {
        None
    }
}

/// The opcode is one of DUP1 to DUP16.
pub open spec fn spec_is_dup(opcode: u8) -> bool {
    0x80 <= opcode <= 0x8f
}

/// The opcode is one of SWAP1 to SWAP16.
pub open spec fn spec_is_swap(opcode: u8) -> bool {
    0x90 <= opcode <= 0x9f
}

/// The number of stack items the opcode needs: `n` for DUPn, `n + 1`
/// for SWAPn, and for any other opcode its stack inputs.
pub open spec fn spec_min_stack_depth(opcode: u8, stack_inputs: u8) -> u8 {
    if spec_is_dup(opcode) {
        (opcode - 0x7f) as u8
    } else if spec_is_swap(opcode) {
        (opcode - 0x8e) as u8
    } else {
        stack_inputs
    }
}

/// The price of the opcode depends on the execution context: storage
/// and transient storage, the queries of other accounts, memory access,
/// the system operations, copies, hashing and logging.
pub open spec fn spec_has_dynamic_gas_cost(opcode: u8) -> bool {
    opcode == 0x54 || opcode == 0x55 || opcode == 0x5c || opcode == 0x5d || opcode == 0x31
        || opcode == 0x3b || opcode == 0x3c || opcode == 0x3f || (0x51 <= opcode <= 0x53) || opcode
        == 0x5e || opcode >= 0xf0 || opcode == 0x37 || opcode == 0x39 || opcode == 0x3e || opcode
        == 0x20 || (0xa0 <= opcode <= 0xa4)
}

/// The opcode steers control flow: STOP, JUMP, JUMPI, JUMPDEST, RETURN,
/// REVERT, INVALID or SELFDESTRUCT.
pub open spec fn spec_is_control_flow(opcode: u8) -> bool {
    opcode == 0x00 || opcode == 0x56 || opcode == 0x57 || opcode == 0x5b || opcode == 0xf3
        || opcode == 0xfd || opcode == 0xfe || opcode == 0xff
}

/// The opcode reads or writes memory: loads, stores and copies,
/// hashing, logging and the system operations.
pub open spec fn spec_affects_memory(opcode: u8) -> bool {
    (0x51 <= opcode <= 0x53) || opcode == 0x5e || opcode == 0x37 || opcode == 0x39 || opcode
        == 0x3e || opcode == 0x20 || (0xa0 <= opcode <= 0xa4) || opcode >= 0xf0
}

/// The opcode reads or writes storage: SLOAD, SSTORE, TLOAD or TSTORE.
pub open spec fn spec_affects_storage(opcode: u8) -> bool {
    opcode == 0x54 || opcode == 0x55 || opcode == 0x5c || opcode == 0x5d
}

/// The opcode is deprecated or discouraged: CALLCODE or SELFDESTRUCT.
pub open spec fn spec_is_deprecated(opcode: u8) -> bool {
    opcode == 0xf2 || opcode == 0xff
}

/// The recommendations for the use of one opcode at `fork`.
pub open spec fn opcode_advice(opcode: u8, fork: Fork) -> Seq<Seq<char>> {
    if opcode == 0x60 {
        if fork.spec_at_least(Fork::Shanghai) {
            seq!["Consider using PUSH0 instead of PUSH1 0x00 to save gas"@]
        } else {
            Seq::empty()
        }
    } else if opcode == 0x54 {
        if fork.spec_at_least(Fork::Berlin) {
            seq![
                "Consider caching SLOAD results in memory if used multiple times"@,
                "Pre-warm storage slots when possible to benefit from lower gas costs"@,
            ]
        } else {
            seq!["Consider caching SLOAD results in memory if used multiple times"@]
        }
    } else if opcode == 0x55 {
        seq![
            "Consider using TSTORE for temporary values that don't need persistence"@,
            "Pack storage variables to minimize SSTORE operations"@,
        ]
    } else if opcode == 0xf1 || opcode == 0xf2 || opcode == 0xf4 || opcode == 0xfa {
        if fork.spec_at_least(Fork::Berlin) {
            seq![
                "Minimize external calls as they are expensive and can fail"@,
                "Pre-warm target addresses when possible"@,
            ]
        } else {
            seq!["Minimize external calls as they are expensive and can fail"@]
        }
    } else if opcode == 0xf0 || opcode == 0xf5 {
        if fork.spec_at_least(Fork::Shanghai) {
            seq![
                "Consider using CREATE2 for deterministic addresses"@,
                "Be aware of initcode size limits (EIP-3860)"@,
            ]
        } else {
            seq!["Consider using CREATE2 for deterministic addresses"@]
        }
    } else {
        Seq::empty()
    }
}

/// Check if the opcode modifies state.
#[verifier::when_used_as_spec(spec_modifies_state)]
pub fn modifies_state(opcode: u8) -> (r: bool)
    ensures
        r == spec_modifies_state(opcode),
{
    opcode == 0x55 || opcode == 0x5d || opcode == 0xf0 || opcode == 0xf1 || opcode == 0xf2
        || opcode == 0xf4 || opcode == 0xf5 || opcode == 0xff
}

/// Check if the opcode can cause revert.
#[verifier::when_used_as_spec(spec_can_revert)]
pub fn can_revert(opcode: u8) -> (r: bool)
    ensures
        r == spec_can_revert(opcode),
{
    opcode == 0xf1 || opcode == 0xf2 || opcode == 0xf4 || opcode == 0xf5 || opcode == 0xfa
        || opcode == 0xfd
}

/// Check if the opcode is a push opcode.
#[verifier::when_used_as_spec(spec_is_push)]
pub fn is_push(opcode: u8) -> (r: bool)
    ensures
        r == spec_is_push(opcode),
{
    0x5f <= opcode && opcode <= 0x7f
}

/// Get push data size (0 for PUSH0, 1 for PUSH1, etc.).
#[verifier::when_used_as_spec(spec_push_size)]
pub fn push_size(opcode: u8) -> (r: Option<u8>)
    ensures
        r == spec_push_size(opcode),
{
    if 0x5f <= opcode && opcode <= 0x7f {
        Some(opcode - 0x5f)
    } else {
        None
    }
}

/// Check if the opcode is a dup opcode.
#[verifier::when_used_as_spec(spec_is_dup)]
pub fn is_dup(opcode: u8) -> (r: bool)
    ensures
        r == spec_is_dup(opcode),
{
    0x80 <= opcode && opcode <= 0x8f
}

/// Check if the opcode is a swap opcode.
#[verifier::when_used_as_spec(spec_is_swap)]
pub fn is_swap(opcode: u8) -> (r: bool)
    ensures
        r == spec_is_swap(opcode),
{
    0x90 <= opcode && opcode <= 0x9f
}

/// Get the minimum required stack depth for the opcode, given the
/// stack inputs that its record names.
#[verifier::when_used_as_spec(spec_min_stack_depth)]
pub fn min_stack_depth(opcode: u8, stack_inputs: u8) -> (r: u8)
    ensures
        r == spec_min_stack_depth(opcode, stack_inputs),
{
    if is_dup(opcode) {
        opcode - 0x7f
    } else if is_swap(opcode) {
        opcode - 0x8e
    } else {
        stack_inputs
    }
}

/// Check if the opcode's gas cost varies with context.
#[verifier::when_used_as_spec(spec_has_dynamic_gas_cost)]
pub fn has_dynamic_gas_cost(opcode: u8) -> (r: bool)
    ensures
        r == spec_has_dynamic_gas_cost(opcode),
{
    opcode == 0x54 || opcode == 0x55 || opcode == 0x5c || opcode == 0x5d || opcode == 0x31
        || opcode == 0x3b || opcode == 0x3c || opcode == 0x3f || (0x51 <= opcode && opcode <= 0x53)
        || opcode == 0x5e || opcode >= 0xf0 || opcode == 0x37 || opcode == 0x39 || opcode == 0x3e
        || opcode == 0x20 || (0xa0 <= opcode && opcode <= 0xa4)
}

/// Check if the opcode is a control flow opcode.
#[verifier::when_used_as_spec(spec_is_control_flow)]
pub fn is_control_flow(opcode: u8) -> (r: bool)
    ensures
        r == spec_is_control_flow(opcode),
{
    opcode == 0x00 || opcode == 0x56 || opcode == 0x57 || opcode == 0x5b || opcode == 0xf3
        || opcode == 0xfd || opcode == 0xfe || opcode == 0xff
}

/// Check if the opcode affects memory.
#[verifier::when_used_as_spec(spec_affects_memory)]
pub fn affects_memory(opcode: u8) -> (r: bool)
    ensures
        r == spec_affects_memory(opcode),
{
    (0x51 <= opcode && opcode <= 0x53) || opcode == 0x5e || opcode == 0x37 || opcode == 0x39
        || opcode == 0x3e || opcode == 0x20 || (0xa0 <= opcode && opcode <= 0xa4) || opcode >= 0xf0
}

/// Check if the opcode affects storage.
#[verifier::when_used_as_spec(spec_affects_storage)]
pub fn affects_storage(opcode: u8) -> (r: bool)
    ensures
        r == spec_affects_storage(opcode),
{
    opcode == 0x54 || opcode == 0x55 || opcode == 0x5c || opcode == 0x5d
}

/// Check if the opcode is deprecated or discouraged.
#[verifier::when_used_as_spec(spec_is_deprecated)]
pub fn is_deprecated(opcode: u8) -> (r: bool)
    ensures
        r == spec_is_deprecated(opcode),
{
    opcode == 0xf2 || opcode == 0xff
}

/// Get optimization recommendations for the opcode at `fork`.
pub fn optimization_recommendations(opcode: u8, fork: Fork) -> (r: Vec<String>)
    ensures
        lines(r@) == opcode_advice(opcode, fork),
{
    let mut r: Vec<String> = Vec::new();
    let ghost none = lines(r@);
    if opcode == 0x60 {
        if fork.at_least(Fork::Shanghai) {
            push_line(
                &mut r,
                String::from_str("Consider using PUSH0 instead of PUSH1 0x00 to save gas"),
            );
        }
    } else if opcode == 0x54 {
        push_line(
            &mut r,
            String::from_str("Consider caching SLOAD results in memory if used multiple times"),
        );
        if fork.at_least(Fork::Berlin) {
            push_line(
                &mut r,
                String::from_str(
                    "Pre-warm storage slots when possible to benefit from lower gas costs",
                ),
            );
        }
    } else if opcode == 0x55 {
        push_line(
            &mut r,
            String::from_str(
                "Consider using TSTORE for temporary values that don't need persistence",
            ),
        );
        push_line(
            &mut r,
            String::from_str("Pack storage variables to minimize SSTORE operations"),
        );
    } else if opcode == 0xf1 || opcode == 0xf2 || opcode == 0xf4 || opcode == 0xfa {
        push_line(
            &mut r,
            String::from_str("Minimize external calls as they are expensive and can fail"),
        );
        if fork.at_least(Fork::Berlin) {
            push_line(&mut r, String::from_str("Pre-warm target addresses when possible"));
        }
    } else if opcode == 0xf0 || opcode == 0xf5 {
        push_line(&mut r, String::from_str("Consider using CREATE2 for deterministic addresses"));
        if fork.at_least(Fork::Shanghai) {
            push_line(&mut r, String::from_str("Be aware of initcode size limits (EIP-3860)"));
        }
    }
    proof {
        assert(none =~= Seq::<Seq<char>>::empty());
        assert(lines(r@) =~= opcode_advice(opcode, fork));
    }
    r
}

/// A push, a dup and a swap are three kinds apart: no byte is two of them.
pub proof fn lemma_stack_kinds_are_disjoint(opcode: u8)
    ensures
        !(spec_is_push(opcode) && spec_is_dup(opcode)),
        !(spec_is_push(opcode) && spec_is_swap(opcode)),
        !(spec_is_dup(opcode) && spec_is_swap(opcode)),
        spec_push_size(opcode) is Some <==> spec_is_push(opcode),
{
}

} // verus!
