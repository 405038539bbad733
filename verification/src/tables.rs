//! The canonical opcode table: one record for each opcode byte that the
//! EVM has ever assigned, with the fork that introduced it and the history
//! of its base cost.
//!
//! Each column of the table is written twice with the same arms, once as
//! a mathematical function and once as the function that runs; the two
//! are proved to agree. The base cost is the static part of an opcode's
//! price.
//! Where the calculator computes the whole price from the execution
//! context (storage and account access since Berlin, transient storage,
//! creation), the base cost is 0.
//!
//! The gas histories follow the repricings of the protocol: Tangerine
//! Whistle (EIP-150) raised the prices of state access and of calls,
//! Istanbul (EIP-1884 and EIP-2200) raised them again for SLOAD, BALANCE
//! and EXTCODEHASH and lowered the floor of SSTORE, and Berlin
//! (EIP-2929) made them depend on whether the slot or the account is
//! warm.

use vstd::prelude::*;
use crate::fork::{Fork, Group};
use crate::metadata::{MetadataView, OpcodeMetadata};

verus! {

/// The byte is assigned to an opcode at some fork of the timeline.
pub open spec fn table_defines(byte: u8) -> bool {
    ||| byte <= 0x0b
    ||| 0x10 <= byte <= 0x1d
    ||| byte == 0x20
    ||| 0x30 <= byte <= 0x4a
    ||| 0x50 <= byte <= 0xa4
    ||| 0xf0 <= byte <= 0xf5
    ||| byte == 0xfa
    ||| byte >= 0xfd
}

/// The mnemonic of the opcode at `byte`; empty where none is assigned.
pub open spec fn table_name(byte: u8) -> Seq<char> {
    match byte {
        0x00 => "STOP"@,
        0x01 => "ADD"@,
        0x02 => "MUL"@,
        0x03 => "SUB"@,
        0x04 => "DIV"@,
        0x05 => "SDIV"@,
        0x06 => "MOD"@,
        0x07 => "SMOD"@,
        0x08 => "ADDMOD"@,
        0x09 => "MULMOD"@,
        0x0a => "EXP"@,
        0x0b => "SIGNEXTEND"@,
        0x10 => "LT"@,
        0x11 => "GT"@,
        0x12 => "SLT"@,
        0x13 => "SGT"@,
        0x14 => "EQ"@,
        0x15 => "ISZERO"@,
        0x16 => "AND"@,
        0x17 => "OR"@,
        0x18 => "XOR"@,
        0x19 => "NOT"@,
        0x1a => "BYTE"@,
        0x1b => "SHL"@,
        0x1c => "SHR"@,
        0x1d => "SAR"@,
        0x20 => "KECCAK256"@,
        0x30 => "ADDRESS"@,
        0x31 => "BALANCE"@,
        0x32 => "ORIGIN"@,
        0x33 => "CALLER"@,
        0x34 => "CALLVALUE"@,
        0x35 => "CALLDATALOAD"@,
        0x36 => "CALLDATASIZE"@,
        0x37 => "CALLDATACOPY"@,
        0x38 => "CODESIZE"@,
        0x39 => "CODECOPY"@,
        0x3a => "GASPRICE"@,
        0x3b => "EXTCODESIZE"@,
        0x3c => "EXTCODECOPY"@,
        0x3d => "RETURNDATASIZE"@,
        0x3e => "RETURNDATACOPY"@,
        0x3f => "EXTCODEHASH"@,
        0x40 => "BLOCKHASH"@,
        0x41 => "COINBASE"@,
        0x42 => "TIMESTAMP"@,
        0x43 => "NUMBER"@,
        0x44 => "DIFFICULTY"@,
        0x45 => "GASLIMIT"@,
        0x46 => "CHAINID"@,
        0x47 => "SELFBALANCE"@,
        0x48 => "BASEFEE"@,
        0x49 => "BLOBHASH"@,
        0x4a => "BLOBBASEFEE"@,
        0x50 => "POP"@,
        0x51 => "MLOAD"@,
        0x52 => "MSTORE"@,
        0x53 => "MSTORE8"@,
        0x54 => "SLOAD"@,
        0x55 => "SSTORE"@,
        0x56 => "JUMP"@,
        0x57 => "JUMPI"@,
        0x58 => "PC"@,
        0x59 => "MSIZE"@,
        0x5a => "GAS"@,
        0x5b => "JUMPDEST"@,
        0x5c => "TLOAD"@,
        0x5d => "TSTORE"@,
        0x5e => "MCOPY"@,
        0x5f => "PUSH0"@,
        0x60 => "PUSH1"@,
        0x61 => "PUSH2"@,
        0x62 => "PUSH3"@,
        0x63 => "PUSH4"@,
        0x64 => "PUSH5"@,
        0x65 => "PUSH6"@,
        0x66 => "PUSH7"@,
        0x67 => "PUSH8"@,
        0x68 => "PUSH9"@,
        0x69 => "PUSH10"@,
        0x6a => "PUSH11"@,
        0x6b => "PUSH12"@,
        0x6c => "PUSH13"@,
        0x6d => "PUSH14"@,
        0x6e => "PUSH15"@,
        0x6f => "PUSH16"@,
        0x70 => "PUSH17"@,
        0x71 => "PUSH18"@,
        0x72 => "PUSH19"@,
        0x73 => "PUSH20"@,
        0x74 => "PUSH21"@,
        0x75 => "PUSH22"@,
        0x76 => "PUSH23"@,
        0x77 => "PUSH24"@,
        0x78 => "PUSH25"@,
        0x79 => "PUSH26"@,
        0x7a => "PUSH27"@,
        0x7b => "PUSH28"@,
        0x7c => "PUSH29"@,
        0x7d => "PUSH30"@,
        0x7e => "PUSH31"@,
        0x7f => "PUSH32"@,
        0x80 => "DUP1"@,
        0x81 => "DUP2"@,
        0x82 => "DUP3"@,
        0x83 => "DUP4"@,
        0x84 => "DUP5"@,
        0x85 => "DUP6"@,
        0x86 => "DUP7"@,
        0x87 => "DUP8"@,
        0x88 => "DUP9"@,
        0x89 => "DUP10"@,
        0x8a => "DUP11"@,
        0x8b => "DUP12"@,
        0x8c => "DUP13"@,
        0x8d => "DUP14"@,
        0x8e => "DUP15"@,
        0x8f => "DUP16"@,
        0x90 => "SWAP1"@,
        0x91 => "SWAP2"@,
        0x92 => "SWAP3"@,
        0x93 => "SWAP4"@,
        0x94 => "SWAP5"@,
        0x95 => "SWAP6"@,
        0x96 => "SWAP7"@,
        0x97 => "SWAP8"@,
        0x98 => "SWAP9"@,
        0x99 => "SWAP10"@,
        0x9a => "SWAP11"@,
        0x9b => "SWAP12"@,
        0x9c => "SWAP13"@,
        0x9d => "SWAP14"@,
        0x9e => "SWAP15"@,
        0x9f => "SWAP16"@,
        0xa0 => "LOG0"@,
        0xa1 => "LOG1"@,
        0xa2 => "LOG2"@,
        0xa3 => "LOG3"@,
        0xa4 => "LOG4"@,
        0xf0 => "CREATE"@,
        0xf1 => "CALL"@,
        0xf2 => "CALLCODE"@,
        0xf3 => "RETURN"@,
        0xf4 => "DELEGATECALL"@,
        0xf5 => "CREATE2"@,
        0xfa => "STATICCALL"@,
        0xfd => "REVERT"@,
        0xfe => "INVALID"@,
        0xff => "SELFDESTRUCT"@,
        _ => ""@,
    }
}

/// What the opcode at `byte` does, in a few words; empty where none is assigned.
pub open spec fn table_description(byte: u8) -> Seq<char> {
    match byte {
        0x00 => "Halts execution"@,
        0x01 => "Addition operation"@,
        0x02 => "Multiplication operation"@,
        0x03 => "Subtraction operation"@,
        0x04 => "Integer division operation"@,
        0x05 => "Signed integer division operation"@,
        0x06 => "Modulo remainder operation"@,
        0x07 => "Signed modulo remainder operation"@,
        0x08 => "Modulo addition operation"@,
        0x09 => "Modulo multiplication operation"@,
        0x0a => "Exponential operation"@,
        0x0b => "Extend length of two's complement signed integer"@,
        0x10 => "Less-than comparison"@,
        0x11 => "Greater-than comparison"@,
        0x12 => "Signed less-than comparison"@,
        0x13 => "Signed greater-than comparison"@,
        0x14 => "Equality comparison"@,
        0x15 => "Simple not operator"@,
        0x16 => "Bitwise AND operation"@,
        0x17 => "Bitwise OR operation"@,
        0x18 => "Bitwise XOR operation"@,
        0x19 => "Bitwise NOT operation"@,
        0x1a => "Retrieve single byte from word"@,
        0x1b => "Left shift operation"@,
        0x1c => "Logical right shift operation"@,
        0x1d => "Arithmetic right shift operation"@,
        0x20 => "Compute Keccak-256 hash"@,
        0x30 => "Get address of currently executing account"@,
        0x31 => "Get balance of the given account"@,
        0x32 => "Get execution origination address"@,
        0x33 => "Get caller address"@,
        0x34 => "Get deposited value by the instruction/transaction responsible for this execution"@,
        0x35 => "Get input data of current environment"@,
        0x36 => "Get size of input data in current environment"@,
        0x37 => "Copy input data in current environment to memory"@,
        0x38 => "Get size of code running in current environment"@,
        0x39 => "Copy code running in current environment to memory"@,
        0x3a => "Get price of gas in current environment"@,
        0x3b => "Get size of an account's code"@,
        0x3c => "Copy an account's code to memory"@,
        0x3d => "Get size of output data from the previous call from the current environment"@,
        0x3e => "Copy output data from the previous call to memory"@,
        0x3f => "Get hash of an account's code"@,
        0x40 => "Get the hash of one of the 256 most recent complete blocks"@,
        0x41 => "Get the block's beneficiary address"@,
        0x42 => "Get the block's timestamp"@,
        0x43 => "Get the block's number"@,
        0x44 => "Get the block's difficulty, or after the Merge the previous beacon chain randomness"@,
        0x45 => "Get the block's gas limit"@,
        0x46 => "Get the chain ID"@,
        0x47 => "Get balance of currently executing account"@,
        0x48 => "Get the base fee"@,
        0x49 => "Get the versioned hash of the i-th blob"@,
        0x4a => "Get the blob base fee"@,
        0x50 => "Remove item from stack"@,
        0x51 => "Load word from memory"@,
        0x52 => "Save word to memory"@,
        0x53 => "Save byte to memory"@,
        0x54 => "Load word from storage"@,
        0x55 => "Save word to storage"@,
        0x56 => "Alter the program counter"@,
        0x57 => "Conditionally alter the program counter"@,
        0x58 => "Get the value of the program counter prior to the increment"@,
        0x59 => "Get the size of active memory in bytes"@,
        0x5a => "Get the amount of available gas"@,
        0x5b => "Mark a valid destination for jumps"@,
        0x5c => "Load word from transient storage"@,
        0x5d => "Save word to transient storage"@,
        0x5e => "Copy memory from one location to another"@,
        0x5f => "Place 0 byte item on stack"@,
        0x60 => "Place 1-byte item on stack"@,
        0x61 => "Place 2-byte item on stack"@,
        0x62 => "Place 3-byte item on stack"@,
        0x63 => "Place 4-byte item on stack"@,
        0x64 => "Place 5-byte item on stack"@,
        0x65 => "Place 6-byte item on stack"@,
        0x66 => "Place 7-byte item on stack"@,
        0x67 => "Place 8-byte item on stack"@,
        0x68 => "Place 9-byte item on stack"@,
        0x69 => "Place 10-byte item on stack"@,
        0x6a => "Place 11-byte item on stack"@,
        0x6b => "Place 12-byte item on stack"@,
        0x6c => "Place 13-byte item on stack"@,
        0x6d => "Place 14-byte item on stack"@,
        0x6e => "Place 15-byte item on stack"@,
        0x6f => "Place 16-byte item on stack"@,
        0x70 => "Place 17-byte item on stack"@,
        0x71 => "Place 18-byte item on stack"@,
        0x72 => "Place 19-byte item on stack"@,
        0x73 => "Place 20-byte item on stack"@,
        0x74 => "Place 21-byte item on stack"@,
        0x75 => "Place 22-byte item on stack"@,
        0x76 => "Place 23-byte item on stack"@,
        0x77 => "Place 24-byte item on stack"@,
        0x78 => "Place 25-byte item on stack"@,
        0x79 => "Place 26-byte item on stack"@,
        0x7a => "Place 27-byte item on stack"@,
        0x7b => "Place 28-byte item on stack"@,
        0x7c => "Place 29-byte item on stack"@,
        0x7d => "Place 30-byte item on stack"@,
        0x7e => "Place 31-byte item on stack"@,
        0x7f => "Place 32-byte item on stack"@,
        0x80 => "Duplicate 1st stack item"@,
        0x81 => "Duplicate 2nd stack item"@,
        0x82 => "Duplicate 3rd stack item"@,
        0x83 => "Duplicate 4th stack item"@,
        0x84 => "Duplicate 5th stack item"@,
        0x85 => "Duplicate 6th stack item"@,
        0x86 => "Duplicate 7th stack item"@,
        0x87 => "Duplicate 8th stack item"@,
        0x88 => "Duplicate 9th stack item"@,
        0x89 => "Duplicate 10th stack item"@,
        0x8a => "Duplicate 11th stack item"@,
        0x8b => "Duplicate 12th stack item"@,
        0x8c => "Duplicate 13th stack item"@,
        0x8d => "Duplicate 14th stack item"@,
        0x8e => "Duplicate 15th stack item"@,
        0x8f => "Duplicate 16th stack item"@,
        0x90 => "Exchange 1st and 2nd stack items"@,
        0x91 => "Exchange 1st and 3rd stack items"@,
        0x92 => "Exchange 1st and 4th stack items"@,
        0x93 => "Exchange 1st and 5th stack items"@,
        0x94 => "Exchange 1st and 6th stack items"@,
        0x95 => "Exchange 1st and 7th stack items"@,
        0x96 => "Exchange 1st and 8th stack items"@,
        0x97 => "Exchange 1st and 9th stack items"@,
        0x98 => "Exchange 1st and 10th stack items"@,
        0x99 => "Exchange 1st and 11th stack items"@,
        0x9a => "Exchange 1st and 12th stack items"@,
        0x9b => "Exchange 1st and 13th stack items"@,
        0x9c => "Exchange 1st and 14th stack items"@,
        0x9d => "Exchange 1st and 15th stack items"@,
        0x9e => "Exchange 1st and 16th stack items"@,
        0x9f => "Exchange 1st and 17th stack items"@,
        0xa0 => "Append log record with no topics"@,
        0xa1 => "Append log record with one topic"@,
        0xa2 => "Append log record with two topics"@,
        0xa3 => "Append log record with three topics"@,
        0xa4 => "Append log record with four topics"@,
        0xf0 => "Create a new account with associated code"@,
        0xf1 => "Message-call into an account"@,
        0xf2 => "Message-call into this account with alternative account's code"@,
        0xf3 => "Halt execution returning output data"@,
        0xf4 => "Message-call into an account with caller's code"@,
        0xf5 => "Create a new account with associated code at a predictable address"@,
        0xfa => "Static message-call into an account"@,
        0xfd => "Halt execution reverting state changes"@,
        0xfe => "Designated invalid instruction"@,
        0xff => "Halt execution and register account for later deletion"@,
        _ => ""@,
    }
}

/// The base cost the opcode at `byte` had when it was introduced.
pub open spec fn table_gas(byte: u8) -> u16 {
    if 0x41 <= byte && byte <= 0x46 {
        2
    } else if 0xa0 <= byte && byte <= 0xa4 {
        375
    } else {
        match byte {
            0x00 | 0x5c | 0x5d | 0xf0 | 0xf3 | 0xf5 | 0xfd | 0xfe | 0xff => 0,
            0x02 | 0x04 | 0x05 | 0x06 | 0x07 | 0x0b | 0x47 => 5,
            0x08 | 0x09 | 0x56 => 8,
            0x0a | 0x57 => 10,
            0x20 => 30,
            0x30 | 0x32 | 0x33 | 0x34 | 0x36 | 0x38 | 0x3a | 0x3d | 0x48 | 0x4a | 0x50
            | 0x58 | 0x59 | 0x5a | 0x5f => 2,
            0x31 | 0x3b | 0x3c | 0x40 => 20,
            0x3f => 400,
            0x54 => 50,
            0x55 => 5000,
            0x5b => 1,
            0xf1 | 0xf2 | 0xf4 => 40,
            0xfa => 700,
            _ => 3,
        }
    }
}

/// How many stack items the opcode at `byte` pops. `DUPn` reads `n`
/// items and `SWAPn` reads `n + 1`.
pub open spec fn table_inputs(byte: u8) -> u8 {
    if 0x41 <= byte && byte <= 0x48 {
        0
    } else if 0x5f <= byte && byte <= 0x7f {
        0
    } else if 0x80 <= byte && byte <= 0x8f {
        (byte - 0x7f) as u8
    } else if 0x90 <= byte && byte <= 0x9f {
        (byte - 0x8e) as u8
    } else {
        match byte {
            0x00 | 0x30 | 0x32 | 0x33 | 0x34 | 0x36 | 0x38 | 0x3a | 0x3d | 0x4a | 0x58
            | 0x59 | 0x5a | 0x5b | 0xfe => 0,
            0x08 | 0x09 | 0x37 | 0x39 | 0x3e | 0x5e | 0xa1 | 0xf0 => 3,
            0x15 | 0x19 | 0x31 | 0x35 | 0x3b | 0x3f | 0x40 | 0x49 | 0x50 | 0x51 | 0x54
            | 0x56 | 0x5c | 0xff => 1,
            0x3c | 0xa2 | 0xf5 => 4,
            0xa3 => 5,
            0xa4 | 0xf4 | 0xfa => 6,
            0xf1 | 0xf2 => 7,
            _ => 2,
        }
    }
}

/// How many stack items the opcode at `byte` pushes. `DUPn` leaves
/// `n + 1` items and `SWAPn` leaves `n + 1`.
pub open spec fn table_outputs(byte: u8) -> u8 {
    if 0x80 <= byte && byte <= 0x8f {
        (byte - 0x7e) as u8
    } else if 0x90 <= byte && byte <= 0x9f {
        (byte - 0x8e) as u8
    } else if 0xa0 <= byte && byte <= 0xa4 {
        0
    } else {
        match byte {
            0x00 | 0x37 | 0x39 | 0x3c | 0x3e | 0x50 | 0x52 | 0x53 | 0x55 | 0x56 | 0x57
            | 0x5b | 0x5d | 0x5e | 0xf3 | 0xfd | 0xfe | 0xff => 0,
            _ => 1,
        }
    }
}

/// The fork that introduced the opcode at `byte`.
pub open spec fn table_introduced(byte: u8) -> Fork {
    match byte {
        0x1b | 0x1c | 0x1d | 0x3f | 0xf5 => Fork::Constantinople,
        0x3d | 0x3e | 0xfa | 0xfd => Fork::Byzantium,
        0x46 | 0x47 => Fork::Istanbul,
        0x48 => Fork::London,
        0x49 | 0x4a | 0x5c | 0x5d | 0x5e => Fork::Cancun,
        0x5f => Fork::Shanghai,
        0xf4 => Fork::Homestead,
        _ => Fork::Frontier,
    }
}

/// The group of the opcode at `byte`, which follows from the byte's range.
pub open spec fn table_group(byte: u8) -> Group {
    if byte <= 0x0f {
        Group::StopArithmetic
    } else if byte <= 0x1f {
        Group::ComparisonBitwiseLogic
    } else if byte <= 0x2f {
        Group::Sha3
    } else if byte <= 0x3f {
        Group::EnvironmentalInformation
    } else if byte <= 0x4f {
        Group::BlockInformation
    } else if byte <= 0x5f {
        Group::StackMemoryStorageFlow
    } else if byte <= 0x7f {
        Group::Push
    } else if byte <= 0x8f {
        Group::Duplication
    } else if byte <= 0x9f {
        Group::Exchange
    } else if byte <= 0xaf {
        Group::Logging
    } else {
        Group::System
    }
}

/// The EIP that introduced the opcode at `byte`, for those that came after Frontier.
pub open spec fn table_eip(byte: u8) -> Option<u16> {
    match byte {
        0x1b | 0x1c | 0x1d => Some(145),
        0x3d | 0x3e => Some(211),
        0x3f => Some(1052),
        0x46 => Some(1344),
        0x47 => Some(1884),
        0x48 => Some(3198),
        0x49 => Some(4844),
        0x4a => Some(7516),
        0x5c | 0x5d => Some(1153),
        0x5e => Some(5656),
        0x5f => Some(3855),
        0xf4 => Some(7),
        0xf5 => Some(1014),
        0xfa => Some(214),
        0xfd => Some(140),
        _ => None,
    }
}

/// The later changes of the base cost of the opcode at `byte`, oldest first.
pub open spec fn table_history(byte: u8) -> Seq<(Fork, u16)> {
    match byte {
        0x31 => seq![(Fork::TangerineWhistle, 400u16), (Fork::Istanbul, 700u16), (Fork::Berlin, 0u16)],
        0x3b | 0x3c => seq![(Fork::TangerineWhistle, 700u16), (Fork::Berlin, 0u16)],
        0x3f => seq![(Fork::Istanbul, 700u16), (Fork::Berlin, 0u16)],
        0x54 => seq![(Fork::TangerineWhistle, 200u16), (Fork::Istanbul, 800u16), (Fork::Berlin, 0u16)],
        0x55 => seq![(Fork::Istanbul, 800u16), (Fork::Berlin, 100u16)],
        0xf1 | 0xf2 | 0xf4 => seq![(Fork::TangerineWhistle, 700u16), (Fork::Berlin, 100u16)],
        0xfa => seq![(Fork::Berlin, 100u16)],
        0xff => seq![(Fork::TangerineWhistle, 5000u16)],
        _ => Seq::empty(),
    }
}

/// The record of the canonical table for `byte`.
pub open spec fn table_entry(byte: u8) -> MetadataView {
    MetadataView {
        opcode: byte,
        name: table_name(byte),
        gas_cost: table_gas(byte),
        stack_inputs: table_inputs(byte),
        stack_outputs: table_outputs(byte),
        description: table_description(byte),
        introduced_in: table_introduced(byte),
        group: table_group(byte),
        eip: table_eip(byte),
        gas_history: table_history(byte),
    }
}

/// The opcode at `byte` exists at `fork`: it is assigned and was
/// introduced at that fork or before.
pub open spec fn table_active(fork: Fork, byte: u8) -> bool {
    table_defines(byte) && table_introduced(byte).spec_epoch() <= fork.spec_epoch()
}

/// The records of the bytes below `bound` that exist at `fork`, in
/// ascending order of the byte.
pub open spec fn table_below(fork: Fork, bound: int) -> Seq<MetadataView>
    decreases bound,
{
    if bound <= 0 {
        Seq::empty()
    } else if table_active(fork, (bound - 1) as u8) {
        table_below(fork, bound - 1).push(table_entry((bound - 1) as u8))
    } else {
        table_below(fork, bound - 1)
    }
}

/// The opcode table of `fork`: every opcode that exists at that fork, in
/// ascending order of the byte.
pub open spec fn fork_table_view(fork: Fork) -> Seq<MetadataView> {
    table_below(fork, 256)
}

fn defines(byte: u8) -> (r: bool)
    ensures
        r == table_defines(byte),
{
    byte <= 0x0b || (0x10 <= byte && byte <= 0x1d) || byte == 0x20 || (0x30 <= byte && byte
        <= 0x4a) || (0x50 <= byte && byte <= 0xa4) || (0xf0 <= byte && byte <= 0xf5) || byte
        == 0xfa || byte >= 0xfd
}

fn name_of(byte: u8) -> (r: &'static str)
    ensures
        r@ == table_name(byte),
{
    match byte {
        0x00 => "STOP",
        0x01 => "ADD",
        0x02 => "MUL",
        0x03 => "SUB",
        0x04 => "DIV",
        0x05 => "SDIV",
        0x06 => "MOD",
        0x07 => "SMOD",
        0x08 => "ADDMOD",
        0x09 => "MULMOD",
        0x0a => "EXP",
        0x0b => "SIGNEXTEND",
        0x10 => "LT",
        0x11 => "GT",
        0x12 => "SLT",
        0x13 => "SGT",
        0x14 => "EQ",
        0x15 => "ISZERO",
        0x16 => "AND",
        0x17 => "OR",
        0x18 => "XOR",
        0x19 => "NOT",
        0x1a => "BYTE",
        0x1b => "SHL",
        0x1c => "SHR",
        0x1d => "SAR",
        0x20 => "KECCAK256",
        0x30 => "ADDRESS",
        0x31 => "BALANCE",
        0x32 => "ORIGIN",
        0x33 => "CALLER",
        0x34 => "CALLVALUE",
        0x35 => "CALLDATALOAD",
        0x36 => "CALLDATASIZE",
        0x37 => "CALLDATACOPY",
        0x38 => "CODESIZE",
        0x39 => "CODECOPY",
        0x3a => "GASPRICE",
        0x3b => "EXTCODESIZE",
        0x3c => "EXTCODECOPY",
        0x3d => "RETURNDATASIZE",
        0x3e => "RETURNDATACOPY",
        0x3f => "EXTCODEHASH",
        0x40 => "BLOCKHASH",
        0x41 => "COINBASE",
        0x42 => "TIMESTAMP",
        0x43 => "NUMBER",
        0x44 => "DIFFICULTY",
        0x45 => "GASLIMIT",
        0x46 => "CHAINID",
        0x47 => "SELFBALANCE",
        0x48 => "BASEFEE",
        0x49 => "BLOBHASH",
        0x4a => "BLOBBASEFEE",
        0x50 => "POP",
        0x51 => "MLOAD",
        0x52 => "MSTORE",
        0x53 => "MSTORE8",
        0x54 => "SLOAD",
        0x55 => "SSTORE",
        0x56 => "JUMP",
        0x57 => "JUMPI",
        0x58 => "PC",
        0x59 => "MSIZE",
        0x5a => "GAS",
        0x5b => "JUMPDEST",
        0x5c => "TLOAD",
        0x5d => "TSTORE",
        0x5e => "MCOPY",
        0x5f => "PUSH0",
        0x60 => "PUSH1",
        0x61 => "PUSH2",
        0x62 => "PUSH3",
        0x63 => "PUSH4",
        0x64 => "PUSH5",
        0x65 => "PUSH6",
        0x66 => "PUSH7",
        0x67 => "PUSH8",
        0x68 => "PUSH9",
        0x69 => "PUSH10",
        0x6a => "PUSH11",
        0x6b => "PUSH12",
        0x6c => "PUSH13",
        0x6d => "PUSH14",
        0x6e => "PUSH15",
        0x6f => "PUSH16",
        0x70 => "PUSH17",
        0x71 => "PUSH18",
        0x72 => "PUSH19",
        0x73 => "PUSH20",
        0x74 => "PUSH21",
        0x75 => "PUSH22",
        0x76 => "PUSH23",
        0x77 => "PUSH24",
        0x78 => "PUSH25",
        0x79 => "PUSH26",
        0x7a => "PUSH27",
        0x7b => "PUSH28",
        0x7c => "PUSH29",
        0x7d => "PUSH30",
        0x7e => "PUSH31",
        0x7f => "PUSH32",
        0x80 => "DUP1",
        0x81 => "DUP2",
        0x82 => "DUP3",
        0x83 => "DUP4",
        0x84 => "DUP5",
        0x85 => "DUP6",
        0x86 => "DUP7",
        0x87 => "DUP8",
        0x88 => "DUP9",
        0x89 => "DUP10",
        0x8a => "DUP11",
        0x8b => "DUP12",
        0x8c => "DUP13",
        0x8d => "DUP14",
        0x8e => "DUP15",
        0x8f => "DUP16",
        0x90 => "SWAP1",
        0x91 => "SWAP2",
        0x92 => "SWAP3",
        0x93 => "SWAP4",
        0x94 => "SWAP5",
        0x95 => "SWAP6",
        0x96 => "SWAP7",
        0x97 => "SWAP8",
        0x98 => "SWAP9",
        0x99 => "SWAP10",
        0x9a => "SWAP11",
        0x9b => "SWAP12",
        0x9c => "SWAP13",
        0x9d => "SWAP14",
        0x9e => "SWAP15",
        0x9f => "SWAP16",
        0xa0 => "LOG0",
        0xa1 => "LOG1",
        0xa2 => "LOG2",
        0xa3 => "LOG3",
        0xa4 => "LOG4",
        0xf0 => "CREATE",
        0xf1 => "CALL",
        0xf2 => "CALLCODE",
        0xf3 => "RETURN",
        0xf4 => "DELEGATECALL",
        0xf5 => "CREATE2",
        0xfa => "STATICCALL",
        0xfd => "REVERT",
        0xfe => "INVALID",
        0xff => "SELFDESTRUCT",
        _ => "",
    }
}

fn description_of(byte: u8) -> (r: &'static str)
    ensures
        r@ == table_description(byte),
{
    match byte {
        0x00 => "Halts execution",
        0x01 => "Addition operation",
        0x02 => "Multiplication operation",
        0x03 => "Subtraction operation",
        0x04 => "Integer division operation",
        0x05 => "Signed integer division operation",
        0x06 => "Modulo remainder operation",
        0x07 => "Signed modulo remainder operation",
        0x08 => "Modulo addition operation",
        0x09 => "Modulo multiplication operation",
        0x0a => "Exponential operation",
        0x0b => "Extend length of two's complement signed integer",
        0x10 => "Less-than comparison",
        0x11 => "Greater-than comparison",
        0x12 => "Signed less-than comparison",
        0x13 => "Signed greater-than comparison",
        0x14 => "Equality comparison",
        0x15 => "Simple not operator",
        0x16 => "Bitwise AND operation",
        0x17 => "Bitwise OR operation",
        0x18 => "Bitwise XOR operation",
        0x19 => "Bitwise NOT operation",
        0x1a => "Retrieve single byte from word",
        0x1b => "Left shift operation",
        0x1c => "Logical right shift operation",
        0x1d => "Arithmetic right shift operation",
        0x20 => "Compute Keccak-256 hash",
        0x30 => "Get address of currently executing account",
        0x31 => "Get balance of the given account",
        0x32 => "Get execution origination address",
        0x33 => "Get caller address",
        0x34 => "Get deposited value by the instruction/transaction responsible for this execution",
        0x35 => "Get input data of current environment",
        0x36 => "Get size of input data in current environment",
        0x37 => "Copy input data in current environment to memory",
        0x38 => "Get size of code running in current environment",
        0x39 => "Copy code running in current environment to memory",
        0x3a => "Get price of gas in current environment",
        0x3b => "Get size of an account's code",
        0x3c => "Copy an account's code to memory",
        0x3d => "Get size of output data from the previous call from the current environment",
        0x3e => "Copy output data from the previous call to memory",
        0x3f => "Get hash of an account's code",
        0x40 => "Get the hash of one of the 256 most recent complete blocks",
        0x41 => "Get the block's beneficiary address",
        0x42 => "Get the block's timestamp",
        0x43 => "Get the block's number",
        0x44 => "Get the block's difficulty, or after the Merge the previous beacon chain randomness",
        0x45 => "Get the block's gas limit",
        0x46 => "Get the chain ID",
        0x47 => "Get balance of currently executing account",
        0x48 => "Get the base fee",
        0x49 => "Get the versioned hash of the i-th blob",
        0x4a => "Get the blob base fee",
        0x50 => "Remove item from stack",
        0x51 => "Load word from memory",
        0x52 => "Save word to memory",
        0x53 => "Save byte to memory",
        0x54 => "Load word from storage",
        0x55 => "Save word to storage",
        0x56 => "Alter the program counter",
        0x57 => "Conditionally alter the program counter",
        0x58 => "Get the value of the program counter prior to the increment",
        0x59 => "Get the size of active memory in bytes",
        0x5a => "Get the amount of available gas",
        0x5b => "Mark a valid destination for jumps",
        0x5c => "Load word from transient storage",
        0x5d => "Save word to transient storage",
        0x5e => "Copy memory from one location to another",
        0x5f => "Place 0 byte item on stack",
        0x60 => "Place 1-byte item on stack",
        0x61 => "Place 2-byte item on stack",
        0x62 => "Place 3-byte item on stack",
        0x63 => "Place 4-byte item on stack",
        0x64 => "Place 5-byte item on stack",
        0x65 => "Place 6-byte item on stack",
        0x66 => "Place 7-byte item on stack",
        0x67 => "Place 8-byte item on stack",
        0x68 => "Place 9-byte item on stack",
        0x69 => "Place 10-byte item on stack",
        0x6a => "Place 11-byte item on stack",
        0x6b => "Place 12-byte item on stack",
        0x6c => "Place 13-byte item on stack",
        0x6d => "Place 14-byte item on stack",
        0x6e => "Place 15-byte item on stack",
        0x6f => "Place 16-byte item on stack",
        0x70 => "Place 17-byte item on stack",
        0x71 => "Place 18-byte item on stack",
        0x72 => "Place 19-byte item on stack",
        0x73 => "Place 20-byte item on stack",
        0x74 => "Place 21-byte item on stack",
        0x75 => "Place 22-byte item on stack",
        0x76 => "Place 23-byte item on stack",
        0x77 => "Place 24-byte item on stack",
        0x78 => "Place 25-byte item on stack",
        0x79 => "Place 26-byte item on stack",
        0x7a => "Place 27-byte item on stack",
        0x7b => "Place 28-byte item on stack",
        0x7c => "Place 29-byte item on stack",
        0x7d => "Place 30-byte item on stack",
        0x7e => "Place 31-byte item on stack",
        0x7f => "Place 32-byte item on stack",
        0x80 => "Duplicate 1st stack item",
        0x81 => "Duplicate 2nd stack item",
        0x82 => "Duplicate 3rd stack item",
        0x83 => "Duplicate 4th stack item",
        0x84 => "Duplicate 5th stack item",
        0x85 => "Duplicate 6th stack item",
        0x86 => "Duplicate 7th stack item",
        0x87 => "Duplicate 8th stack item",
        0x88 => "Duplicate 9th stack item",
        0x89 => "Duplicate 10th stack item",
        0x8a => "Duplicate 11th stack item",
        0x8b => "Duplicate 12th stack item",
        0x8c => "Duplicate 13th stack item",
        0x8d => "Duplicate 14th stack item",
        0x8e => "Duplicate 15th stack item",
        0x8f => "Duplicate 16th stack item",
        0x90 => "Exchange 1st and 2nd stack items",
        0x91 => "Exchange 1st and 3rd stack items",
        0x92 => "Exchange 1st and 4th stack items",
        0x93 => "Exchange 1st and 5th stack items",
        0x94 => "Exchange 1st and 6th stack items",
        0x95 => "Exchange 1st and 7th stack items",
        0x96 => "Exchange 1st and 8th stack items",
        0x97 => "Exchange 1st and 9th stack items",
        0x98 => "Exchange 1st and 10th stack items",
        0x99 => "Exchange 1st and 11th stack items",
        0x9a => "Exchange 1st and 12th stack items",
        0x9b => "Exchange 1st and 13th stack items",
        0x9c => "Exchange 1st and 14th stack items",
        0x9d => "Exchange 1st and 15th stack items",
        0x9e => "Exchange 1st and 16th stack items",
        0x9f => "Exchange 1st and 17th stack items",
        0xa0 => "Append log record with no topics",
        0xa1 => "Append log record with one topic",
        0xa2 => "Append log record with two topics",
        0xa3 => "Append log record with three topics",
        0xa4 => "Append log record with four topics",
        0xf0 => "Create a new account with associated code",
        0xf1 => "Message-call into an account",
        0xf2 => "Message-call into this account with alternative account's code",
        0xf3 => "Halt execution returning output data",
        0xf4 => "Message-call into an account with caller's code",
        0xf5 => "Create a new account with associated code at a predictable address",
        0xfa => "Static message-call into an account",
        0xfd => "Halt execution reverting state changes",
        0xfe => "Designated invalid instruction",
        0xff => "Halt execution and register account for later deletion",
        _ => "",
    }
}

fn gas_of(byte: u8) -> (r: u16)
    ensures
        r == table_gas(byte),
{
    if 0x41 <= byte && byte <= 0x46 {
        2
    } else if 0xa0 <= byte && byte <= 0xa4 {
        375
    } else {
        match byte {
            0x00 | 0x5c | 0x5d | 0xf0 | 0xf3 | 0xf5 | 0xfd | 0xfe | 0xff => 0,
            0x02 | 0x04 | 0x05 | 0x06 | 0x07 | 0x0b | 0x47 => 5,
            0x08 | 0x09 | 0x56 => 8,
            0x0a | 0x57 => 10,
            0x20 => 30,
            0x30 | 0x32 | 0x33 | 0x34 | 0x36 | 0x38 | 0x3a | 0x3d | 0x48 | 0x4a | 0x50
            | 0x58 | 0x59 | 0x5a | 0x5f => 2,
            0x31 | 0x3b | 0x3c | 0x40 => 20,
            0x3f => 400,
            0x54 => 50,
            0x55 => 5000,
            0x5b => 1,
            0xf1 | 0xf2 | 0xf4 => 40,
            0xfa => 700,
            _ => 3,
        }
    }
}

fn inputs_of(byte: u8) -> (r: u8)
    ensures
        r == table_inputs(byte),
{
    if 0x41 <= byte && byte <= 0x48 {
        0
    } else if 0x5f <= byte && byte <= 0x7f {
        0
    } else if 0x80 <= byte && byte <= 0x8f {
        byte - 0x7f
    } else if 0x90 <= byte && byte <= 0x9f {
        byte - 0x8e
    } else {
        match byte {
            0x00 | 0x30 | 0x32 | 0x33 | 0x34 | 0x36 | 0x38 | 0x3a | 0x3d | 0x4a | 0x58
            | 0x59 | 0x5a | 0x5b | 0xfe => 0,
            0x08 | 0x09 | 0x37 | 0x39 | 0x3e | 0x5e | 0xa1 | 0xf0 => 3,
            0x15 | 0x19 | 0x31 | 0x35 | 0x3b | 0x3f | 0x40 | 0x49 | 0x50 | 0x51 | 0x54
            | 0x56 | 0x5c | 0xff => 1,
            0x3c | 0xa2 | 0xf5 => 4,
            0xa3 => 5,
            0xa4 | 0xf4 | 0xfa => 6,
            0xf1 | 0xf2 => 7,
            _ => 2,
        }
    }
}

fn outputs_of(byte: u8) -> (r: u8)
    ensures
        r == table_outputs(byte),
{
    if 0x80 <= byte && byte <= 0x8f {
        byte - 0x7e
    } else if 0x90 <= byte && byte <= 0x9f {
        byte - 0x8e
    } else if 0xa0 <= byte && byte <= 0xa4 {
        0
    } else {
        match byte {
            0x00 | 0x37 | 0x39 | 0x3c | 0x3e | 0x50 | 0x52 | 0x53 | 0x55 | 0x56 | 0x57
            | 0x5b | 0x5d | 0x5e | 0xf3 | 0xfd | 0xfe | 0xff => 0,
            _ => 1,
        }
    }
}

fn introduced_of(byte: u8) -> (r: Fork)
    ensures
        r == table_introduced(byte),
{
    match byte {
        0x1b | 0x1c | 0x1d | 0x3f | 0xf5 => Fork::Constantinople,
        0x3d | 0x3e | 0xfa | 0xfd => Fork::Byzantium,
        0x46 | 0x47 => Fork::Istanbul,
        0x48 => Fork::London,
        0x49 | 0x4a | 0x5c | 0x5d | 0x5e => Fork::Cancun,
        0x5f => Fork::Shanghai,
        0xf4 => Fork::Homestead,
        _ => Fork::Frontier,
    }
}

fn group_of(byte: u8) -> (r: Group)
    ensures
        r == table_group(byte),
{
    if byte <= 0x0f {
        Group::StopArithmetic
    } else if byte <= 0x1f {
        Group::ComparisonBitwiseLogic
    } else if byte <= 0x2f {
        Group::Sha3
    } else if byte <= 0x3f {
        Group::EnvironmentalInformation
    } else if byte <= 0x4f {
        Group::BlockInformation
    } else if byte <= 0x5f {
        Group::StackMemoryStorageFlow
    } else if byte <= 0x7f {
        Group::Push
    } else if byte <= 0x8f {
        Group::Duplication
    } else if byte <= 0x9f {
        Group::Exchange
    } else if byte <= 0xaf {
        Group::Logging
    } else {
        Group::System
    }
}

fn eip_of(byte: u8) -> (r: Option<u16>)
    ensures
        r == table_eip(byte),
{
    match byte {
        0x1b | 0x1c | 0x1d => Some(145),
        0x3d | 0x3e => Some(211),
        0x3f => Some(1052),
        0x46 => Some(1344),
        0x47 => Some(1884),
        0x48 => Some(3198),
        0x49 => Some(4844),
        0x4a => Some(7516),
        0x5c | 0x5d => Some(1153),
        0x5e => Some(5656),
        0x5f => Some(3855),
        0xf4 => Some(7),
        0xf5 => Some(1014),
        0xfa => Some(214),
        0xfd => Some(140),
        _ => None,
    }
}

fn history_of(byte: u8) -> (r: Vec<(Fork, u16)>)
    ensures
        r@ == table_history(byte),
{
    let r: Vec<(Fork, u16)> = {
    match byte {
        0x31 => vec![(Fork::TangerineWhistle, 400u16), (Fork::Istanbul, 700u16), (Fork::Berlin, 0u16)],
        0x3b | 0x3c => vec![(Fork::TangerineWhistle, 700u16), (Fork::Berlin, 0u16)],
        0x3f => vec![(Fork::Istanbul, 700u16), (Fork::Berlin, 0u16)],
        0x54 => vec![(Fork::TangerineWhistle, 200u16), (Fork::Istanbul, 800u16), (Fork::Berlin, 0u16)],
        0x55 => vec![(Fork::Istanbul, 800u16), (Fork::Berlin, 100u16)],
        0xf1 | 0xf2 | 0xf4 => vec![(Fork::TangerineWhistle, 700u16), (Fork::Berlin, 100u16)],
        0xfa => vec![(Fork::Berlin, 100u16)],
        0xff => vec![(Fork::TangerineWhistle, 5000u16)],
        _ => Vec::new(),
    }
    };
    proof {
        assert(r@ =~= table_history(byte));
    }
    r
}

/// The record of the canonical table for `byte`, if the byte is assigned.
pub fn canonical_metadata(byte: u8) -> (m: Option<OpcodeMetadata>)
    ensures
        m is Some <==> table_defines(byte),
        m is Some ==> m->0@ == table_entry(byte),
{
    if defines(byte) {
        Some(
            OpcodeMetadata {
                opcode: byte,
                name: name_of(byte),
                gas_cost: gas_of(byte),
                stack_inputs: inputs_of(byte),
                stack_outputs: outputs_of(byte),
                description: description_of(byte),
                introduced_in: introduced_of(byte),
                group: group_of(byte),
                eip: eip_of(byte),
                gas_history: history_of(byte),
            },
        )
    } else {
        None
    }
}

/// A list of records seen as the sequence of what they hold.
pub open spec fn table_view(t: Seq<OpcodeMetadata>) -> Seq<MetadataView> {
    t.map_values(|m: OpcodeMetadata| m@)
}

/// The opcode table of `fork`: the record of every opcode that exists at
/// that fork, in ascending order of the byte.
pub fn fork_table(fork: Fork) -> (t: Vec<OpcodeMetadata>)
    ensures
        table_view(t@) == fork_table_view(fork),
{
    let mut t: Vec<OpcodeMetadata> = Vec::new();
    let mut b: u16 = 0;
    proof {
        assert(table_view(t@) =~= table_below(fork, 0));
    }
    while b < 256
        invariant
            b <= 256,
            table_view(t@) == table_below(fork, b as int),
        decreases 256 - b,
    {
        let byte: u8 = b as u8;
        if let Some(m) = canonical_metadata(byte) {
            if fork.at_least(m.introduced_in) {
                proof {
                    assert(table_view(t@.push(m)) =~= table_view(t@).push(m@));
                }
                t.push(m);
            }
        }
        b += 1;
    }
    t
}

} // verus!
