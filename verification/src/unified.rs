//! Unified opcode interface for bytecode manipulation tools.
//!
//! This module provides a simplified, fork-agnostic interface to EVM opcodes
//! for bytecode analysis and manipulation tools like obfuscators,
//! analyzers, and parsers.

use vstd::prelude::*;
use vstd::string::{StrSliceExecFns, StringExecFns};
use crate::fork::Fork;
use crate::metadata::OpcodeMetadata;
use crate::registry::{effective_opcodes, standard_tables, OpcodeRegistry};
use crate::text::{decimal, hex2, push_decimal, push_hex2};

verus! {

/// Unified opcode enum that abstracts away fork-specific details.
///
/// `PUSH`, `DUP` and `SWAP` carry their number: `PUSH(1)` to `PUSH(32)`,
/// `DUP(1)` to `DUP(16)`, `SWAP(1)` to `SWAP(16)`. A byte that has no
/// opcode is `UNKNOWN` with that byte.
#[derive(Clone, Copy, Debug, PartialEq, Eq, Hash, Structural)]
pub enum UnifiedOpcode {
    /// Halts execution (0x00)
    STOP,
    /// Addition operation (0x01)
    ADD,
    /// Multiplication operation (0x02)
    MUL,
    /// Subtraction operation (0x03)
    SUB,
    /// Integer division operation (0x04)
    DIV,
    /// Signed integer division operation (0x05)
    SDIV,
    /// Modulo remainder operation (0x06)
    MOD,
    /// Signed modulo remainder operation (0x07)
    SMOD,
    /// Modulo addition operation (0x08)
    ADDMOD,
    /// Modulo multiplication operation (0x09)
    MULMOD,
    /// Exponential operation (0x0a)
    EXP,
    /// Extend length of two's complement signed integer (0x0b)
    SIGNEXTEND,
    /// Less-than comparison (0x10)
    LT,
    /// Greater-than comparison (0x11)
    GT,
    /// Signed less-than comparison (0x12)
    SLT,
    /// Signed greater-than comparison (0x13)
    SGT,
    /// Equality comparison (0x14)
    EQ,
    /// Simple not operator (0x15)
    ISZERO,
    /// Bitwise AND operation (0x16)
    AND,
    /// Bitwise OR operation (0x17)
    OR,
    /// Bitwise XOR operation (0x18)
    XOR,
    /// Bitwise NOT operation (0x19)
    NOT,
    /// Retrieve single byte from word (0x1a)
    BYTE,
    /// Left shift operation (0x1b)
    SHL,
    /// Logical right shift operation (0x1c)
    SHR,
    /// Arithmetic right shift operation (0x1d)
    SAR,
    /// Compute Keccak-256 hash (0x20)
    KECCAK256,
    /// Get address of currently executing account (0x30)
    ADDRESS,
    /// Get balance of the given account (0x31)
    BALANCE,
    /// Get execution origination address (0x32)
    ORIGIN,
    /// Get caller address (0x33)
    CALLER,
    /// Get deposited value by the instruction/transaction responsible for this execution (0x34)
    CALLVALUE,
    /// Get input data in current environment (0x35)
    CALLDATALOAD,
    /// Get size of input data in current environment (0x36)
    CALLDATASIZE,
    /// Copy input data in current environment to memory (0x37)
    CALLDATACOPY,
    /// Get size of code running in current environment (0x38)
    CODESIZE,
    /// Copy code running in current environment to memory (0x39)
    CODECOPY,
    /// Get price of gas in current environment (0x3a)
    GASPRICE,
    /// Get size of an account's code (0x3b)
    EXTCODESIZE,
    /// Copy an account's code to memory (0x3c)
    EXTCODECOPY,
    /// Get size of output data from the previous call from the current environment (0x3d)
    RETURNDATASIZE,
    /// Copy output data from the previous call to memory (0x3e)
    RETURNDATACOPY,
    /// Get hash of an account's code (0x3f)
    EXTCODEHASH,
    /// Get the hash of one of the 256 most recent complete blocks (0x40)
    BLOCKHASH,
    /// Get the block's beneficiary address (0x41)
    COINBASE,
    /// Get the block's timestamp (0x42)
    TIMESTAMP,
    /// Get the block's number (0x43)
    NUMBER,
    /// Get the block's difficulty (pre-Merge) / previous beacon chain randomness (post-Merge) (0x44)
    DIFFICULTY,
    /// Get the block's gas limit (0x45)
    GASLIMIT,
    /// Get the chain ID (0x46)
    CHAINID,
    /// Get balance of currently executing account (0x47)
    SELFBALANCE,
    /// Get the base fee (0x48)
    BASEFEE,
    /// Get the versioned hash of the i-th blob (0x49, Cancun)
    BLOBHASH,
    /// Get the blob base fee (0x4a, Cancun)
    BLOBBASEFEE,
    /// Remove item from stack (0x50)
    POP,
    /// Load word from memory (0x51)
    MLOAD,
    /// Save word to memory (0x52)
    MSTORE,
    /// Save byte to memory (0x53)
    MSTORE8,
    /// Load word from storage (0x54)
    SLOAD,
    /// Save word to storage (0x55)
    SSTORE,
    /// Alter the program counter (0x56)
    JUMP,
    /// Conditionally alter the program counter (0x57)
    JUMPI,
    /// Get the value of the program counter prior to the increment (0x58)
    PC,
    /// Get the size of active memory in bytes (0x59)
    MSIZE,
    /// Get the amount of available gas (0x5a)
    GAS,
    /// Mark a valid destination for jumps (0x5b)
    JUMPDEST,
    /// Load word from transient storage (0x5c, Cancun)
    TLOAD,
    /// Save word to transient storage (0x5d, Cancun)
    TSTORE,
    /// Copy memory from one location to another (0x5e, Cancun)
    MCOPY,
    /// Place 0 byte item on stack (0x5f, Shanghai)
    PUSH0,
    /// Place n-byte item on stack (PUSH1-PUSH32, 1-32 bytes)
    PUSH(u8),
    /// Duplicate nth stack item (DUP1-DUP16)
    DUP(u8),
    /// Exchange 1st and nth stack items (SWAP1-SWAP16)
    SWAP(u8),
    /// Append log record with no topics (0xa0)
    LOG0,
    /// Append log record with one topic (0xa1)
    LOG1,
    /// Append log record with two topics (0xa2)
    LOG2,
    /// Append log record with three topics (0xa3)
    LOG3,
    /// Append log record with four topics (0xa4)
    LOG4,
    /// Create a new account with associated code (0xf0)
    CREATE,
    /// Message-call into an account (0xf1)
    CALL,
    /// Message-call into this account with alternative account's code (0xf2)
    CALLCODE,
    /// Halt execution returning output data (0xf3)
    RETURN,
    /// Message-call into an account with caller's code (0xf4)
    DELEGATECALL,
    /// Create a new account with associated code at a predictable address (0xf5)
    CREATE2,
    /// Static message-call into an account (0xfa)
    STATICCALL,
    /// Halt execution reverting state changes (0xfd)
    REVERT,
    /// Designated invalid instruction (0xfe)
    INVALID,
    /// Halt execution and register account for later deletion (0xff)
    SELFDESTRUCT,
    /// Catch-all for unknown or unsupported opcodes
    UNKNOWN(u8),
}

/// The opcode that a byte stands for, whatever the fork.
pub open spec fn opcode_of_byte(byte: u8) -> UnifiedOpcode {
    if 0x60 <= byte <= 0x7f {
        UnifiedOpcode::PUSH((byte - 0x5f) as u8)
    } else if 0x80 <= byte <= 0x8f {
        UnifiedOpcode::DUP((byte - 0x7f) as u8)
    } else if 0x90 <= byte <= 0x9f {
        UnifiedOpcode::SWAP((byte - 0x8f) as u8)
    } else {
        match byte {
            0x00 => UnifiedOpcode::STOP,
            0x01 => UnifiedOpcode::ADD,
            0x02 => UnifiedOpcode::MUL,
            0x03 => UnifiedOpcode::SUB,
            0x04 => UnifiedOpcode::DIV,
            0x05 => UnifiedOpcode::SDIV,
            0x06 => UnifiedOpcode::MOD,
            0x07 => UnifiedOpcode::SMOD,
            0x08 => UnifiedOpcode::ADDMOD,
            0x09 => UnifiedOpcode::MULMOD,
            0x0a => UnifiedOpcode::EXP,
            0x0b => UnifiedOpcode::SIGNEXTEND,
            0x10 => UnifiedOpcode::LT,
            0x11 => UnifiedOpcode::GT,
            0x12 => UnifiedOpcode::SLT,
            0x13 => UnifiedOpcode::SGT,
            0x14 => UnifiedOpcode::EQ,
            0x15 => UnifiedOpcode::ISZERO,
            0x16 => UnifiedOpcode::AND,
            0x17 => UnifiedOpcode::OR,
            0x18 => UnifiedOpcode::XOR,
            0x19 => UnifiedOpcode::NOT,
            0x1a => UnifiedOpcode::BYTE,
            0x1b => UnifiedOpcode::SHL,
            0x1c => UnifiedOpcode::SHR,
            0x1d => UnifiedOpcode::SAR,
            0x20 => UnifiedOpcode::KECCAK256,
            0x30 => UnifiedOpcode::ADDRESS,
            0x31 => UnifiedOpcode::BALANCE,
            0x32 => UnifiedOpcode::ORIGIN,
            0x33 => UnifiedOpcode::CALLER,
            0x34 => UnifiedOpcode::CALLVALUE,
            0x35 => UnifiedOpcode::CALLDATALOAD,
            0x36 => UnifiedOpcode::CALLDATASIZE,
            0x37 => UnifiedOpcode::CALLDATACOPY,
            0x38 => UnifiedOpcode::CODESIZE,
            0x39 => UnifiedOpcode::CODECOPY,
            0x3a => UnifiedOpcode::GASPRICE,
            0x3b => UnifiedOpcode::EXTCODESIZE,
            0x3c => UnifiedOpcode::EXTCODECOPY,
            0x3d => UnifiedOpcode::RETURNDATASIZE,
            0x3e => UnifiedOpcode::RETURNDATACOPY,
            0x3f => UnifiedOpcode::EXTCODEHASH,
            0x40 => UnifiedOpcode::BLOCKHASH,
            0x41 => UnifiedOpcode::COINBASE,
            0x42 => UnifiedOpcode::TIMESTAMP,
            0x43 => UnifiedOpcode::NUMBER,
            0x44 => UnifiedOpcode::DIFFICULTY,
            0x45 => UnifiedOpcode::GASLIMIT,
            0x46 => UnifiedOpcode::CHAINID,
            0x47 => UnifiedOpcode::SELFBALANCE,
            0x48 => UnifiedOpcode::BASEFEE,
            0x49 => UnifiedOpcode::BLOBHASH,
            0x4a => UnifiedOpcode::BLOBBASEFEE,
            0x50 => UnifiedOpcode::POP,
            0x51 => UnifiedOpcode::MLOAD,
            0x52 => UnifiedOpcode::MSTORE,
            0x53 => UnifiedOpcode::MSTORE8,
            0x54 => UnifiedOpcode::SLOAD,
            0x55 => UnifiedOpcode::SSTORE,
            0x56 => UnifiedOpcode::JUMP,
            0x57 => UnifiedOpcode::JUMPI,
            0x58 => UnifiedOpcode::PC,
            0x59 => UnifiedOpcode::MSIZE,
            0x5a => UnifiedOpcode::GAS,
            0x5b => UnifiedOpcode::JUMPDEST,
            0x5c => UnifiedOpcode::TLOAD,
            0x5d => UnifiedOpcode::TSTORE,
            0x5e => UnifiedOpcode::MCOPY,
            0x5f => UnifiedOpcode::PUSH0,
            0xa0 => UnifiedOpcode::LOG0,
            0xa1 => UnifiedOpcode::LOG1,
            0xa2 => UnifiedOpcode::LOG2,
            0xa3 => UnifiedOpcode::LOG3,
            0xa4 => UnifiedOpcode::LOG4,
            0xf0 => UnifiedOpcode::CREATE,
            0xf1 => UnifiedOpcode::CALL,
            0xf2 => UnifiedOpcode::CALLCODE,
            0xf3 => UnifiedOpcode::RETURN,
            0xf4 => UnifiedOpcode::DELEGATECALL,
            0xf5 => UnifiedOpcode::CREATE2,
            0xfa => UnifiedOpcode::STATICCALL,
            0xfd => UnifiedOpcode::REVERT,
            0xfe => UnifiedOpcode::INVALID,
            0xff => UnifiedOpcode::SELFDESTRUCT,
            _ => UnifiedOpcode::UNKNOWN(byte),
        }
    }
}

/// The byte of an opcode. The number of a `PUSH`, `DUP` or `SWAP` is
/// added to the byte before the first of its kind, modulo 256.
pub open spec fn byte_of_opcode(opcode: UnifiedOpcode) -> u8 {
    match opcode {
        UnifiedOpcode::STOP => 0x00,
        UnifiedOpcode::ADD => 0x01,
        UnifiedOpcode::MUL => 0x02,
        UnifiedOpcode::SUB => 0x03,
        UnifiedOpcode::DIV => 0x04,
        UnifiedOpcode::SDIV => 0x05,
        UnifiedOpcode::MOD => 0x06,
        UnifiedOpcode::SMOD => 0x07,
        UnifiedOpcode::ADDMOD => 0x08,
        UnifiedOpcode::MULMOD => 0x09,
        UnifiedOpcode::EXP => 0x0a,
        UnifiedOpcode::SIGNEXTEND => 0x0b,
        UnifiedOpcode::LT => 0x10,
        UnifiedOpcode::GT => 0x11,
        UnifiedOpcode::SLT => 0x12,
        UnifiedOpcode::SGT => 0x13,
        UnifiedOpcode::EQ => 0x14,
        UnifiedOpcode::ISZERO => 0x15,
        UnifiedOpcode::AND => 0x16,
        UnifiedOpcode::OR => 0x17,
        UnifiedOpcode::XOR => 0x18,
        UnifiedOpcode::NOT => 0x19,
        UnifiedOpcode::BYTE => 0x1a,
        UnifiedOpcode::SHL => 0x1b,
        UnifiedOpcode::SHR => 0x1c,
        UnifiedOpcode::SAR => 0x1d,
        UnifiedOpcode::KECCAK256 => 0x20,
        UnifiedOpcode::ADDRESS => 0x30,
        UnifiedOpcode::BALANCE => 0x31,
        UnifiedOpcode::ORIGIN => 0x32,
        UnifiedOpcode::CALLER => 0x33,
        UnifiedOpcode::CALLVALUE => 0x34,
        UnifiedOpcode::CALLDATALOAD => 0x35,
        UnifiedOpcode::CALLDATASIZE => 0x36,
        UnifiedOpcode::CALLDATACOPY => 0x37,
        UnifiedOpcode::CODESIZE => 0x38,
        UnifiedOpcode::CODECOPY => 0x39,
        UnifiedOpcode::GASPRICE => 0x3a,
        UnifiedOpcode::EXTCODESIZE => 0x3b,
        UnifiedOpcode::EXTCODECOPY => 0x3c,
        UnifiedOpcode::RETURNDATASIZE => 0x3d,
        UnifiedOpcode::RETURNDATACOPY => 0x3e,
        UnifiedOpcode::EXTCODEHASH => 0x3f,
        UnifiedOpcode::BLOCKHASH => 0x40,
        UnifiedOpcode::COINBASE => 0x41,
        UnifiedOpcode::TIMESTAMP => 0x42,
        UnifiedOpcode::NUMBER => 0x43,
        UnifiedOpcode::DIFFICULTY => 0x44,
        UnifiedOpcode::GASLIMIT => 0x45,
        UnifiedOpcode::CHAINID => 0x46,
        UnifiedOpcode::SELFBALANCE => 0x47,
        UnifiedOpcode::BASEFEE => 0x48,
        UnifiedOpcode::BLOBHASH => 0x49,
        UnifiedOpcode::BLOBBASEFEE => 0x4a,
        UnifiedOpcode::POP => 0x50,
        UnifiedOpcode::MLOAD => 0x51,
        UnifiedOpcode::MSTORE => 0x52,
        UnifiedOpcode::MSTORE8 => 0x53,
        UnifiedOpcode::SLOAD => 0x54,
        UnifiedOpcode::SSTORE => 0x55,
        UnifiedOpcode::JUMP => 0x56,
        UnifiedOpcode::JUMPI => 0x57,
        UnifiedOpcode::PC => 0x58,
        UnifiedOpcode::MSIZE => 0x59,
        UnifiedOpcode::GAS => 0x5a,
        UnifiedOpcode::JUMPDEST => 0x5b,
        UnifiedOpcode::TLOAD => 0x5c,
        UnifiedOpcode::TSTORE => 0x5d,
        UnifiedOpcode::MCOPY => 0x5e,
        UnifiedOpcode::PUSH0 => 0x5f,
        UnifiedOpcode::LOG0 => 0xa0,
        UnifiedOpcode::LOG1 => 0xa1,
        UnifiedOpcode::LOG2 => 0xa2,
        UnifiedOpcode::LOG3 => 0xa3,
        UnifiedOpcode::LOG4 => 0xa4,
        UnifiedOpcode::CREATE => 0xf0,
        UnifiedOpcode::CALL => 0xf1,
        UnifiedOpcode::CALLCODE => 0xf2,
        UnifiedOpcode::RETURN => 0xf3,
        UnifiedOpcode::DELEGATECALL => 0xf4,
        UnifiedOpcode::CREATE2 => 0xf5,
        UnifiedOpcode::STATICCALL => 0xfa,
        UnifiedOpcode::REVERT => 0xfd,
        UnifiedOpcode::INVALID => 0xfe,
        UnifiedOpcode::SELFDESTRUCT => 0xff,
        UnifiedOpcode::PUSH(n) => ((0x5f + n) % 256) as u8,
        UnifiedOpcode::DUP(n) => ((0x7f + n) % 256) as u8,
        UnifiedOpcode::SWAP(n) => ((0x8f + n) % 256) as u8,
        UnifiedOpcode::UNKNOWN(byte) => byte,
    }
}

/// The opcode ends a basic block or leaves the current frame: halts,
/// jumps and their destinations, calls and creations.
pub open spec fn alters_control_flow(opcode: UnifiedOpcode) -> bool {
    match opcode {
        UnifiedOpcode::STOP
        | UnifiedOpcode::JUMP
        | UnifiedOpcode::JUMPI
        | UnifiedOpcode::JUMPDEST
        | UnifiedOpcode::RETURN
        | UnifiedOpcode::REVERT
        | UnifiedOpcode::INVALID
        | UnifiedOpcode::SELFDESTRUCT
        | UnifiedOpcode::CREATE
        | UnifiedOpcode::CREATE2
        | UnifiedOpcode::CALL
        | UnifiedOpcode::CALLCODE
        | UnifiedOpcode::DELEGATECALL
        | UnifiedOpcode::STATICCALL => true,
        _ => false,
    }
}

/// The name of an opcode: its mnemonic, with the number for `PUSH`,
/// `DUP` and `SWAP`, and `UNKNOWN` with the two hexadecimal digits of
/// the byte for a byte without opcode.
pub open spec fn name_of_opcode(opcode: UnifiedOpcode) -> Seq<char> {
    match opcode {
        UnifiedOpcode::STOP => "STOP"@,
        UnifiedOpcode::ADD => "ADD"@,
        UnifiedOpcode::MUL => "MUL"@,
        UnifiedOpcode::SUB => "SUB"@,
        UnifiedOpcode::DIV => "DIV"@,
        UnifiedOpcode::SDIV => "SDIV"@,
        UnifiedOpcode::MOD => "MOD"@,
        UnifiedOpcode::SMOD => "SMOD"@,
        UnifiedOpcode::ADDMOD => "ADDMOD"@,
        UnifiedOpcode::MULMOD => "MULMOD"@,
        UnifiedOpcode::EXP => "EXP"@,
        UnifiedOpcode::SIGNEXTEND => "SIGNEXTEND"@,
        UnifiedOpcode::LT => "LT"@,
        UnifiedOpcode::GT => "GT"@,
        UnifiedOpcode::SLT => "SLT"@,
        UnifiedOpcode::SGT => "SGT"@,
        UnifiedOpcode::EQ => "EQ"@,
        UnifiedOpcode::ISZERO => "ISZERO"@,
        UnifiedOpcode::AND => "AND"@,
        UnifiedOpcode::OR => "OR"@,
        UnifiedOpcode::XOR => "XOR"@,
        UnifiedOpcode::NOT => "NOT"@,
        UnifiedOpcode::BYTE => "BYTE"@,
        UnifiedOpcode::SHL => "SHL"@,
        UnifiedOpcode::SHR => "SHR"@,
        UnifiedOpcode::SAR => "SAR"@,
        UnifiedOpcode::KECCAK256 => "KECCAK256"@,
        UnifiedOpcode::ADDRESS => "ADDRESS"@,
        UnifiedOpcode::BALANCE => "BALANCE"@,
        UnifiedOpcode::ORIGIN => "ORIGIN"@,
        UnifiedOpcode::CALLER => "CALLER"@,
        UnifiedOpcode::CALLVALUE => "CALLVALUE"@,
        UnifiedOpcode::CALLDATALOAD => "CALLDATALOAD"@,
        UnifiedOpcode::CALLDATASIZE => "CALLDATASIZE"@,
        UnifiedOpcode::CALLDATACOPY => "CALLDATACOPY"@,
        UnifiedOpcode::CODESIZE => "CODESIZE"@,
        UnifiedOpcode::CODECOPY => "CODECOPY"@,
        UnifiedOpcode::GASPRICE => "GASPRICE"@,
        UnifiedOpcode::EXTCODESIZE => "EXTCODESIZE"@,
        UnifiedOpcode::EXTCODECOPY => "EXTCODECOPY"@,
        UnifiedOpcode::RETURNDATASIZE => "RETURNDATASIZE"@,
        UnifiedOpcode::RETURNDATACOPY => "RETURNDATACOPY"@,
        UnifiedOpcode::EXTCODEHASH => "EXTCODEHASH"@,
        UnifiedOpcode::BLOCKHASH => "BLOCKHASH"@,
        UnifiedOpcode::COINBASE => "COINBASE"@,
        UnifiedOpcode::TIMESTAMP => "TIMESTAMP"@,
        UnifiedOpcode::NUMBER => "NUMBER"@,
        UnifiedOpcode::DIFFICULTY => "DIFFICULTY"@,
        UnifiedOpcode::GASLIMIT => "GASLIMIT"@,
        UnifiedOpcode::CHAINID => "CHAINID"@,
        UnifiedOpcode::SELFBALANCE => "SELFBALANCE"@,
        UnifiedOpcode::BASEFEE => "BASEFEE"@,
        UnifiedOpcode::BLOBHASH => "BLOBHASH"@,
        UnifiedOpcode::BLOBBASEFEE => "BLOBBASEFEE"@,
        UnifiedOpcode::POP => "POP"@,
        UnifiedOpcode::MLOAD => "MLOAD"@,
        UnifiedOpcode::MSTORE => "MSTORE"@,
        UnifiedOpcode::MSTORE8 => "MSTORE8"@,
        UnifiedOpcode::SLOAD => "SLOAD"@,
        UnifiedOpcode::SSTORE => "SSTORE"@,
        UnifiedOpcode::JUMP => "JUMP"@,
        UnifiedOpcode::JUMPI => "JUMPI"@,
        UnifiedOpcode::PC => "PC"@,
        UnifiedOpcode::MSIZE => "MSIZE"@,
        UnifiedOpcode::GAS => "GAS"@,
        UnifiedOpcode::JUMPDEST => "JUMPDEST"@,
        UnifiedOpcode::TLOAD => "TLOAD"@,
        UnifiedOpcode::TSTORE => "TSTORE"@,
        UnifiedOpcode::MCOPY => "MCOPY"@,
        UnifiedOpcode::PUSH0 => "PUSH0"@,
        UnifiedOpcode::LOG0 => "LOG0"@,
        UnifiedOpcode::LOG1 => "LOG1"@,
        UnifiedOpcode::LOG2 => "LOG2"@,
        UnifiedOpcode::LOG3 => "LOG3"@,
        UnifiedOpcode::LOG4 => "LOG4"@,
        UnifiedOpcode::CREATE => "CREATE"@,
        UnifiedOpcode::CALL => "CALL"@,
        UnifiedOpcode::CALLCODE => "CALLCODE"@,
        UnifiedOpcode::RETURN => "RETURN"@,
        UnifiedOpcode::DELEGATECALL => "DELEGATECALL"@,
        UnifiedOpcode::CREATE2 => "CREATE2"@,
        UnifiedOpcode::STATICCALL => "STATICCALL"@,
        UnifiedOpcode::REVERT => "REVERT"@,
        UnifiedOpcode::INVALID => "INVALID"@,
        UnifiedOpcode::SELFDESTRUCT => "SELFDESTRUCT"@,
        UnifiedOpcode::PUSH(n) => "PUSH"@ + decimal(n as nat),
        UnifiedOpcode::DUP(n) => "DUP"@ + decimal(n as nat),
        UnifiedOpcode::SWAP(n) => "SWAP"@ + decimal(n as nat),
        UnifiedOpcode::UNKNOWN(byte) => "UNKNOWN"@ + hex2(byte),
    }
}

/// The opcode that a name without a number stands for. KECCAK256 is
/// also known as SHA3, and DIFFICULTY as PREVRANDAO.
pub open spec fn opcode_of_name(name: Seq<char>) -> Option<UnifiedOpcode> {
    if name == "STOP"@ {
        Some(UnifiedOpcode::STOP)
    } else if name == "ADD"@ {
        Some(UnifiedOpcode::ADD)
    } else if name == "MUL"@ {
        Some(UnifiedOpcode::MUL)
    } else if name == "SUB"@ {
        Some(UnifiedOpcode::SUB)
    } else if name == "DIV"@ {
        Some(UnifiedOpcode::DIV)
    } else if name == "SDIV"@ {
        Some(UnifiedOpcode::SDIV)
    } else if name == "MOD"@ {
        Some(UnifiedOpcode::MOD)
    } else if name == "SMOD"@ {
        Some(UnifiedOpcode::SMOD)
    } else if name == "ADDMOD"@ {
        Some(UnifiedOpcode::ADDMOD)
    } else if name == "MULMOD"@ {
        Some(UnifiedOpcode::MULMOD)
    } else if name == "EXP"@ {
        Some(UnifiedOpcode::EXP)
    } else if name == "SIGNEXTEND"@ {
        Some(UnifiedOpcode::SIGNEXTEND)
    } else if name == "LT"@ {
        Some(UnifiedOpcode::LT)
    } else if name == "GT"@ {
        Some(UnifiedOpcode::GT)
    } else if name == "SLT"@ {
        Some(UnifiedOpcode::SLT)
    } else if name == "SGT"@ {
        Some(UnifiedOpcode::SGT)
    } else if name == "EQ"@ {
        Some(UnifiedOpcode::EQ)
    } else if name == "ISZERO"@ {
        Some(UnifiedOpcode::ISZERO)
    } else if name == "AND"@ {
        Some(UnifiedOpcode::AND)
    } else if name == "OR"@ {
        Some(UnifiedOpcode::OR)
    } else if name == "XOR"@ {
        Some(UnifiedOpcode::XOR)
    } else if name == "NOT"@ {
        Some(UnifiedOpcode::NOT)
    } else if name == "BYTE"@ {
        Some(UnifiedOpcode::BYTE)
    } else if name == "SHL"@ {
        Some(UnifiedOpcode::SHL)
    } else if name == "SHR"@ {
        Some(UnifiedOpcode::SHR)
    } else if name == "SAR"@ {
        Some(UnifiedOpcode::SAR)
    } else if name == "SHA3"@ {
        Some(UnifiedOpcode::KECCAK256)
    } else if name == "KECCAK256"@ {
        Some(UnifiedOpcode::KECCAK256)
    } else if name == "ADDRESS"@ {
        Some(UnifiedOpcode::ADDRESS)
    } else if name == "BALANCE"@ {
        Some(UnifiedOpcode::BALANCE)
    } else if name == "ORIGIN"@ {
        Some(UnifiedOpcode::ORIGIN)
    } else if name == "CALLER"@ {
        Some(UnifiedOpcode::CALLER)
    } else if name == "CALLVALUE"@ {
        Some(UnifiedOpcode::CALLVALUE)
    } else if name == "CALLDATALOAD"@ {
        Some(UnifiedOpcode::CALLDATALOAD)
    } else if name == "CALLDATASIZE"@ {
        Some(UnifiedOpcode::CALLDATASIZE)
    } else if name == "CALLDATACOPY"@ {
        Some(UnifiedOpcode::CALLDATACOPY)
    } else if name == "CODESIZE"@ {
        Some(UnifiedOpcode::CODESIZE)
    } else if name == "CODECOPY"@ {
        Some(UnifiedOpcode::CODECOPY)
    } else if name == "GASPRICE"@ {
        Some(UnifiedOpcode::GASPRICE)
    } else if name == "EXTCODESIZE"@ {
        Some(UnifiedOpcode::EXTCODESIZE)
    } else if name == "EXTCODECOPY"@ {
        Some(UnifiedOpcode::EXTCODECOPY)
    } else if name == "RETURNDATASIZE"@ {
        Some(UnifiedOpcode::RETURNDATASIZE)
    } else if name == "RETURNDATACOPY"@ {
        Some(UnifiedOpcode::RETURNDATACOPY)
    } else if name == "EXTCODEHASH"@ {
        Some(UnifiedOpcode::EXTCODEHASH)
    } else if name == "BLOCKHASH"@ {
        Some(UnifiedOpcode::BLOCKHASH)
    } else if name == "COINBASE"@ {
        Some(UnifiedOpcode::COINBASE)
    } else if name == "TIMESTAMP"@ {
        Some(UnifiedOpcode::TIMESTAMP)
    } else if name == "NUMBER"@ {
        Some(UnifiedOpcode::NUMBER)
    } else if name == "DIFFICULTY"@ {
        Some(UnifiedOpcode::DIFFICULTY)
    } else if name == "PREVRANDAO"@ {
        Some(UnifiedOpcode::DIFFICULTY)
    } else if name == "GASLIMIT"@ {
        Some(UnifiedOpcode::GASLIMIT)
    } else if name == "CHAINID"@ {
        Some(UnifiedOpcode::CHAINID)
    } else if name == "SELFBALANCE"@ {
        Some(UnifiedOpcode::SELFBALANCE)
    } else if name == "BASEFEE"@ {
        Some(UnifiedOpcode::BASEFEE)
    } else if name == "BLOBHASH"@ {
        Some(UnifiedOpcode::BLOBHASH)
    } else if name == "BLOBBASEFEE"@ {
        Some(UnifiedOpcode::BLOBBASEFEE)
    } else if name == "POP"@ {
        Some(UnifiedOpcode::POP)
    } else if name == "MLOAD"@ {
        Some(UnifiedOpcode::MLOAD)
    } else if name == "MSTORE"@ {
        Some(UnifiedOpcode::MSTORE)
    } else if name == "MSTORE8"@ {
        Some(UnifiedOpcode::MSTORE8)
    } else if name == "SLOAD"@ {
        Some(UnifiedOpcode::SLOAD)
    } else if name == "SSTORE"@ {
        Some(UnifiedOpcode::SSTORE)
    } else if name == "JUMP"@ {
        Some(UnifiedOpcode::JUMP)
    } else if name == "JUMPI"@ {
        Some(UnifiedOpcode::JUMPI)
    } else if name == "PC"@ {
        Some(UnifiedOpcode::PC)
    } else if name == "MSIZE"@ {
        Some(UnifiedOpcode::MSIZE)
    } else if name == "GAS"@ {
        Some(UnifiedOpcode::GAS)
    } else if name == "JUMPDEST"@ {
        Some(UnifiedOpcode::JUMPDEST)
    } else if name == "TLOAD"@ {
        Some(UnifiedOpcode::TLOAD)
    } else if name == "TSTORE"@ {
        Some(UnifiedOpcode::TSTORE)
    } else if name == "MCOPY"@ {
        Some(UnifiedOpcode::MCOPY)
    } else if name == "PUSH0"@ {
        Some(UnifiedOpcode::PUSH0)
    } else if name == "LOG0"@ {
        Some(UnifiedOpcode::LOG0)
    } else if name == "LOG1"@ {
        Some(UnifiedOpcode::LOG1)
    } else if name == "LOG2"@ {
        Some(UnifiedOpcode::LOG2)
    } else if name == "LOG3"@ {
        Some(UnifiedOpcode::LOG3)
    } else if name == "LOG4"@ {
        Some(UnifiedOpcode::LOG4)
    } else if name == "CREATE"@ {
        Some(UnifiedOpcode::CREATE)
    } else if name == "CALL"@ {
        Some(UnifiedOpcode::CALL)
    } else if name == "CALLCODE"@ {
        Some(UnifiedOpcode::CALLCODE)
    } else if name == "RETURN"@ {
        Some(UnifiedOpcode::RETURN)
    } else if name == "DELEGATECALL"@ {
        Some(UnifiedOpcode::DELEGATECALL)
    } else if name == "CREATE2"@ {
        Some(UnifiedOpcode::CREATE2)
    } else if name == "STATICCALL"@ {
        Some(UnifiedOpcode::STATICCALL)
    } else if name == "REVERT"@ {
        Some(UnifiedOpcode::REVERT)
    } else if name == "INVALID"@ {
        Some(UnifiedOpcode::INVALID)
    } else if name == "SELFDESTRUCT"@ {
        Some(UnifiedOpcode::SELFDESTRUCT)
    } else {
        None
    }
}

/// The value of a decimal digit.
pub open spec fn digit_value(c: char) -> Option<int> {
    if '0' <= c && c <= '9' {
        Some(c as int - '0' as int)
    } else {
        None
    }
}

/// The value of a string of decimal digits; `None` for the empty string
/// and for one that holds anything but digits.
pub open spec fn digits_value(s: Seq<char>) -> Option<int>
    decreases s.len(),
{
    if s.len() == 0 {
        None
    } else if s.len() == 1 {
        digit_value(s[0])
    } else if digits_value(s.drop_last()) is Some && digit_value(s.last()) is Some {
        Some(10 * digits_value(s.drop_last())->0 + digit_value(s.last())->0)
    } else {
        None
    }
}

/// The number that a string writes in 8 bits: decimal digits, which a
/// plus sign may precede and leading zeros may pad, with a value of at
/// most 255.
pub open spec fn number_of(s: Seq<char>) -> Option<u8> {
    let digits = if s.len() > 0 && s[0] == '+' {
        s.skip(1)
    } else {
        s
    };
    if digits_value(digits) is Some && digits_value(digits)->0 <= 255 {
        Some(digits_value(digits)->0 as u8)
    } else {
        None
    }
}

/// `s` begins with `prefix`.
pub open spec fn has_prefix(s: Seq<char>, prefix: Seq<char>) -> bool {
    s.len() >= prefix.len() && s.take(prefix.len() as int) == prefix
}

/// The number behind the prefix of a numbered name, where it is between
/// 1 and `limit`.
pub open spec fn numbered(s: Seq<char>, prefix: Seq<char>, limit: u8) -> Option<u8> {
    match number_of(s.skip(prefix.len() as int)) {
        Some(n) => if 1 <= n <= limit {
            Some(n)
        } else {
            None
        },
        None => None,
    }
}

/// The opcode that a name stands for, or the error that says why it
/// stands for none. A name without a number is looked up as it is.
/// A name that begins with PUSH, DUP or SWAP must go on with a number
/// in the range of its kind.
pub open spec fn opcode_of_text(s: Seq<char>) -> Result<UnifiedOpcode, Seq<char>> {
    if opcode_of_name(s) is Some {
        Ok(opcode_of_name(s)->0)
    } else if has_prefix(s, "PUSH"@) {
        match numbered(s, "PUSH"@, 32) {
            Some(n) => Ok(UnifiedOpcode::PUSH(n)),
            None => Err("Invalid PUSH opcode: "@ + s),
        }
    } else if has_prefix(s, "DUP"@) {
        match numbered(s, "DUP"@, 16) {
            Some(n) => Ok(UnifiedOpcode::DUP(n)),
            None => Err("Invalid DUP opcode: "@ + s),
        }
    } else if has_prefix(s, "SWAP"@) {
        match numbered(s, "SWAP"@, 16) {
            Some(n) => Ok(UnifiedOpcode::SWAP(n)),
            None => Err("Invalid SWAP opcode: "@ + s),
        }
    } else {
        Err("Unknown opcode: "@ + s)
    }
}

/// The number of bytes of immediate data that follow an opcode: the
/// number of a `PUSH`, and none for any other opcode.
pub open spec fn immediate_size_of(opcode: UnifiedOpcode) -> usize {
    match opcode {
        UnifiedOpcode::PUSH(n) => n as usize,
        _ => 0,
    }
}

/// A byte read at `fork`: the opcode it stands for with the size of its
/// immediate data where the fork has the byte, and `UNKNOWN` with no
/// data where it has not.
pub open spec fn parsed_at(byte: u8, fork: Fork) -> (UnifiedOpcode, usize) {
    if effective_opcodes(standard_tables(), fork).contains_key(byte) {
        (opcode_of_byte(byte), immediate_size_of(opcode_of_byte(byte)))
    } else {
        (UnifiedOpcode::UNKNOWN(byte), 0)
    }
}

/// Whether two strings hold the same characters.
pub fn str_equal(a: &str, b: &str) -> (r: bool)
    ensures
        r == (a@ == b@),
{
    proof {
        vstd::utf8::encode_utf8_decode_utf8(a@);
        vstd::utf8::encode_utf8_decode_utf8(b@);
    }
    crate::gas::context::bytes_equal(a.as_bytes(), b.as_bytes())
}

/// Whether `s` begins with `prefix`.
fn starts_with(s: &str, prefix: &str) -> (r: bool)
    ensures
        r == has_prefix(s@, prefix@),
{
    let n = prefix.unicode_len();
    if s.unicode_len() < n {
        return false;
    }
    let mut i: usize = 0;
    while i < n
        invariant
            i <= n,
            n == prefix@.len(),
            s@.len() >= n,
            forall|k: int| 0 <= k < i ==> s@[k] == prefix@[k],
        decreases n - i,
    {
        if s.get_char(i) != prefix.get_char(i) {
            assert(s@.take(n as int)[i as int] != prefix@[i as int]);
            return false;
        }
        i += 1;
    }
    proof {
        assert(s@.take(n as int) =~= prefix@);
    }
    true
}

/// The value of the decimal digits of `s` from the position `from` on,
/// where there is at least one, all are digits, and the value is at
/// most 255.
fn digits_from(s: &str, from: usize) -> (r: Option<u8>)
    requires
        from <= s@.len(),
    ensures
        r == (if digits_value(s@.skip(from as int)) is Some && digits_value(
            s@.skip(from as int),
        )->0 <= 255 {
            Some(digits_value(s@.skip(from as int))->0 as u8)
        } else {
            None::<u8>
        }),
{
    let len = s.unicode_len();
    if from >= len {
        return None;
    }
    let ghost digits = s@.skip(from as int);
    let mut value: u16 = 0;
    let mut too_large = false;
    let mut i: usize = from;
    while i < len
        invariant
            from <= i <= len,
            len == s@.len(),
            digits == s@.skip(from as int),
            i > from ==> digits_value(digits.take(i - from)) is Some,
            i > from && !too_large ==> digits_value(digits.take(i - from))->0 == value,
            i > from && too_large ==> digits_value(digits.take(i - from))->0 > 255,
            value <= 255,
            i == from ==> value == 0 && !too_large,
        decreases len - i,
    {
        let c = s.get_char(i);
        proof {
            let next = digits.take(i + 1 - from);
            assert(next.drop_last() =~= digits.take(i - from));
            assert(next.last() == c);
            if i == from {
                assert(next.len() == 1);
                assert(next[0] == c);
            }
        }
        if !('0' <= c && c <= '9') {
            proof {
                lemma_digits_value_needs_digits(digits, i - from);
            }
            return None;
        }
        let d: u16 = (c as u32 - '0' as u32) as u16;
        if !too_large {
            let next = value * 10 + d;
            if next > 255 {
                too_large = true;
            } else {
                value = next;
            }
        }
        i += 1;
    }
    proof {
        assert(digits.take(len - from) =~= digits);
    }
    if too_large {
        None
    } else {
        Some(value as u8)
    }
}

/// A string with a character that is no digit has no value, wherever
/// the character stands.
pub proof fn lemma_digits_value_needs_digits(s: Seq<char>, at: int)
    requires
        0 <= at < s.len(),
        digit_value(s[at]) is None,
    ensures
        digits_value(s) is None,
    decreases s.len(),
{
    if s.len() > 1 && at < s.len() - 1 {
        lemma_digits_value_needs_digits(s.drop_last(), at);
    }
}

/// The number that `s` writes from the position `from` on.
fn number_from(s: &str, from: usize) -> (r: Option<u8>)
    requires
        from <= s@.len(),
    ensures
        r == number_of(s@.skip(from as int)),
{
    let len = s.unicode_len();
    let ghost rest = s@.skip(from as int);
    if from < len && s.get_char(from) == '+' {
        proof {
            assert(rest[0] == '+');
            assert(rest.skip(1) =~= s@.skip(from + 1));
        }
        digits_from(s, from + 1)
    } else {
        proof {
            if rest.len() > 0 {
                assert(rest[0] == s@[from as int]);
            }
        }
        digits_from(s, from)
    }
}

fn numbered_from(s: &str, prefix: &str, limit: u8) -> (r: Option<u8>)
    requires
        has_prefix(s@, prefix@),
    ensures
        r == numbered(s@, prefix@, limit),
{
    match number_from(s, prefix.unicode_len()) {
        Some(n) => if 1 <= n && n <= limit {
            Some(n)
        } else {
            None
        },
        None => None,
    }
}

fn invalid(kind: &str, s: &str) -> (e: String)
    ensures
        e@ == kind@ + s@,
{
    let mut e = String::from_str(kind);
    e.append(s);
    e
}

/// The opcode that a name without a number stands for.
fn lookup_name(name: &str) -> (r: Option<UnifiedOpcode>)
    ensures
        r == opcode_of_name(name@),
{
    if str_equal(name, "STOP") {
        Some(UnifiedOpcode::STOP)
    } else if str_equal(name, "ADD") {
        Some(UnifiedOpcode::ADD)
    } else if str_equal(name, "MUL") {
        Some(UnifiedOpcode::MUL)
    } else if str_equal(name, "SUB") {
        Some(UnifiedOpcode::SUB)
    } else if str_equal(name, "DIV") {
        Some(UnifiedOpcode::DIV)
    } else if str_equal(name, "SDIV") {
        Some(UnifiedOpcode::SDIV)
    } else if str_equal(name, "MOD") {
        Some(UnifiedOpcode::MOD)
    } else if str_equal(name, "SMOD") {
        Some(UnifiedOpcode::SMOD)
    } else if str_equal(name, "ADDMOD") {
        Some(UnifiedOpcode::ADDMOD)
    } else if str_equal(name, "MULMOD") {
        Some(UnifiedOpcode::MULMOD)
    } else if str_equal(name, "EXP") {
        Some(UnifiedOpcode::EXP)
    } else if str_equal(name, "SIGNEXTEND") {
        Some(UnifiedOpcode::SIGNEXTEND)
    } else if str_equal(name, "LT") {
        Some(UnifiedOpcode::LT)
    } else if str_equal(name, "GT") {
        Some(UnifiedOpcode::GT)
    } else if str_equal(name, "SLT") {
        Some(UnifiedOpcode::SLT)
    } else if str_equal(name, "SGT") {
        Some(UnifiedOpcode::SGT)
    } else if str_equal(name, "EQ") {
        Some(UnifiedOpcode::EQ)
    } else if str_equal(name, "ISZERO") {
        Some(UnifiedOpcode::ISZERO)
    } else if str_equal(name, "AND") {
        Some(UnifiedOpcode::AND)
    } else if str_equal(name, "OR") {
        Some(UnifiedOpcode::OR)
    } else if str_equal(name, "XOR") {
        Some(UnifiedOpcode::XOR)
    } else if str_equal(name, "NOT") {
        Some(UnifiedOpcode::NOT)
    } else if str_equal(name, "BYTE") {
        Some(UnifiedOpcode::BYTE)
    } else if str_equal(name, "SHL") {
        Some(UnifiedOpcode::SHL)
    } else if str_equal(name, "SHR") {
        Some(UnifiedOpcode::SHR)
    } else if str_equal(name, "SAR") {
        Some(UnifiedOpcode::SAR)
    } else if str_equal(name, "SHA3") {
        Some(UnifiedOpcode::KECCAK256)
    } else if str_equal(name, "KECCAK256") {
        Some(UnifiedOpcode::KECCAK256)
    } else if str_equal(name, "ADDRESS") {
        Some(UnifiedOpcode::ADDRESS)
    } else if str_equal(name, "BALANCE") {
        Some(UnifiedOpcode::BALANCE)
    } else if str_equal(name, "ORIGIN") {
        Some(UnifiedOpcode::ORIGIN)
    } else if str_equal(name, "CALLER") {
        Some(UnifiedOpcode::CALLER)
    } else if str_equal(name, "CALLVALUE") {
        Some(UnifiedOpcode::CALLVALUE)
    } else if str_equal(name, "CALLDATALOAD") {
        Some(UnifiedOpcode::CALLDATALOAD)
    } else if str_equal(name, "CALLDATASIZE") {
        Some(UnifiedOpcode::CALLDATASIZE)
    } else if str_equal(name, "CALLDATACOPY") {
        Some(UnifiedOpcode::CALLDATACOPY)
    } else if str_equal(name, "CODESIZE") {
        Some(UnifiedOpcode::CODESIZE)
    } else if str_equal(name, "CODECOPY") {
        Some(UnifiedOpcode::CODECOPY)
    } else if str_equal(name, "GASPRICE") {
        Some(UnifiedOpcode::GASPRICE)
    } else if str_equal(name, "EXTCODESIZE") {
        Some(UnifiedOpcode::EXTCODESIZE)
    } else if str_equal(name, "EXTCODECOPY") {
        Some(UnifiedOpcode::EXTCODECOPY)
    } else if str_equal(name, "RETURNDATASIZE") {
        Some(UnifiedOpcode::RETURNDATASIZE)
    } else if str_equal(name, "RETURNDATACOPY") {
        Some(UnifiedOpcode::RETURNDATACOPY)
    } else if str_equal(name, "EXTCODEHASH") {
        Some(UnifiedOpcode::EXTCODEHASH)
    } else if str_equal(name, "BLOCKHASH") {
        Some(UnifiedOpcode::BLOCKHASH)
    } else if str_equal(name, "COINBASE") {
        Some(UnifiedOpcode::COINBASE)
    } else if str_equal(name, "TIMESTAMP") {
        Some(UnifiedOpcode::TIMESTAMP)
    } else if str_equal(name, "NUMBER") {
        Some(UnifiedOpcode::NUMBER)
    } else if str_equal(name, "DIFFICULTY") {
        Some(UnifiedOpcode::DIFFICULTY)
    } else if str_equal(name, "PREVRANDAO") {
        Some(UnifiedOpcode::DIFFICULTY)
    } else if str_equal(name, "GASLIMIT") {
        Some(UnifiedOpcode::GASLIMIT)
    } else if str_equal(name, "CHAINID") {
        Some(UnifiedOpcode::CHAINID)
    } else if str_equal(name, "SELFBALANCE") {
        Some(UnifiedOpcode::SELFBALANCE)
    } else if str_equal(name, "BASEFEE") {
        Some(UnifiedOpcode::BASEFEE)
    } else if str_equal(name, "BLOBHASH") {
        Some(UnifiedOpcode::BLOBHASH)
    } else if str_equal(name, "BLOBBASEFEE") {
        Some(UnifiedOpcode::BLOBBASEFEE)
    } else if str_equal(name, "POP") {
        Some(UnifiedOpcode::POP)
    } else if str_equal(name, "MLOAD") {
        Some(UnifiedOpcode::MLOAD)
    } else if str_equal(name, "MSTORE") {
        Some(UnifiedOpcode::MSTORE)
    } else if str_equal(name, "MSTORE8") {
        Some(UnifiedOpcode::MSTORE8)
    } else if str_equal(name, "SLOAD") {
        Some(UnifiedOpcode::SLOAD)
    } else if str_equal(name, "SSTORE") {
        Some(UnifiedOpcode::SSTORE)
    } else if str_equal(name, "JUMP") {
        Some(UnifiedOpcode::JUMP)
    } else if str_equal(name, "JUMPI") {
        Some(UnifiedOpcode::JUMPI)
    } else if str_equal(name, "PC") {
        Some(UnifiedOpcode::PC)
    } else if str_equal(name, "MSIZE") {
        Some(UnifiedOpcode::MSIZE)
    } else if str_equal(name, "GAS") {
        Some(UnifiedOpcode::GAS)
    } else if str_equal(name, "JUMPDEST") {
        Some(UnifiedOpcode::JUMPDEST)
    } else if str_equal(name, "TLOAD") {
        Some(UnifiedOpcode::TLOAD)
    } else if str_equal(name, "TSTORE") {
        Some(UnifiedOpcode::TSTORE)
    } else if str_equal(name, "MCOPY") {
        Some(UnifiedOpcode::MCOPY)
    } else if str_equal(name, "PUSH0") {
        Some(UnifiedOpcode::PUSH0)
    } else if str_equal(name, "LOG0") {
        Some(UnifiedOpcode::LOG0)
    } else if str_equal(name, "LOG1") {
        Some(UnifiedOpcode::LOG1)
    } else if str_equal(name, "LOG2") {
        Some(UnifiedOpcode::LOG2)
    } else if str_equal(name, "LOG3") {
        Some(UnifiedOpcode::LOG3)
    } else if str_equal(name, "LOG4") {
        Some(UnifiedOpcode::LOG4)
    } else if str_equal(name, "CREATE") {
        Some(UnifiedOpcode::CREATE)
    } else if str_equal(name, "CALL") {
        Some(UnifiedOpcode::CALL)
    } else if str_equal(name, "CALLCODE") {
        Some(UnifiedOpcode::CALLCODE)
    } else if str_equal(name, "RETURN") {
        Some(UnifiedOpcode::RETURN)
    } else if str_equal(name, "DELEGATECALL") {
        Some(UnifiedOpcode::DELEGATECALL)
    } else if str_equal(name, "CREATE2") {
        Some(UnifiedOpcode::CREATE2)
    } else if str_equal(name, "STATICCALL") {
        Some(UnifiedOpcode::STATICCALL)
    } else if str_equal(name, "REVERT") {
        Some(UnifiedOpcode::REVERT)
    } else if str_equal(name, "INVALID") {
        Some(UnifiedOpcode::INVALID)
    } else if str_equal(name, "SELFDESTRUCT") {
        Some(UnifiedOpcode::SELFDESTRUCT)
    } else {
        None
    }
}

impl UnifiedOpcode {
    /// Parse a byte into a unified opcode with immediate data size.
    /// Uses the latest fork (Cancun) by default for maximum compatibility.
    pub fn parse(byte: u8) -> (r: (Self, usize))
        ensures
            r == parsed_at(byte, Fork::Cancun),
    {
        UnifiedOpcode::parse_with_fork(byte, Fork::Cancun)
    }

    /// Parse a byte into a unified opcode for a specific fork.
    pub fn parse_with_fork(byte: u8, fork: Fork) -> (r: (Self, usize))
        ensures
            r == parsed_at(byte, fork),
    {
        let registry = OpcodeRegistry::new();
        if registry.is_opcode_available(fork, byte) {
            let unified = UnifiedOpcode::from_byte(byte);
            let imm_size = UnifiedOpcode::immediate_size(&unified);
            (unified, imm_size)
        } else {
            (UnifiedOpcode::UNKNOWN(byte), 0)
        }
    }

    /// Convert a byte directly to a unified opcode (no fork checking).
    pub fn from_byte(byte: u8) -> (opcode: Self)
        ensures
            opcode == opcode_of_byte(byte),
    {
        if 0x60 <= byte && byte <= 0x7f {
            UnifiedOpcode::PUSH(byte - 0x5f)
        } else if 0x80 <= byte && byte <= 0x8f {
            UnifiedOpcode::DUP(byte - 0x7f)
        } else if 0x90 <= byte && byte <= 0x9f {
            UnifiedOpcode::SWAP(byte - 0x8f)
        } else {
            match byte {
                0x00 => UnifiedOpcode::STOP,
                0x01 => UnifiedOpcode::ADD,
                0x02 => UnifiedOpcode::MUL,
                0x03 => UnifiedOpcode::SUB,
                0x04 => UnifiedOpcode::DIV,
                0x05 => UnifiedOpcode::SDIV,
                0x06 => UnifiedOpcode::MOD,
                0x07 => UnifiedOpcode::SMOD,
                0x08 => UnifiedOpcode::ADDMOD,
                0x09 => UnifiedOpcode::MULMOD,
                0x0a => UnifiedOpcode::EXP,
                0x0b => UnifiedOpcode::SIGNEXTEND,
                0x10 => UnifiedOpcode::LT,
                0x11 => UnifiedOpcode::GT,
                0x12 => UnifiedOpcode::SLT,
                0x13 => UnifiedOpcode::SGT,
                0x14 => UnifiedOpcode::EQ,
                0x15 => UnifiedOpcode::ISZERO,
                0x16 => UnifiedOpcode::AND,
                0x17 => UnifiedOpcode::OR,
                0x18 => UnifiedOpcode::XOR,
                0x19 => UnifiedOpcode::NOT,
                0x1a => UnifiedOpcode::BYTE,
                0x1b => UnifiedOpcode::SHL,
                0x1c => UnifiedOpcode::SHR,
                0x1d => UnifiedOpcode::SAR,
                0x20 => UnifiedOpcode::KECCAK256,
                0x30 => UnifiedOpcode::ADDRESS,
                0x31 => UnifiedOpcode::BALANCE,
                0x32 => UnifiedOpcode::ORIGIN,
                0x33 => UnifiedOpcode::CALLER,
                0x34 => UnifiedOpcode::CALLVALUE,
                0x35 => UnifiedOpcode::CALLDATALOAD,
                0x36 => UnifiedOpcode::CALLDATASIZE,
                0x37 => UnifiedOpcode::CALLDATACOPY,
                0x38 => UnifiedOpcode::CODESIZE,
                0x39 => UnifiedOpcode::CODECOPY,
                0x3a => UnifiedOpcode::GASPRICE,
                0x3b => UnifiedOpcode::EXTCODESIZE,
                0x3c => UnifiedOpcode::EXTCODECOPY,
                0x3d => UnifiedOpcode::RETURNDATASIZE,
                0x3e => UnifiedOpcode::RETURNDATACOPY,
                0x3f => UnifiedOpcode::EXTCODEHASH,
                0x40 => UnifiedOpcode::BLOCKHASH,
                0x41 => UnifiedOpcode::COINBASE,
                0x42 => UnifiedOpcode::TIMESTAMP,
                0x43 => UnifiedOpcode::NUMBER,
                0x44 => UnifiedOpcode::DIFFICULTY,
                0x45 => UnifiedOpcode::GASLIMIT,
                0x46 => UnifiedOpcode::CHAINID,
                0x47 => UnifiedOpcode::SELFBALANCE,
                0x48 => UnifiedOpcode::BASEFEE,
                0x49 => UnifiedOpcode::BLOBHASH,
                0x4a => UnifiedOpcode::BLOBBASEFEE,
                0x50 => UnifiedOpcode::POP,
                0x51 => UnifiedOpcode::MLOAD,
                0x52 => UnifiedOpcode::MSTORE,
                0x53 => UnifiedOpcode::MSTORE8,
                0x54 => UnifiedOpcode::SLOAD,
                0x55 => UnifiedOpcode::SSTORE,
                0x56 => UnifiedOpcode::JUMP,
                0x57 => UnifiedOpcode::JUMPI,
                0x58 => UnifiedOpcode::PC,
                0x59 => UnifiedOpcode::MSIZE,
                0x5a => UnifiedOpcode::GAS,
                0x5b => UnifiedOpcode::JUMPDEST,
                0x5c => UnifiedOpcode::TLOAD,
                0x5d => UnifiedOpcode::TSTORE,
                0x5e => UnifiedOpcode::MCOPY,
                0x5f => UnifiedOpcode::PUSH0,
                0xa0 => UnifiedOpcode::LOG0,
                0xa1 => UnifiedOpcode::LOG1,
                0xa2 => UnifiedOpcode::LOG2,
                0xa3 => UnifiedOpcode::LOG3,
                0xa4 => UnifiedOpcode::LOG4,
                0xf0 => UnifiedOpcode::CREATE,
                0xf1 => UnifiedOpcode::CALL,
                0xf2 => UnifiedOpcode::CALLCODE,
                0xf3 => UnifiedOpcode::RETURN,
                0xf4 => UnifiedOpcode::DELEGATECALL,
                0xf5 => UnifiedOpcode::CREATE2,
                0xfa => UnifiedOpcode::STATICCALL,
                0xfd => UnifiedOpcode::REVERT,
                0xfe => UnifiedOpcode::INVALID,
                0xff => UnifiedOpcode::SELFDESTRUCT,
                _ => UnifiedOpcode::UNKNOWN(byte),
            }
        }
    }

    /// Convert back to byte representation.
    pub fn to_byte(&self) -> (byte: u8)
        ensures
            byte == byte_of_opcode(*self),
    {
        match *self {
            UnifiedOpcode::STOP => 0x00,
            UnifiedOpcode::ADD => 0x01,
            UnifiedOpcode::MUL => 0x02,
            UnifiedOpcode::SUB => 0x03,
            UnifiedOpcode::DIV => 0x04,
            UnifiedOpcode::SDIV => 0x05,
            UnifiedOpcode::MOD => 0x06,
            UnifiedOpcode::SMOD => 0x07,
            UnifiedOpcode::ADDMOD => 0x08,
            UnifiedOpcode::MULMOD => 0x09,
            UnifiedOpcode::EXP => 0x0a,
            UnifiedOpcode::SIGNEXTEND => 0x0b,
            UnifiedOpcode::LT => 0x10,
            UnifiedOpcode::GT => 0x11,
            UnifiedOpcode::SLT => 0x12,
            UnifiedOpcode::SGT => 0x13,
            UnifiedOpcode::EQ => 0x14,
            UnifiedOpcode::ISZERO => 0x15,
            UnifiedOpcode::AND => 0x16,
            UnifiedOpcode::OR => 0x17,
            UnifiedOpcode::XOR => 0x18,
            UnifiedOpcode::NOT => 0x19,
            UnifiedOpcode::BYTE => 0x1a,
            UnifiedOpcode::SHL => 0x1b,
            UnifiedOpcode::SHR => 0x1c,
            UnifiedOpcode::SAR => 0x1d,
            UnifiedOpcode::KECCAK256 => 0x20,
            UnifiedOpcode::ADDRESS => 0x30,
            UnifiedOpcode::BALANCE => 0x31,
            UnifiedOpcode::ORIGIN => 0x32,
            UnifiedOpcode::CALLER => 0x33,
            UnifiedOpcode::CALLVALUE => 0x34,
            UnifiedOpcode::CALLDATALOAD => 0x35,
            UnifiedOpcode::CALLDATASIZE => 0x36,
            UnifiedOpcode::CALLDATACOPY => 0x37,
            UnifiedOpcode::CODESIZE => 0x38,
            UnifiedOpcode::CODECOPY => 0x39,
            UnifiedOpcode::GASPRICE => 0x3a,
            UnifiedOpcode::EXTCODESIZE => 0x3b,
            UnifiedOpcode::EXTCODECOPY => 0x3c,
            UnifiedOpcode::RETURNDATASIZE => 0x3d,
            UnifiedOpcode::RETURNDATACOPY => 0x3e,
            UnifiedOpcode::EXTCODEHASH => 0x3f,
            UnifiedOpcode::BLOCKHASH => 0x40,
            UnifiedOpcode::COINBASE => 0x41,
            UnifiedOpcode::TIMESTAMP => 0x42,
            UnifiedOpcode::NUMBER => 0x43,
            UnifiedOpcode::DIFFICULTY => 0x44,
            UnifiedOpcode::GASLIMIT => 0x45,
            UnifiedOpcode::CHAINID => 0x46,
            UnifiedOpcode::SELFBALANCE => 0x47,
            UnifiedOpcode::BASEFEE => 0x48,
            UnifiedOpcode::BLOBHASH => 0x49,
            UnifiedOpcode::BLOBBASEFEE => 0x4a,
            UnifiedOpcode::POP => 0x50,
            UnifiedOpcode::MLOAD => 0x51,
            UnifiedOpcode::MSTORE => 0x52,
            UnifiedOpcode::MSTORE8 => 0x53,
            UnifiedOpcode::SLOAD => 0x54,
            UnifiedOpcode::SSTORE => 0x55,
            UnifiedOpcode::JUMP => 0x56,
            UnifiedOpcode::JUMPI => 0x57,
            UnifiedOpcode::PC => 0x58,
            UnifiedOpcode::MSIZE => 0x59,
            UnifiedOpcode::GAS => 0x5a,
            UnifiedOpcode::JUMPDEST => 0x5b,
            UnifiedOpcode::TLOAD => 0x5c,
            UnifiedOpcode::TSTORE => 0x5d,
            UnifiedOpcode::MCOPY => 0x5e,
            UnifiedOpcode::PUSH0 => 0x5f,
            UnifiedOpcode::LOG0 => 0xa0,
            UnifiedOpcode::LOG1 => 0xa1,
            UnifiedOpcode::LOG2 => 0xa2,
            UnifiedOpcode::LOG3 => 0xa3,
            UnifiedOpcode::LOG4 => 0xa4,
            UnifiedOpcode::CREATE => 0xf0,
            UnifiedOpcode::CALL => 0xf1,
            UnifiedOpcode::CALLCODE => 0xf2,
            UnifiedOpcode::RETURN => 0xf3,
            UnifiedOpcode::DELEGATECALL => 0xf4,
            UnifiedOpcode::CREATE2 => 0xf5,
            UnifiedOpcode::STATICCALL => 0xfa,
            UnifiedOpcode::REVERT => 0xfd,
            UnifiedOpcode::INVALID => 0xfe,
            UnifiedOpcode::SELFDESTRUCT => 0xff,
            UnifiedOpcode::PUSH(n) => 0x5fu8.wrapping_add(n),
            UnifiedOpcode::DUP(n) => 0x7fu8.wrapping_add(n),
            UnifiedOpcode::SWAP(n) => 0x8fu8.wrapping_add(n),
            UnifiedOpcode::UNKNOWN(byte) => byte,
        }
    }

    /// Check if this opcode affects control flow (for CFG construction).
    pub fn is_control_flow(&self) -> (r: bool)
        ensures
            r == alters_control_flow(*self),
    {
        match *self {
            UnifiedOpcode::STOP
            | UnifiedOpcode::JUMP
            | UnifiedOpcode::JUMPI
            | UnifiedOpcode::JUMPDEST
            | UnifiedOpcode::RETURN
            | UnifiedOpcode::REVERT
            | UnifiedOpcode::INVALID
            | UnifiedOpcode::SELFDESTRUCT
            | UnifiedOpcode::CREATE
            | UnifiedOpcode::CREATE2
            | UnifiedOpcode::CALL
            | UnifiedOpcode::CALLCODE
            | UnifiedOpcode::DELEGATECALL
            | UnifiedOpcode::STATICCALL => true,
            _ => false,
        }
    }

    /// Get the name of this opcode as a string.
    pub fn name(&self) -> (s: String)
        ensures
            s@ == name_of_opcode(*self),
    {
        match *self {
            UnifiedOpcode::STOP => String::from_str("STOP"),
            UnifiedOpcode::ADD => String::from_str("ADD"),
            UnifiedOpcode::MUL => String::from_str("MUL"),
            UnifiedOpcode::SUB => String::from_str("SUB"),
            UnifiedOpcode::DIV => String::from_str("DIV"),
            UnifiedOpcode::SDIV => String::from_str("SDIV"),
            UnifiedOpcode::MOD => String::from_str("MOD"),
            UnifiedOpcode::SMOD => String::from_str("SMOD"),
            UnifiedOpcode::ADDMOD => String::from_str("ADDMOD"),
            UnifiedOpcode::MULMOD => String::from_str("MULMOD"),
            UnifiedOpcode::EXP => String::from_str("EXP"),
            UnifiedOpcode::SIGNEXTEND => String::from_str("SIGNEXTEND"),
            UnifiedOpcode::LT => String::from_str("LT"),
            UnifiedOpcode::GT => String::from_str("GT"),
            UnifiedOpcode::SLT => String::from_str("SLT"),
            UnifiedOpcode::SGT => String::from_str("SGT"),
            UnifiedOpcode::EQ => String::from_str("EQ"),
            UnifiedOpcode::ISZERO => String::from_str("ISZERO"),
            UnifiedOpcode::AND => String::from_str("AND"),
            UnifiedOpcode::OR => String::from_str("OR"),
            UnifiedOpcode::XOR => String::from_str("XOR"),
            UnifiedOpcode::NOT => String::from_str("NOT"),
            UnifiedOpcode::BYTE => String::from_str("BYTE"),
            UnifiedOpcode::SHL => String::from_str("SHL"),
            UnifiedOpcode::SHR => String::from_str("SHR"),
            UnifiedOpcode::SAR => String::from_str("SAR"),
            UnifiedOpcode::KECCAK256 => String::from_str("KECCAK256"),
            UnifiedOpcode::ADDRESS => String::from_str("ADDRESS"),
            UnifiedOpcode::BALANCE => String::from_str("BALANCE"),
            UnifiedOpcode::ORIGIN => String::from_str("ORIGIN"),
            UnifiedOpcode::CALLER => String::from_str("CALLER"),
            UnifiedOpcode::CALLVALUE => String::from_str("CALLVALUE"),
            UnifiedOpcode::CALLDATALOAD => String::from_str("CALLDATALOAD"),
            UnifiedOpcode::CALLDATASIZE => String::from_str("CALLDATASIZE"),
            UnifiedOpcode::CALLDATACOPY => String::from_str("CALLDATACOPY"),
            UnifiedOpcode::CODESIZE => String::from_str("CODESIZE"),
            UnifiedOpcode::CODECOPY => String::from_str("CODECOPY"),
            UnifiedOpcode::GASPRICE => String::from_str("GASPRICE"),
            UnifiedOpcode::EXTCODESIZE => String::from_str("EXTCODESIZE"),
            UnifiedOpcode::EXTCODECOPY => String::from_str("EXTCODECOPY"),
            UnifiedOpcode::RETURNDATASIZE => String::from_str("RETURNDATASIZE"),
            UnifiedOpcode::RETURNDATACOPY => String::from_str("RETURNDATACOPY"),
            UnifiedOpcode::EXTCODEHASH => String::from_str("EXTCODEHASH"),
            UnifiedOpcode::BLOCKHASH => String::from_str("BLOCKHASH"),
            UnifiedOpcode::COINBASE => String::from_str("COINBASE"),
            UnifiedOpcode::TIMESTAMP => String::from_str("TIMESTAMP"),
            UnifiedOpcode::NUMBER => String::from_str("NUMBER"),
            UnifiedOpcode::DIFFICULTY => String::from_str("DIFFICULTY"),
            UnifiedOpcode::GASLIMIT => String::from_str("GASLIMIT"),
            UnifiedOpcode::CHAINID => String::from_str("CHAINID"),
            UnifiedOpcode::SELFBALANCE => String::from_str("SELFBALANCE"),
            UnifiedOpcode::BASEFEE => String::from_str("BASEFEE"),
            UnifiedOpcode::BLOBHASH => String::from_str("BLOBHASH"),
            UnifiedOpcode::BLOBBASEFEE => String::from_str("BLOBBASEFEE"),
            UnifiedOpcode::POP => String::from_str("POP"),
            UnifiedOpcode::MLOAD => String::from_str("MLOAD"),
            UnifiedOpcode::MSTORE => String::from_str("MSTORE"),
            UnifiedOpcode::MSTORE8 => String::from_str("MSTORE8"),
            UnifiedOpcode::SLOAD => String::from_str("SLOAD"),
            UnifiedOpcode::SSTORE => String::from_str("SSTORE"),
            UnifiedOpcode::JUMP => String::from_str("JUMP"),
            UnifiedOpcode::JUMPI => String::from_str("JUMPI"),
            UnifiedOpcode::PC => String::from_str("PC"),
            UnifiedOpcode::MSIZE => String::from_str("MSIZE"),
            UnifiedOpcode::GAS => String::from_str("GAS"),
            UnifiedOpcode::JUMPDEST => String::from_str("JUMPDEST"),
            UnifiedOpcode::TLOAD => String::from_str("TLOAD"),
            UnifiedOpcode::TSTORE => String::from_str("TSTORE"),
            UnifiedOpcode::MCOPY => String::from_str("MCOPY"),
            UnifiedOpcode::PUSH0 => String::from_str("PUSH0"),
            UnifiedOpcode::LOG0 => String::from_str("LOG0"),
            UnifiedOpcode::LOG1 => String::from_str("LOG1"),
            UnifiedOpcode::LOG2 => String::from_str("LOG2"),
            UnifiedOpcode::LOG3 => String::from_str("LOG3"),
            UnifiedOpcode::LOG4 => String::from_str("LOG4"),
            UnifiedOpcode::CREATE => String::from_str("CREATE"),
            UnifiedOpcode::CALL => String::from_str("CALL"),
            UnifiedOpcode::CALLCODE => String::from_str("CALLCODE"),
            UnifiedOpcode::RETURN => String::from_str("RETURN"),
            UnifiedOpcode::DELEGATECALL => String::from_str("DELEGATECALL"),
            UnifiedOpcode::CREATE2 => String::from_str("CREATE2"),
            UnifiedOpcode::STATICCALL => String::from_str("STATICCALL"),
            UnifiedOpcode::REVERT => String::from_str("REVERT"),
            UnifiedOpcode::INVALID => String::from_str("INVALID"),
            UnifiedOpcode::SELFDESTRUCT => String::from_str("SELFDESTRUCT"),
            UnifiedOpcode::PUSH(n) => {
                let mut s = String::from_str("PUSH");
                push_decimal(&mut s, n as u64);
                s
            },
            UnifiedOpcode::DUP(n) => {
                let mut s = String::from_str("DUP");
                push_decimal(&mut s, n as u64);
                s
            },
            UnifiedOpcode::SWAP(n) => {
                let mut s = String::from_str("SWAP");
                push_decimal(&mut s, n as u64);
                s
            },
            UnifiedOpcode::UNKNOWN(byte) => {
                let mut s = String::from_str("UNKNOWN");
                push_hex2(&mut s, byte);
                s
            },
        }
    }

    /// The name of this opcode as a string, as `name` gives it.
    pub fn to_string(&self) -> (s: String)
        ensures
            s@ == name_of_opcode(*self),
    {
        self.name()
    }

    /// Get immediate data size for this opcode.
    pub fn immediate_size(opcode: &Self) -> (size: usize)
        ensures
            size == immediate_size_of(*opcode),
    {
        match *opcode {
            UnifiedOpcode::PUSH(n) => n as usize,
            _ => 0,
        }
    }

    /// Get metadata for this opcode from the registry for a specific fork.
    pub fn metadata(&self, fork: Fork) -> (m: Option<OpcodeMetadata>)
        ensures
            m is Some <==> effective_opcodes(standard_tables(), fork).contains_key(
                byte_of_opcode(*self),
            ),
            m is Some ==> m->0@ == effective_opcodes(standard_tables(), fork)[byte_of_opcode(
                *self,
            )],
    {
        let registry = OpcodeRegistry::new();
        registry.lookup(fork, self.to_byte())
    }

    /// Get metadata using the latest fork (Cancun).
    pub fn metadata_latest(&self) -> (m: Option<OpcodeMetadata>)
        ensures
            m is Some <==> effective_opcodes(standard_tables(), Fork::Cancun).contains_key(
                byte_of_opcode(*self),
            ),
            m is Some ==> m->0@ == effective_opcodes(standard_tables(), Fork::Cancun)[byte_of_opcode(
                *self,
            )],
    {
        self.metadata(Fork::Cancun)
    }

    /// The opcode that a name stands for.
    pub fn from_str(s: &str) -> (r: Result<Self, String>)
        ensures
            match opcode_of_text(s@) {
                Ok(opcode) => r == Ok::<UnifiedOpcode, String>(opcode),
                Err(text) => r is Err && r->Err_0@ == text,
            },
    {
        match lookup_name(s) {
            Some(opcode) => Ok(opcode),
            None => {
                if starts_with(s, "PUSH") {
                    match numbered_from(s, "PUSH", 32) {
                        Some(n) => Ok(UnifiedOpcode::PUSH(n)),
                        None => Err(invalid("Invalid PUSH opcode: ", s)),
                    }
                } else if starts_with(s, "DUP") {
                    match numbered_from(s, "DUP", 16) {
                        Some(n) => Ok(UnifiedOpcode::DUP(n)),
                        None => Err(invalid("Invalid DUP opcode: ", s)),
                    }
                } else if starts_with(s, "SWAP") {
                    match numbered_from(s, "SWAP", 16) {
                        Some(n) => Ok(UnifiedOpcode::SWAP(n)),
                        None => Err(invalid("Invalid SWAP opcode: ", s)),
                    }
                } else {
                    Err(invalid("Unknown opcode: ", s))
                }
            },
        }
    }
}

impl std::str::FromStr for UnifiedOpcode {
    type Err = String;

    fn from_str(s: &str) -> (r: Result<Self, String>)
        ensures
            match opcode_of_text(s@) {
                Ok(opcode) => r == Ok::<UnifiedOpcode, String>(opcode),
                Err(text) => r is Err && r->Err_0@ == text,
            },
    {
        UnifiedOpcode::from_str(s)
    }
}

impl From<u8> for UnifiedOpcode {
    fn from(byte: u8) -> (opcode: Self) {
        UnifiedOpcode::from_byte(byte)
    }
}

impl vstd::std_specs::convert::FromSpecImpl<u8> for UnifiedOpcode {
    open spec fn obeys_from_spec() -> bool {
        true
    }

    open spec fn from_spec(byte: u8) -> Self {
        opcode_of_byte(byte)
    }
}

impl From<UnifiedOpcode> for u8 {
    fn from(opcode: UnifiedOpcode) -> (byte: u8) {
        opcode.to_byte()
    }
}

impl vstd::std_specs::convert::FromSpecImpl<UnifiedOpcode> for u8 {
    open spec fn obeys_from_spec() -> bool {
        true
    }

    open spec fn from_spec(opcode: UnifiedOpcode) -> Self {
        byte_of_opcode(opcode)
    }
}

/// Every byte is the byte of the opcode it stands for.
pub proof fn lemma_byte_round_trip(byte: u8)
    ensures
        byte_of_opcode(opcode_of_byte(byte)) == byte,
{
}

/// The opcode of a `PUSH`, `DUP` or `SWAP` with a number of its range,
/// and of any opcode without a number, is the one its byte stands for.
pub proof fn lemma_opcode_round_trip(opcode: UnifiedOpcode)
    requires
        match opcode {
            UnifiedOpcode::PUSH(n) => 1 <= n <= 32,
            UnifiedOpcode::DUP(n) => 1 <= n <= 16,
            UnifiedOpcode::SWAP(n) => 1 <= n <= 16,
            UnifiedOpcode::UNKNOWN(byte) => opcode_of_byte(byte) == opcode,
            _ => true,
        },
    ensures
        opcode_of_byte(byte_of_opcode(opcode)) == opcode,
{
}

/// What tells the names of the opcodes apart: the length of a name, its
/// first character and its last two.
pub open spec fn fingerprint(s: Seq<char>) -> (nat, char, char, char) {
    (s.len(), s[0], s[s.len() - 1], s[s.len() - 2])
}

/// The fingerprints of the names without a number: no two are the same.
pub proof fn lemma_fingerprints()
    ensures
        fingerprint("STOP"@) == (4nat, 'S', 'P', 'O'),
        fingerprint("ADD"@) == (3nat, 'A', 'D', 'D'),
        fingerprint("MUL"@) == (3nat, 'M', 'L', 'U'),
        fingerprint("SUB"@) == (3nat, 'S', 'B', 'U'),
        fingerprint("DIV"@) == (3nat, 'D', 'V', 'I'),
        fingerprint("SDIV"@) == (4nat, 'S', 'V', 'I'),
        fingerprint("MOD"@) == (3nat, 'M', 'D', 'O'),
        fingerprint("SMOD"@) == (4nat, 'S', 'D', 'O'),
        fingerprint("ADDMOD"@) == (6nat, 'A', 'D', 'O'),
        fingerprint("MULMOD"@) == (6nat, 'M', 'D', 'O'),
        fingerprint("EXP"@) == (3nat, 'E', 'P', 'X'),
        fingerprint("SIGNEXTEND"@) == (10nat, 'S', 'D', 'N'),
        fingerprint("LT"@) == (2nat, 'L', 'T', 'L'),
        fingerprint("GT"@) == (2nat, 'G', 'T', 'G'),
        fingerprint("SLT"@) == (3nat, 'S', 'T', 'L'),
        fingerprint("SGT"@) == (3nat, 'S', 'T', 'G'),
        fingerprint("EQ"@) == (2nat, 'E', 'Q', 'E'),
        fingerprint("ISZERO"@) == (6nat, 'I', 'O', 'R'),
        fingerprint("AND"@) == (3nat, 'A', 'D', 'N'),
        fingerprint("OR"@) == (2nat, 'O', 'R', 'O'),
        fingerprint("XOR"@) == (3nat, 'X', 'R', 'O'),
        fingerprint("NOT"@) == (3nat, 'N', 'T', 'O'),
        fingerprint("BYTE"@) == (4nat, 'B', 'E', 'T'),
        fingerprint("SHL"@) == (3nat, 'S', 'L', 'H'),
        fingerprint("SHR"@) == (3nat, 'S', 'R', 'H'),
        fingerprint("SAR"@) == (3nat, 'S', 'R', 'A'),
        fingerprint("SHA3"@) == (4nat, 'S', '3', 'A'),
        fingerprint("KECCAK256"@) == (9nat, 'K', '6', '5'),
        fingerprint("ADDRESS"@) == (7nat, 'A', 'S', 'S'),
        fingerprint("BALANCE"@) == (7nat, 'B', 'E', 'C'),
        fingerprint("ORIGIN"@) == (6nat, 'O', 'N', 'I'),
        fingerprint("CALLER"@) == (6nat, 'C', 'R', 'E'),
        fingerprint("CALLVALUE"@) == (9nat, 'C', 'E', 'U'),
        fingerprint("CALLDATALOAD"@) == (12nat, 'C', 'D', 'A'),
        fingerprint("CALLDATASIZE"@) == (12nat, 'C', 'E', 'Z'),
        fingerprint("CALLDATACOPY"@) == (12nat, 'C', 'Y', 'P'),
        fingerprint("CODESIZE"@) == (8nat, 'C', 'E', 'Z'),
        fingerprint("CODECOPY"@) == (8nat, 'C', 'Y', 'P'),
        fingerprint("GASPRICE"@) == (8nat, 'G', 'E', 'C'),
        fingerprint("EXTCODESIZE"@) == (11nat, 'E', 'E', 'Z'),
        fingerprint("EXTCODECOPY"@) == (11nat, 'E', 'Y', 'P'),
        fingerprint("RETURNDATASIZE"@) == (14nat, 'R', 'E', 'Z'),
        fingerprint("RETURNDATACOPY"@) == (14nat, 'R', 'Y', 'P'),
        fingerprint("EXTCODEHASH"@) == (11nat, 'E', 'H', 'S'),
        fingerprint("BLOCKHASH"@) == (9nat, 'B', 'H', 'S'),
        fingerprint("COINBASE"@) == (8nat, 'C', 'E', 'S'),
        fingerprint("TIMESTAMP"@) == (9nat, 'T', 'P', 'M'),
        fingerprint("NUMBER"@) == (6nat, 'N', 'R', 'E'),
        fingerprint("DIFFICULTY"@) == (10nat, 'D', 'Y', 'T'),
        fingerprint("PREVRANDAO"@) == (10nat, 'P', 'O', 'A'),
        fingerprint("GASLIMIT"@) == (8nat, 'G', 'T', 'I'),
        fingerprint("CHAINID"@) == (7nat, 'C', 'D', 'I'),
        fingerprint("SELFBALANCE"@) == (11nat, 'S', 'E', 'C'),
        fingerprint("BASEFEE"@) == (7nat, 'B', 'E', 'E'),
        fingerprint("BLOBHASH"@) == (8nat, 'B', 'H', 'S'),
        fingerprint("BLOBBASEFEE"@) == (11nat, 'B', 'E', 'E'),
        fingerprint("POP"@) == (3nat, 'P', 'P', 'O'),
        fingerprint("MLOAD"@) == (5nat, 'M', 'D', 'A'),
        fingerprint("MSTORE"@) == (6nat, 'M', 'E', 'R'),
        fingerprint("MSTORE8"@) == (7nat, 'M', '8', 'E'),
        fingerprint("SLOAD"@) == (5nat, 'S', 'D', 'A'),
        fingerprint("SSTORE"@) == (6nat, 'S', 'E', 'R'),
        fingerprint("JUMP"@) == (4nat, 'J', 'P', 'M'),
        fingerprint("JUMPI"@) == (5nat, 'J', 'I', 'P'),
        fingerprint("PC"@) == (2nat, 'P', 'C', 'P'),
        fingerprint("MSIZE"@) == (5nat, 'M', 'E', 'Z'),
        fingerprint("GAS"@) == (3nat, 'G', 'S', 'A'),
        fingerprint("JUMPDEST"@) == (8nat, 'J', 'T', 'S'),
        fingerprint("TLOAD"@) == (5nat, 'T', 'D', 'A'),
        fingerprint("TSTORE"@) == (6nat, 'T', 'E', 'R'),
        fingerprint("MCOPY"@) == (5nat, 'M', 'Y', 'P'),
        fingerprint("PUSH0"@) == (5nat, 'P', '0', 'H'),
        fingerprint("LOG0"@) == (4nat, 'L', '0', 'G'),
        fingerprint("LOG1"@) == (4nat, 'L', '1', 'G'),
        fingerprint("LOG2"@) == (4nat, 'L', '2', 'G'),
        fingerprint("LOG3"@) == (4nat, 'L', '3', 'G'),
        fingerprint("LOG4"@) == (4nat, 'L', '4', 'G'),
        fingerprint("CREATE"@) == (6nat, 'C', 'E', 'T'),
        fingerprint("CALL"@) == (4nat, 'C', 'L', 'L'),
        fingerprint("CALLCODE"@) == (8nat, 'C', 'E', 'D'),
        fingerprint("RETURN"@) == (6nat, 'R', 'N', 'R'),
        fingerprint("DELEGATECALL"@) == (12nat, 'D', 'L', 'L'),
        fingerprint("CREATE2"@) == (7nat, 'C', '2', 'E'),
        fingerprint("STATICCALL"@) == (10nat, 'S', 'L', 'L'),
        fingerprint("REVERT"@) == (6nat, 'R', 'T', 'R'),
        fingerprint("INVALID"@) == (7nat, 'I', 'D', 'I'),
        fingerprint("SELFDESTRUCT"@) == (12nat, 'S', 'T', 'C'),
{
    reveal_strlit("STOP");
    reveal_strlit("ADD");
    reveal_strlit("MUL");
    reveal_strlit("SUB");
    reveal_strlit("DIV");
    reveal_strlit("SDIV");
    reveal_strlit("MOD");
    reveal_strlit("SMOD");
    reveal_strlit("ADDMOD");
    reveal_strlit("MULMOD");
    reveal_strlit("EXP");
    reveal_strlit("SIGNEXTEND");
    reveal_strlit("LT");
    reveal_strlit("GT");
    reveal_strlit("SLT");
    reveal_strlit("SGT");
    reveal_strlit("EQ");
    reveal_strlit("ISZERO");
    reveal_strlit("AND");
    reveal_strlit("OR");
    reveal_strlit("XOR");
    reveal_strlit("NOT");
    reveal_strlit("BYTE");
    reveal_strlit("SHL");
    reveal_strlit("SHR");
    reveal_strlit("SAR");
    reveal_strlit("SHA3");
    reveal_strlit("KECCAK256");
    reveal_strlit("ADDRESS");
    reveal_strlit("BALANCE");
    reveal_strlit("ORIGIN");
    reveal_strlit("CALLER");
    reveal_strlit("CALLVALUE");
    reveal_strlit("CALLDATALOAD");
    reveal_strlit("CALLDATASIZE");
    reveal_strlit("CALLDATACOPY");
    reveal_strlit("CODESIZE");
    reveal_strlit("CODECOPY");
    reveal_strlit("GASPRICE");
    reveal_strlit("EXTCODESIZE");
    reveal_strlit("EXTCODECOPY");
    reveal_strlit("RETURNDATASIZE");
    reveal_strlit("RETURNDATACOPY");
    reveal_strlit("EXTCODEHASH");
    reveal_strlit("BLOCKHASH");
    reveal_strlit("COINBASE");
    reveal_strlit("TIMESTAMP");
    reveal_strlit("NUMBER");
    reveal_strlit("DIFFICULTY");
    reveal_strlit("PREVRANDAO");
    reveal_strlit("GASLIMIT");
    reveal_strlit("CHAINID");
    reveal_strlit("SELFBALANCE");
    reveal_strlit("BASEFEE");
    reveal_strlit("BLOBHASH");
    reveal_strlit("BLOBBASEFEE");
    reveal_strlit("POP");
    reveal_strlit("MLOAD");
    reveal_strlit("MSTORE");
    reveal_strlit("MSTORE8");
    reveal_strlit("SLOAD");
    reveal_strlit("SSTORE");
    reveal_strlit("JUMP");
    reveal_strlit("JUMPI");
    reveal_strlit("PC");
    reveal_strlit("MSIZE");
    reveal_strlit("GAS");
    reveal_strlit("JUMPDEST");
    reveal_strlit("TLOAD");
    reveal_strlit("TSTORE");
    reveal_strlit("MCOPY");
    reveal_strlit("PUSH0");
    reveal_strlit("LOG0");
    reveal_strlit("LOG1");
    reveal_strlit("LOG2");
    reveal_strlit("LOG3");
    reveal_strlit("LOG4");
    reveal_strlit("CREATE");
    reveal_strlit("CALL");
    reveal_strlit("CALLCODE");
    reveal_strlit("RETURN");
    reveal_strlit("DELEGATECALL");
    reveal_strlit("CREATE2");
    reveal_strlit("STATICCALL");
    reveal_strlit("REVERT");
    reveal_strlit("INVALID");
    reveal_strlit("SELFDESTRUCT");
}

/// An opcode without a number is the one that its name stands for.
pub proof fn lemma_plain_names_read_back(opcode: UnifiedOpcode)
    requires
        !(opcode is PUSH),
        !(opcode is DUP),
        !(opcode is SWAP),
        !(opcode is UNKNOWN),
    ensures
        opcode_of_name(name_of_opcode(opcode)) == Some(opcode),
        opcode_of_text(name_of_opcode(opcode)) == Ok::<UnifiedOpcode, Seq<char>>(opcode),
{
    lemma_fingerprints();
}

/// The decimal numeral of a number below 256 has as many digits as the
/// number needs, the last of which is the digit of its ones, and reads
/// back as the number.
pub proof fn lemma_decimal_reads_back(n: nat)
    requires
        n <= 255,
    ensures
        n < 10 ==> decimal(n).len() == 1,
        10 <= n < 100 ==> decimal(n).len() == 2,
        100 <= n ==> decimal(n).len() == 3,
        decimal(n).last() == crate::text::digit_char((n % 10) as int),
        digit_value(decimal(n)[0]) is Some,
        n >= 1 ==> decimal(n)[0] != '0',
        digits_value(decimal(n)) == Some(n as int),
        number_of(decimal(n)) == Some(n as u8),
    decreases n,
{
    lemma_digit_reads_back((n % 10) as int);
    if n >= 10 {
        lemma_decimal_reads_back(n / 10);
        let front = decimal(n / 10);
        let whole = decimal(n);
        assert(whole == front.push(crate::text::digit_char((n % 10) as int)));
        assert(whole.drop_last() =~= front);
        assert(whole[0] == front[0]);
    } else {
        assert(decimal(n).len() == 1);
    }
    assert(decimal(n)[0] != '+');
}

/// Each digit stands for its value, and only the digit of zero is '0'.
pub proof fn lemma_digit_reads_back(d: int)
    requires
        0 <= d <= 9,
    ensures
        digit_value(crate::text::digit_char(d)) == Some(d),
        d != 0 ==> crate::text::digit_char(d) != '0',
        crate::text::digit_char(d) != '+',
{
}

/// `PUSH1` to `PUSH32`, `DUP1` to `DUP16` and `SWAP1` to `SWAP16` are
/// the opcodes that their names stand for.
pub proof fn lemma_numbered_names_read_back(opcode: UnifiedOpcode)
    requires
        match opcode {
            UnifiedOpcode::PUSH(n) => 1 <= n <= 32,
            UnifiedOpcode::DUP(n) => 1 <= n <= 16,
            UnifiedOpcode::SWAP(n) => 1 <= n <= 16,
            _ => false,
        },
    ensures
        opcode_of_text(name_of_opcode(opcode)) == Ok::<UnifiedOpcode, Seq<char>>(opcode),
{
    lemma_fingerprints();
    reveal_strlit("PUSH");
    reveal_strlit("DUP");
    reveal_strlit("SWAP");
    let name = name_of_opcode(opcode);
    match opcode {
        UnifiedOpcode::PUSH(n) => {
            lemma_decimal_reads_back(n as nat);
            let digits = decimal(n as nat);
            assert(name == "PUSH"@ + digits);
            assert(name.len() == 4 + digits.len());
            assert(name[0] == 'P');
            assert(name[name.len() - 1] == digits.last());
            assert(name.take(4) =~= "PUSH"@);
            assert(name.skip(4) =~= digits);
            if n < 10 {
                assert(name[name.len() - 2] == 'H');
            }
            assert(opcode_of_name(name) is None);
        },
        UnifiedOpcode::DUP(n) => {
            lemma_decimal_reads_back(n as nat);
            let digits = decimal(n as nat);
            assert(name == "DUP"@ + digits);
            assert(name.len() == 3 + digits.len());
            assert(name[0] == 'D');
            assert(name[name.len() - 1] == digits.last());
            assert(name.take(3) =~= "DUP"@);
            assert(name.skip(3) =~= digits);
            if n < 10 {
                assert(name[name.len() - 2] == 'P');
            } else {
                assert(name[name.len() - 2] == digits[digits.len() - 2]);
            }
            assert(!has_prefix(name, "PUSH"@)) by {
                if has_prefix(name, "PUSH"@) {
                    assert(name.take(4)[0] == 'P');
                }
            }
            assert(opcode_of_name(name) is None);
        },
        UnifiedOpcode::SWAP(n) => {
            lemma_decimal_reads_back(n as nat);
            let digits = decimal(n as nat);
            assert(name == "SWAP"@ + digits);
            assert(name.len() == 4 + digits.len());
            assert(name[0] == 'S');
            assert(name[name.len() - 1] == digits.last());
            assert(name.take(4) =~= "SWAP"@);
            assert(name.skip(4) =~= digits);
            if n < 10 {
                assert(name[name.len() - 2] == 'P');
            } else {
                assert(name[name.len() - 2] == digits[digits.len() - 2]);
            }
            assert(!has_prefix(name, "PUSH"@)) by {
                if has_prefix(name, "PUSH"@) {
                    assert(name.take(4)[0] == 'P');
                }
            }
            assert(!has_prefix(name, "DUP"@)) by {
                if has_prefix(name, "DUP"@) {
                    assert(name.take(3)[0] == 'D');
                }
            }
            assert(opcode_of_name(name) is None);
        },
        _ => {},
    }
}

/// The canonical table names each opcode as the unified opcodes do.
pub proof fn lemma_table_names_are_unified_names(byte: u8)
    requires
        crate::tables::table_defines(byte),
    ensures
        crate::tables::table_name(byte) == name_of_opcode(opcode_of_byte(byte)),
{
    if 0x60 <= byte <= 0x9f {
        reveal_strlit("PUSH");
        reveal_strlit("DUP");
        reveal_strlit("SWAP");
        reveal_strlit("PUSH1");
        reveal_strlit("PUSH2");
        reveal_strlit("PUSH3");
        reveal_strlit("PUSH4");
        reveal_strlit("PUSH5");
        reveal_strlit("PUSH6");
        reveal_strlit("PUSH7");
        reveal_strlit("PUSH8");
        reveal_strlit("PUSH9");
        reveal_strlit("PUSH10");
        reveal_strlit("PUSH11");
        reveal_strlit("PUSH12");
        reveal_strlit("PUSH13");
        reveal_strlit("PUSH14");
        reveal_strlit("PUSH15");
        reveal_strlit("PUSH16");
        reveal_strlit("PUSH17");
        reveal_strlit("PUSH18");
        reveal_strlit("PUSH19");
        reveal_strlit("PUSH20");
        reveal_strlit("PUSH21");
        reveal_strlit("PUSH22");
        reveal_strlit("PUSH23");
        reveal_strlit("PUSH24");
        reveal_strlit("PUSH25");
        reveal_strlit("PUSH26");
        reveal_strlit("PUSH27");
        reveal_strlit("PUSH28");
        reveal_strlit("PUSH29");
        reveal_strlit("PUSH30");
        reveal_strlit("PUSH31");
        reveal_strlit("PUSH32");
        reveal_strlit("DUP1");
        reveal_strlit("DUP2");
        reveal_strlit("DUP3");
        reveal_strlit("DUP4");
        reveal_strlit("DUP5");
        reveal_strlit("DUP6");
        reveal_strlit("DUP7");
        reveal_strlit("DUP8");
        reveal_strlit("DUP9");
        reveal_strlit("DUP10");
        reveal_strlit("DUP11");
        reveal_strlit("DUP12");
        reveal_strlit("DUP13");
        reveal_strlit("DUP14");
        reveal_strlit("DUP15");
        reveal_strlit("DUP16");
        reveal_strlit("SWAP1");
        reveal_strlit("SWAP2");
        reveal_strlit("SWAP3");
        reveal_strlit("SWAP4");
        reveal_strlit("SWAP5");
        reveal_strlit("SWAP6");
        reveal_strlit("SWAP7");
        reveal_strlit("SWAP8");
        reveal_strlit("SWAP9");
        reveal_strlit("SWAP10");
        reveal_strlit("SWAP11");
        reveal_strlit("SWAP12");
        reveal_strlit("SWAP13");
        reveal_strlit("SWAP14");
        reveal_strlit("SWAP15");
        reveal_strlit("SWAP16");
        reveal_with_fuel(decimal, 3);
        let n: nat = if byte <= 0x7f {
            (byte - 0x5f) as nat
        } else if byte <= 0x8f {
            (byte - 0x7f) as nat
        } else {
            (byte - 0x8f) as nat
        };
        lemma_decimal_reads_back(n);
        assert(crate::tables::table_name(byte) =~= name_of_opcode(opcode_of_byte(byte)));
    }
}

} // verus!
