//! The errors of the registry, the calculator and the execution context.

use vstd::prelude::*;
use vstd::string::StringExecFns;
use crate::fork::Fork;
use crate::text::{decimal, hex2, push_decimal, push_hex2};

verus! {

/// Why a cost could not be computed, or gas could not be consumed.
#[derive(Clone, Copy, Debug, PartialEq, Eq, Structural)]
pub enum GasError {
    /// The byte is not in the effective opcode table of the fork.
    UnknownOpcode {
        /// The byte that was asked for
        opcode: u8,
        /// The fork whose table was consulted
        fork: Fork,
    },
    /// The opcode exists in general but is not active at the fork.
    UnsupportedOpcode {
        /// The opcode that was asked for
        opcode: u8,
        /// The fork at which it is not active
        fork: Fork,
    },
    /// The opcode needs more operands than were given.
    MissingOperand {
        /// The opcode that was asked for
        opcode: u8,
        /// How many operands it needs
        needed: usize,
        /// How many operands were given
        given: usize,
    },
    /// More gas was asked for than the context has left.
    OutOfGas {
        /// The amount that was asked for
        requested: u64,
        /// The amount that was left
        available: u64,
    },
}

/// What an opcode that lacks operands asks for, in words.
pub open spec fn operand_demand(opcode: u8) -> Seq<char> {
    match opcode {
        0x54 => "SLOAD requires storage key operand"@,
        0x55 => "SSTORE requires key and value operands"@,
        0x5c => "TLOAD requires storage key operand"@,
        0x5d => "TSTORE requires key and value operands"@,
        0x51 | 0x52 | 0x53 => "Memory operation requires offset operand"@,
        0x5e => "MCOPY requires dst, src, and size operands"@,
        0xf1 | 0xf2 | 0xf4 | 0xfa => "CALL requires at least 7 operands"@,
        0x31 | 0x3b | 0x3c | 0x3f => "Account access requires address operand"@,
        0x37 | 0x39 | 0x3e => "Copy operation requires dest, src, and size operands"@,
        0xf0 | 0xf5 => "CREATE requires value, offset, and size operands"@,
        0x20 => "KECCAK256 requires offset and size operands"@,
        0xa0 | 0xa1 | 0xa2 | 0xa3 | 0xa4 => "LOG requires offset and size operands"@,
        _ => "Opcode 0x"@ + hex2(opcode) + " requires more operands"@,
    }
}

/// What is said of an opcode that is not active at `fork`.
pub open spec fn unsupported_text(opcode: u8, fork: Fork) -> Seq<char> {
    match opcode {
        0x5c => "TLOAD not available before Cancun fork"@,
        0x5d => "TSTORE not available before Cancun fork"@,
        0x5e => "MCOPY not available before Cancun fork"@,
        _ => "Opcode 0x"@ + hex2(opcode) + " not available at fork "@ + fork.spec_name(),
    }
}

/// The text of an error.
pub open spec fn error_text(e: GasError) -> Seq<char> {
    match e {
        GasError::UnknownOpcode { opcode, fork } => "Unknown opcode: 0x"@ + hex2(opcode)
            + " for fork "@ + fork.spec_name(),
        GasError::UnsupportedOpcode { opcode, fork } => unsupported_text(opcode, fork),
        GasError::MissingOperand { opcode, needed, given } => operand_demand(opcode),
        GasError::OutOfGas { requested, available } => "Out of gas: need "@ + decimal(
            requested as nat,
        )
            + ", have "@ + decimal(available as nat),
    }
}

fn operand_demand_string(opcode: u8) -> (s: String)
    ensures
        s@ == operand_demand(opcode),
{
    match opcode {
        0x54 => String::from_str("SLOAD requires storage key operand"),
        0x55 => String::from_str("SSTORE requires key and value operands"),
        0x5c => String::from_str("TLOAD requires storage key operand"),
        0x5d => String::from_str("TSTORE requires key and value operands"),
        0x51 | 0x52 | 0x53 => String::from_str("Memory operation requires offset operand"),
        0x5e => String::from_str("MCOPY requires dst, src, and size operands"),
        0xf1 | 0xf2 | 0xf4 | 0xfa => String::from_str("CALL requires at least 7 operands"),
        0x31 | 0x3b | 0x3c | 0x3f => String::from_str("Account access requires address operand"),
        0x37 | 0x39 | 0x3e => String::from_str(
            "Copy operation requires dest, src, and size operands",
        ),
        0xf0 | 0xf5 => String::from_str("CREATE requires value, offset, and size operands"),
        0x20 => String::from_str("KECCAK256 requires offset and size operands"),
        0xa0 | 0xa1 | 0xa2 | 0xa3 | 0xa4 => String::from_str(
            "LOG requires offset and size operands",
        ),
        _ => {
            let mut s = String::from_str("Opcode 0x");
            push_hex2(&mut s, opcode);
            s.append(" requires more operands");
            s
        },
    }
}

fn unsupported_string(opcode: u8, fork: Fork) -> (s: String)
    ensures
        s@ == unsupported_text(opcode, fork),
{
    match opcode {
        0x5c => String::from_str("TLOAD not available before Cancun fork"),
        0x5d => String::from_str("TSTORE not available before Cancun fork"),
        0x5e => String::from_str("MCOPY not available before Cancun fork"),
        _ => {
            let mut s = String::from_str("Opcode 0x");
            push_hex2(&mut s, opcode);
            s.append(" not available at fork ");
            s.append(fork.name());
            s
        },
    }
}

impl GasError {
    /// The text of the error, for reports and logs.
    pub fn message(&self) -> (s: String)
        ensures
            s@ == error_text(*self),
    {
        match *self {
            GasError::UnknownOpcode { opcode, fork } => {
                let mut s = String::from_str("Unknown opcode: 0x");
                push_hex2(&mut s, opcode);
                s.append(" for fork ");
                s.append(fork.name());
                s
            },
            GasError::UnsupportedOpcode { opcode, fork } => unsupported_string(opcode, fork),
            GasError::MissingOperand { opcode, needed, given } => operand_demand_string(opcode),
            GasError::OutOfGas { requested, available } => {
                let mut s = String::from_str("Out of gas: need ");
                push_decimal(&mut s, requested);
                s.append(", have ");
                push_decimal(&mut s, available);
                s
            },
        }
    }
}

} // verus!
