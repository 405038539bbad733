//! EVM opcode tables for every Ethereum fork, with a fork-ordered
//! registry and a context-aware gas cost calculator.
//!
//! The registry resolves which opcodes are active at a fork and what
//! their base cost is there; the calculator adds the surcharges that
//! depend on the execution context (warm and cold access, memory
//! growth, calls and creations).
//!
//! - [`fork`] holds the timeline, [`metadata`] the record of an opcode,
//!   [`tables`] the canonical opcode table and [`registry`] the tables
//!   in effect at each fork.
//! - [`gas`] holds the execution context, the calculator and the
//!   analyses built on it.
//! - [`unified`] names opcodes whatever the fork, [`forks`] and
//!   [`traits`] give each fork a type of its own, and [`queries`]
//!   answer what a byte alone tells.
//! - [`validation`] says what is wrong with the tables of a registry.
//!
//! Every function is verified against a contract that is stated over
//! plain mathematical values. Prices are computed exactly; a price that
//! does not fit in 64 bits is handed out as the largest 64-bit value.

pub mod error;
pub mod fork;
pub mod forks;
pub mod gas;
pub mod metadata;
pub mod queries;
pub mod ranking;
pub mod registry;
pub mod tables;
pub mod text;
pub mod traits;
pub mod unified;
pub mod validation;

pub use error::GasError;
pub use fork::{Fork, Group};
pub use forks::{
    Berlin,
    Byzantium,
    Cancun,
    Constantinople,
    Frontier,
    Homestead,
    Istanbul,
    London,
    Shanghai,
};
pub use gas::{
    DynamicGasCalculator,
    ExecutionContext,
    GasAnalysis,
    GasAnalysisResult,
    GasCostCategory,
};
pub use metadata::OpcodeMetadata;
pub use registry::OpcodeRegistry;
pub use traits::{
    ChangeType,
    ForkOpcodes,
    ForkValidation,
    OpCode,
    OpcodeAnalysis,
    OpcodeChange,
    OpcodeComparison,
    OpcodeExt,
};
pub use unified::UnifiedOpcode;
pub use validation::{
    run_comprehensive_validation,
    validate_known_gas_changes,
    validate_registry,
    ValidationReport,
};
