//! Errors of registration and of invocation.
use vstd::prelude::*;

use crate::types::{DataType, ValueType};

verus! {

/// The guest faulted while computing the result of one row.
#[derive(Clone, Debug, PartialEq, Eq)]
pub struct TrapError {
    /// The row whose call faulted.
    pub row: usize,
    /// The sandbox's description of the fault.
    pub message: String,
}

/// A failure at call time that aborts the whole batch.
#[derive(Clone, Debug, PartialEq, Eq)]
pub enum ExecutionError {
    /// The guest trapped.
    Trap(TrapError),
    /// The guest returned a value whose tag is not the declared return type.
    WrongReturnType { row: usize },
    /// The sandbox could not be set up for a row: the engine, the module or
    /// the instance could not be built.
    Setup { row: usize, message: String },
    /// The instance built for a row does not export the function.
    MissingExport { row: usize },
    /// No result was reported for a row.
    NoResult { row: usize },
    /// An argument column does not hold as many rows as the batch.
    RowCountMismatch,
}

/// Everything that can go wrong when creating or calling a guest function.
#[derive(Clone, Debug, PartialEq, Eq)]
pub enum WasmUdfError {
    /// The bytes are neither a valid binary nor a valid text module.
    ModuleLoad,
    /// The module cannot be instantiated without host imports.
    Instantiation(String),
    /// The module exports no function under the declared name.
    MissingExport(String),
    /// The calling convention is not supported.
    UnsupportedConvention,
    /// The number of argument columns differs from the declared arity.
    ArityMismatch { expected: usize, actual: usize },
    /// A declared or supplied type lies outside the four numeric types.
    UnsupportedType(DataType),
    /// An argument column is of a supported type other than the declared one.
    TypeMismatch { expected: ValueType, actual: DataType },
    /// An argument cell is null; the guest has no way to receive a null.
    NullValue { row: usize },
    /// The batch failed while the guest ran.
    Execution(ExecutionError),
}

} // verus!
