//! The closed set of value types that cross the sandbox boundary, and the
//! scalar values the guest exchanges with the host.
use vstd::prelude::*;

verus! {

/// The numeric types a guest function can take and return.
#[derive(Clone, Copy, Debug, PartialEq, Eq, Structural)]
pub enum ValueType {
    Int32,
    Int64,
    Float32,
    Float64,
}

/// The type of a host column, as far as the bridge needs to know it: one of
/// the four numeric types, or any other type.
#[derive(Clone, Copy, Debug, PartialEq, Eq, Structural)]
pub enum DataType {
    Int32,
    Int64,
    Float32,
    Float64,
    Other,
}

/// A flat scalar as the guest sees it. Floating-point values are carried as
/// their IEEE 754 bit patterns, so crossing the boundary never rounds.
#[derive(Clone, Copy, Debug, PartialEq, Eq, Structural)]
pub enum GuestValue {
    I32(i32),
    I64(i64),
    F32(u32),
    F64(u64),
}

impl ValueType {
    /// The host type that corresponds to this value type.
    pub open spec fn spec_data_type(self) -> DataType {
        match self {
            ValueType::Int32 => DataType::Int32,
            ValueType::Int64 => DataType::Int64,
            ValueType::Float32 => DataType::Float32,
            ValueType::Float64 => DataType::Float64,
        }
    }

    #[verifier::when_used_as_spec(spec_data_type)]
    pub fn data_type(self) -> (r: DataType)
        ensures
            r == self.spec_data_type(),
    {
        match self {
            ValueType::Int32 => DataType::Int32,
            ValueType::Int64 => DataType::Int64,
            ValueType::Float32 => DataType::Float32,
            ValueType::Float64 => DataType::Float64,
        }
    }
}

impl DataType {
    /// The value type of this host type, when it is one of the supported four.
    pub open spec fn spec_value_type(&self) -> Option<ValueType> {
        match self {
            DataType::Int32 => Some(ValueType::Int32),
            DataType::Int64 => Some(ValueType::Int64),
            DataType::Float32 => Some(ValueType::Float32),
            DataType::Float64 => Some(ValueType::Float64),
            DataType::Other => None,
        }
    }

    #[verifier::when_used_as_spec(spec_value_type)]
    pub fn value_type(&self) -> (r: Option<ValueType>)
        ensures
            r == self.spec_value_type(),
    {
        match self {
            DataType::Int32 => Some(ValueType::Int32),
            DataType::Int64 => Some(ValueType::Int64),
            DataType::Float32 => Some(ValueType::Float32),
            DataType::Float64 => Some(ValueType::Float64),
            DataType::Other => None,
        }
    }
}

impl GuestValue {
    /// The runtime tag of a guest value.
    pub open spec fn spec_value_type(self) -> ValueType {
        match self {
            GuestValue::I32(_) => ValueType::Int32,
            GuestValue::I64(_) => ValueType::Int64,
            GuestValue::F32(_) => ValueType::Float32,
            GuestValue::F64(_) => ValueType::Float64,
        }
    }

    #[verifier::when_used_as_spec(spec_value_type)]
    pub fn value_type(self) -> (r: ValueType)
        ensures
            r == self.spec_value_type(),
    {
        match self {
            GuestValue::I32(_) => ValueType::Int32,
            GuestValue::I64(_) => ValueType::Int64,
            GuestValue::F32(_) => ValueType::Float32,
            GuestValue::F64(_) => ValueType::Float64,
        }
    }

    /// The zero of a value type: a placeholder for a result slot.
    pub fn zero(t: ValueType) -> (r: GuestValue)
        ensures
            r.value_type() == t,
    {
        match t {
            ValueType::Int32 => GuestValue::I32(0),
            ValueType::Int64 => GuestValue::I64(0),
            ValueType::Float32 => GuestValue::F32(0),
            ValueType::Float64 => GuestValue::F64(0),
        }
    }
}

} // verus!
