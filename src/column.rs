//! Dense columns of one value type with optional null markers.
use vstd::prelude::*;

use crate::types::{DataType, GuestValue, ValueType};

verus! {

/// A host column. Floating-point cells hold IEEE 754 bit patterns. A column
/// of any other type is carried only by its length.
#[derive(Clone, Debug, PartialEq)]
pub enum Column {
    Int32(Vec<Option<i32>>),
    Int64(Vec<Option<i64>>),
    Float32(Vec<Option<u32>>),
    Float64(Vec<Option<u64>>),
    Other(usize),
}

/// What a column holds: its type and, for each row, its value or a null.
pub struct ColumnView {
    pub data_type: DataType,
    pub cells: Seq<Option<GuestValue>>,
}

impl View for Column {
    type V = ColumnView;

    open spec fn view(&self) -> ColumnView {
        match self {
            Column::Int32(v) => ColumnView {
                data_type: DataType::Int32,
                cells: v@.map_values(|o: Option<i32>| match o {
                    Some(x) => Some(GuestValue::I32(x)),
                    None => None,
                }),
            },
            Column::Int64(v) => ColumnView {
                data_type: DataType::Int64,
                cells: v@.map_values(|o: Option<i64>| match o {
                    Some(x) => Some(GuestValue::I64(x)),
                    None => None,
                }),
            },
            Column::Float32(v) => ColumnView {
                data_type: DataType::Float32,
                cells: v@.map_values(|o: Option<u32>| match o {
                    Some(x) => Some(GuestValue::F32(x)),
                    None => None,
                }),
            },
            Column::Float64(v) => ColumnView {
                data_type: DataType::Float64,
                cells: v@.map_values(|o: Option<u64>| match o {
                    Some(x) => Some(GuestValue::F64(x)),
                    None => None,
                }),
            },
            Column::Other(len) => ColumnView {
                data_type: DataType::Other,
                cells: Seq::new(*len as nat, |i: int| None),
            },
        }
    }
}

impl Column {
    /// The type of the column.
    pub fn data_type(&self) -> (r: DataType)
        ensures
            r == self@.data_type,
    {
        match self {
            Column::Int32(_) => DataType::Int32,
            Column::Int64(_) => DataType::Int64,
            Column::Float32(_) => DataType::Float32,
            Column::Float64(_) => DataType::Float64,
            Column::Other(_) => DataType::Other,
        }
    }

    /// The number of rows.
    pub fn len(&self) -> (r: usize)
        ensures
            r == self@.cells.len(),
    {
        match self {
            Column::Int32(v) => v.len(),
            Column::Int64(v) => v.len(),
            Column::Float32(v) => v.len(),
            Column::Float64(v) => v.len(),
            Column::Other(len) => *len,
        }
    }
}

} // verus!
