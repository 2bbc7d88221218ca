//! Conversion between column cells and the guest's flat scalar values.
use vstd::prelude::*;

use crate::column::{Column, ColumnView};
use crate::error::WasmUdfError;
use crate::types::{DataType, GuestValue, ValueType};

verus! {

/// The guest value for the cell at `row` of a column, read as `declared`.
///
/// A declared type outside the numeric four, or a column of such a type, is
/// unsupported; a column of another numeric type is a mismatch; a null cell
/// has no guest representation.
pub open spec fn guest_value_of(c: ColumnView, row: int, declared: DataType) -> Result<
    GuestValue,
    WasmUdfError,
> {
    match declared.spec_value_type() {
        None => Err(WasmUdfError::UnsupportedType(declared)),
        Some(t) => if c.data_type == DataType::Other {
            Err(WasmUdfError::UnsupportedType(c.data_type))
        } else if c.data_type != declared {
            Err(WasmUdfError::TypeMismatch { expected: t, actual: c.data_type })
        } else {
            match c.cells[row] {
                Some(v) => Ok(v),
                None => Err(WasmUdfError::NullValue { row: row as usize }),
            }
        },
    }
}

/// The dense, null-free column of type `t` that holds `values` in order.
pub open spec fn column_of(values: Seq<GuestValue>, t: ValueType) -> ColumnView {
    ColumnView {
        data_type: t.spec_data_type(),
        cells: values.map_values(|v: GuestValue| Some(v)),
    }
}

/// Reads the cell at `row_index` of `column` as a value of `declared_type`.
pub fn to_guest_value(column: &Column, row_index: usize, declared_type: DataType) -> (r: Result<
    GuestValue,
    WasmUdfError,
>)
    requires
        row_index < column@.cells.len(),
    ensures
        r == guest_value_of(column@, row_index as int, declared_type),
{
    let t = match declared_type.value_type() {
        None => {
            return Err(WasmUdfError::UnsupportedType(declared_type));
        },
        Some(t) => t,
    };
    let cell = match (column, t) {
        (Column::Int32(v), ValueType::Int32) => match v[row_index] {
            Some(x) => Some(GuestValue::I32(x)),
            None => None,
        },
        (Column::Int64(v), ValueType::Int64) => match v[row_index] {
            Some(x) => Some(GuestValue::I64(x)),
            None => None,
        },
        (Column::Float32(v), ValueType::Float32) => match v[row_index] {
            Some(x) => Some(GuestValue::F32(x)),
            None => None,
        },
        (Column::Float64(v), ValueType::Float64) => match v[row_index] {
            Some(x) => Some(GuestValue::F64(x)),
            None => None,
        },
        (Column::Other(_), _) => {
            return Err(WasmUdfError::UnsupportedType(DataType::Other));
        },
        _ => {
            return Err(WasmUdfError::TypeMismatch { expected: t, actual: column.data_type() });
        },
    };
    match cell {
        Some(v) => Ok(v),
        None => Err(WasmUdfError::NullValue { row: row_index }),
    }
}

/// Assembles the values the guest returned into one dense column of the
/// declared return type.
pub fn from_guest_values(values: &Vec<GuestValue>, declared_return_type: ValueType) -> (r: Column)
    requires
        forall|i: int| 0 <= i < values@.len() ==> (#[trigger] values@[i]).value_type()
            == declared_return_type,
    ensures
        r@ == column_of(values@, declared_return_type),
{
    let n: usize = values.len();
    match declared_return_type {
        ValueType::Int32 => {
            let mut out: Vec<Option<i32>> = Vec::with_capacity(n);
            let mut i: usize = 0;
            while i < n
                invariant
                    i <= n == values@.len(),
                    forall|j: int| 0 <= j < values@.len() ==> (#[trigger] values@[j]).value_type()
                        == ValueType::Int32,
                    out@.len() == i,
                    forall|j: int|
                        0 <= j < i ==> values@[j] == GuestValue::I32(
                            (#[trigger] out@[j])->Some_0,
                        ) && out@[j] is Some,
                decreases n - i,
            {
                if let GuestValue::I32(x) = values[i] {
                    out.push(Some(x));
                }
                i = i + 1;
            }
            let r = Column::Int32(out);
            assert(r@.cells =~= column_of(values@, declared_return_type).cells);
            r
        },
        ValueType::Int64 => {
            let mut out: Vec<Option<i64>> = Vec::with_capacity(n);
            let mut i: usize = 0;
            while i < n
                invariant
                    i <= n == values@.len(),
                    forall|j: int| 0 <= j < values@.len() ==> (#[trigger] values@[j]).value_type()
                        == ValueType::Int64,
                    out@.len() == i,
                    forall|j: int|
                        0 <= j < i ==> values@[j] == GuestValue::I64(
                            (#[trigger] out@[j])->Some_0,
                        ) && out@[j] is Some,
                decreases n - i,
            {
                if let GuestValue::I64(x) = values[i] {
                    out.push(Some(x));
                }
                i = i + 1;
            }
            let r = Column::Int64(out);
            assert(r@.cells =~= column_of(values@, declared_return_type).cells);
            r
        },
        ValueType::Float32 => {
            let mut out: Vec<Option<u32>> = Vec::with_capacity(n);
            let mut i: usize = 0;
            while i < n
                invariant
                    i <= n == values@.len(),
                    forall|j: int| 0 <= j < values@.len() ==> (#[trigger] values@[j]).value_type()
                        == ValueType::Float32,
                    out@.len() == i,
                    forall|j: int|
                        0 <= j < i ==> values@[j] == GuestValue::F32(
                            (#[trigger] out@[j])->Some_0,
                        ) && out@[j] is Some,
                decreases n - i,
            {
                if let GuestValue::F32(x) = values[i] {
                    out.push(Some(x));
                }
                i = i + 1;
            }
            let r = Column::Float32(out);
            assert(r@.cells =~= column_of(values@, declared_return_type).cells);
            r
        },
        ValueType::Float64 => {
            let mut out: Vec<Option<u64>> = Vec::with_capacity(n);
            let mut i: usize = 0;
            while i < n
                invariant
                    i <= n == values@.len(),
                    forall|j: int| 0 <= j < values@.len() ==> (#[trigger] values@[j]).value_type()
                        == ValueType::Float64,
                    out@.len() == i,
                    forall|j: int|
                        0 <= j < i ==> values@[j] == GuestValue::F64(
                            (#[trigger] out@[j])->Some_0,
                        ) && out@[j] is Some,
                decreases n - i,
            {
                if let GuestValue::F64(x) = values[i] {
                    out.push(Some(x));
                }
                i = i + 1;
            }
            let r = Column::Float64(out);
            assert(r@.cells =~= column_of(values@, declared_return_type).cells);
            r
        },
    }
}

/// Marshaling loses nothing. Reading every cell of a null-free column of a
/// supported type and assembling the values again yields the same column,
/// bit for bit; and a value of type `t` placed in a column of type `t` is read
/// back as itself.
pub proof fn lemma_round_trip(c: ColumnView, t: ValueType, v: GuestValue)
    requires
        c.data_type == t.spec_data_type(),
        forall|i: int| 0 <= i < c.cells.len() ==> (#[trigger] c.cells[i]) is Some,
        v.spec_value_type() == t,
    ensures
        forall|i: int|
            0 <= i < c.cells.len() ==> (#[trigger] guest_value_of(c, i, t.spec_data_type())) is Ok,
        column_of(
            Seq::new(c.cells.len(), |i: int| guest_value_of(c, i, t.spec_data_type())->Ok_0),
            t,
        ) == c,
        guest_value_of(column_of(seq![v], t), 0, t.spec_data_type()) == Ok::<
            GuestValue,
            WasmUdfError,
        >(v),
{
    let dt = t.spec_data_type();
    let values = Seq::new(c.cells.len(), |i: int| guest_value_of(c, i, dt)->Ok_0);
    assert(column_of(values, t).cells =~= c.cells);
    let one = column_of(seq![v], t);
    assert(one.cells[0] == Some(v));
}

} // verus!
