use datafusion_udfs_wasm::{
    from_guest_values, to_guest_value, Column, DataType, GuestValue, ValueType, WasmUdfError,
};

fn round_trip(column: &Column, t: ValueType) -> Column {
    let v = to_guest_value(column, 0, t.data_type()).unwrap();
    from_guest_values(&vec![v], t)
}

#[test]
fn round_trip_int32() {
    for x in [0, 1, -1, i32::MIN, i32::MAX] {
        let c = Column::Int32(vec![Some(x)]);
        assert_eq!(round_trip(&c, ValueType::Int32), c);
    }
}

#[test]
fn round_trip_int64() {
    for x in [0, 42, -7, i64::MIN, i64::MAX] {
        let c = Column::Int64(vec![Some(x)]);
        assert_eq!(round_trip(&c, ValueType::Int64), c);
    }
}

#[test]
fn round_trip_float32_bit_exact() {
    for x in [0.0f32, -0.0, 1.5, f32::MIN_POSITIVE, f32::INFINITY, f32::NAN] {
        let c = Column::Float32(vec![Some(x.to_bits())]);
        assert_eq!(round_trip(&c, ValueType::Float32), c);
    }
    let payload = Column::Float32(vec![Some(0x7fa0_0001)]);
    assert_eq!(round_trip(&payload, ValueType::Float32), payload);
}

#[test]
fn round_trip_float64_bit_exact() {
    for x in [0.0f64, -0.0, 0.1, f64::MAX, f64::NEG_INFINITY, f64::NAN] {
        let c = Column::Float64(vec![Some(x.to_bits())]);
        assert_eq!(round_trip(&c, ValueType::Float64), c);
        let back = match round_trip(&c, ValueType::Float64) {
            Column::Float64(v) => f64::from_bits(v[0].unwrap()),
            other => panic!("unexpected column {:?}", other),
        };
        assert_eq!(back.to_bits(), x.to_bits());
    }
}

#[test]
fn to_guest_value_reads_the_requested_row() {
    let c = Column::Int64(vec![Some(5), Some(6), Some(7)]);
    assert_eq!(to_guest_value(&c, 2, DataType::Int64), Ok(GuestValue::I64(7)));
}

#[test]
fn to_guest_value_rejects_null() {
    let c = Column::Float32(vec![Some(1), None]);
    assert_eq!(to_guest_value(&c, 1, DataType::Float32), Err(WasmUdfError::NullValue { row: 1 }));
}

#[test]
fn to_guest_value_rejects_unsupported_declared_type() {
    let c = Column::Int32(vec![Some(1)]);
    assert_eq!(
        to_guest_value(&c, 0, DataType::Other),
        Err(WasmUdfError::UnsupportedType(DataType::Other))
    );
}

#[test]
fn to_guest_value_rejects_mismatched_column() {
    let c = Column::Float64(vec![Some(1)]);
    assert_eq!(
        to_guest_value(&c, 0, DataType::Float32),
        Err(WasmUdfError::TypeMismatch { expected: ValueType::Float32, actual: DataType::Float64 })
    );
}

#[test]
fn from_guest_values_keeps_order_and_length() {
    let vs = vec![GuestValue::I32(3), GuestValue::I32(1), GuestValue::I32(2)];
    let c = from_guest_values(&vs, ValueType::Int32);
    assert_eq!(c, Column::Int32(vec![Some(3), Some(1), Some(2)]));
    assert_eq!(c.len(), 3);
    assert_eq!(c.data_type(), DataType::Int32);
    assert_eq!(from_guest_values(&vec![], ValueType::Float64), Column::Float64(vec![]));
}

#[test]
fn value_types_and_data_types_correspond() {
    for t in [ValueType::Int32, ValueType::Int64, ValueType::Float32, ValueType::Float64] {
        assert_eq!(t.data_type().value_type(), Some(t));
        assert_eq!(GuestValue::zero(t).value_type(), t);
    }
    assert_eq!(DataType::Other.value_type(), None);
    assert_eq!(Column::Other(4).len(), 4);
}
