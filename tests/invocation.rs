use datafusion_udfs_wasm::{
    collect_answers, invoke_rows, marshal_row, run_guest, try_create_wasm_udf, Column, DataType,
    ExecutionError, GuestAnswer, GuestValue, TrapError, ValueType, WasmInputDataType, WasmUdf,
    WasmUdfDetails, WasmUdfError,
};

const ADD_ONE: &str = r#"(module
  (func (export "add_one") (param i64) (result i64)
    local.get 0
    i64.const 1
    i64.add))"#;

fn udf(wat: &str, name: &str, inputs: Vec<DataType>, ret: DataType) -> WasmUdf {
    let d = WasmUdfDetails::new(name.to_string(), inputs, ret, WasmInputDataType::Row);
    try_create_wasm_udf(wat.as_bytes(), d).unwrap()
}

fn i64_column(values: &[i64]) -> Column {
    Column::Int64(values.iter().map(|v| Some(*v)).collect())
}

#[test]
fn add_one_over_int64_column() {
    let f = udf(ADD_ONE, "add_one", vec![DataType::Int64], DataType::Int64);
    let out = f.invoke(&vec![i64_column(&[1, 2, 3])], 3).unwrap();
    assert_eq!(out, i64_column(&[2, 3, 4]));
}

#[test]
fn add_one_wraps_at_the_largest_value() {
    let f = udf(ADD_ONE, "add_one", vec![DataType::Int64], DataType::Int64);
    let out = f.invoke(&vec![i64_column(&[i64::MAX, -1])], 2).unwrap();
    assert_eq!(out, i64_column(&[i64::MIN, 0]));
}

#[test]
fn null_cell_fails_the_whole_call() {
    let f = udf(ADD_ONE, "add_one", vec![DataType::Int64], DataType::Int64);
    let col = Column::Int64(vec![Some(1), Some(2), None, Some(4), Some(5)]);
    assert_eq!(f.invoke(&vec![col], 5), Err(WasmUdfError::NullValue { row: 2 }));
}

#[test]
fn too_few_argument_columns_is_an_arity_mismatch() {
    let wat = r#"(module
      (func (export "mix") (param i32 f64) (result f64) local.get 1))"#;
    let f = udf(wat, "mix", vec![DataType::Int32, DataType::Float64], DataType::Float64);
    let only = Column::Int32(vec![Some(1)]);
    assert_eq!(
        f.invoke(&vec![only], 1),
        Err(WasmUdfError::ArityMismatch { expected: 2, actual: 1 })
    );
}

#[test]
fn trap_on_a_row_fails_the_batch() {
    let wat = r#"(module
      (func (export "f") (param i64) (result i64)
        local.get 0
        i64.const 2
        i64.eq
        if
          unreachable
        end
        local.get 0))"#;
    let f = udf(wat, "f", vec![DataType::Int64], DataType::Int64);
    match f.invoke(&vec![i64_column(&[1, 2, 3])], 3) {
        Err(WasmUdfError::Execution(ExecutionError::Trap(TrapError { row, message }))) => {
            assert_eq!(row, 1);
            assert!(!message.is_empty());
        }
        other => panic!("unexpected outcome {:?}", other),
    }
}

#[test]
fn division_by_zero_traps() {
    let wat = r#"(module
      (func (export "div") (param i32 i32) (result i32)
        local.get 0
        local.get 1
        i32.div_s))"#;
    let f = udf(wat, "div", vec![DataType::Int32, DataType::Int32], DataType::Int32);
    let a = Column::Int32(vec![Some(6), Some(1)]);
    let b = Column::Int32(vec![Some(3), Some(0)]);
    let r = f.invoke(&vec![a.clone(), b], 2);
    assert!(matches!(
        r,
        Err(WasmUdfError::Execution(ExecutionError::Trap(TrapError { row: 1, .. })))
    ));
    let ok = f.invoke(&vec![a, Column::Int32(vec![Some(3), Some(-1)])], 2).unwrap();
    assert_eq!(ok, Column::Int32(vec![Some(2), Some(-1)]));
}

#[test]
fn wrong_return_tag_is_an_execution_error() {
    let wat = r#"(module (func (export "f") (param i64) (result i32) i32.const 0))"#;
    let f = udf(wat, "f", vec![DataType::Int64], DataType::Int64);
    assert_eq!(
        f.invoke(&vec![i64_column(&[5])], 1),
        Err(WasmUdfError::Execution(ExecutionError::WrongReturnType { row: 0 }))
    );
}

#[test]
fn column_of_another_numeric_type_is_a_mismatch() {
    let f = udf(ADD_ONE, "add_one", vec![DataType::Int64], DataType::Int64);
    let col = Column::Int32(vec![Some(1)]);
    assert_eq!(
        f.invoke(&vec![col], 1),
        Err(WasmUdfError::TypeMismatch { expected: ValueType::Int64, actual: DataType::Int32 })
    );
}

#[test]
fn column_of_unsupported_type_is_rejected() {
    let f = udf(ADD_ONE, "add_one", vec![DataType::Int64], DataType::Int64);
    assert_eq!(
        f.invoke(&vec![Column::Other(2)], 2),
        Err(WasmUdfError::UnsupportedType(DataType::Other))
    );
}

#[test]
fn columns_of_unequal_length_are_rejected() {
    let f = udf(ADD_ONE, "add_one", vec![DataType::Int64], DataType::Int64);
    assert_eq!(
        f.invoke(&vec![i64_column(&[1, 2])], 3),
        Err(WasmUdfError::Execution(ExecutionError::RowCountMismatch))
    );
}

#[test]
fn empty_batch_gives_empty_column() {
    let f = udf(ADD_ONE, "add_one", vec![DataType::Int64], DataType::Int64);
    assert_eq!(f.invoke(&vec![i64_column(&[])], 0).unwrap(), i64_column(&[]));
}

#[test]
fn function_without_arguments_runs_once_per_row() {
    let wat = r#"(module (func (export "seven") (result i32) i32.const 7))"#;
    let f = udf(wat, "seven", vec![], DataType::Int32);
    assert_eq!(
        f.invoke(&vec![], 3).unwrap(),
        Column::Int32(vec![Some(7), Some(7), Some(7)])
    );
}

#[test]
fn each_row_runs_in_a_fresh_instance() {
    let wat = r#"(module
      (global $calls (mut i64) (i64.const 0))
      (func (export "count") (param i64) (result i64)
        global.get $calls
        i64.const 1
        i64.add
        global.set $calls
        global.get $calls))"#;
    let f = udf(wat, "count", vec![DataType::Int64], DataType::Int64);
    let out = f.invoke(&vec![i64_column(&[0, 0, 0, 0])], 4).unwrap();
    assert_eq!(out, i64_column(&[1, 1, 1, 1]));
    let again = f.invoke(&vec![i64_column(&[0])], 1).unwrap();
    assert_eq!(again, i64_column(&[1]));
}

#[test]
fn float_arguments_and_results_keep_their_bits() {
    let wat = r#"(module
      (func (export "add") (param f64 f32) (result f64)
        local.get 0
        local.get 1
        f64.promote_f32
        f64.add))"#;
    let f = udf(wat, "add", vec![DataType::Float64, DataType::Float32], DataType::Float64);
    let a = Column::Float64(vec![Some(1.25f64.to_bits()), Some((-0.5f64).to_bits())]);
    let b = Column::Float32(vec![Some(2.5f32.to_bits()), Some(0.25f32.to_bits())]);
    let out = f.invoke(&vec![a, b], 2).unwrap();
    assert_eq!(
        out,
        Column::Float64(vec![Some(3.75f64.to_bits()), Some((-0.25f64).to_bits())])
    );
}

#[test]
fn identity_passes_nan_payload_and_negative_zero() {
    let wat = r#"(module (func (export "id") (param f32) (result f32) local.get 0))"#;
    let f = udf(wat, "id", vec![DataType::Float32], DataType::Float32);
    let bits = vec![Some(0x7fc0_1234u32), Some((-0.0f32).to_bits()), Some(f32::MIN_POSITIVE.to_bits())];
    let out = f.invoke(&vec![Column::Float32(bits.clone())], 3).unwrap();
    assert_eq!(out, Column::Float32(bits));
}

#[test]
fn invoke_rows_matches_invoke() {
    let types = vec![DataType::Int64];
    let args = vec![i64_column(&[10, 20])];
    let r = invoke_rows(ADD_ONE.as_bytes(), "add_one", &types, ValueType::Int64, &args, 2);
    assert_eq!(r.unwrap(), i64_column(&[11, 21]));
}

#[test]
fn run_guest_answers_one_call() {
    let params = vec![GuestValue::I64(41)];
    assert_eq!(
        run_guest(ADD_ONE.as_bytes(), "add_one", &params, ValueType::Int64),
        GuestAnswer::Value(GuestValue::I64(42))
    );
    assert_eq!(
        run_guest(ADD_ONE.as_bytes(), "nope", &params, ValueType::Int64),
        GuestAnswer::NoExport
    );
    assert!(matches!(
        run_guest(b"garbage", "add_one", &params, ValueType::Int64),
        GuestAnswer::Setup(_)
    ));
    let wrong_arity = vec![GuestValue::I64(1), GuestValue::I64(2)];
    assert!(matches!(
        run_guest(ADD_ONE.as_bytes(), "add_one", &wrong_arity, ValueType::Int64),
        GuestAnswer::Trap(_)
    ));
}

#[test]
fn vector_result_is_a_wrong_return_type() {
    let wat = r#"(module (func (export "r") (result v128) v128.const i64x2 0 0))"#;
    let d = WasmUdfDetails::new("r".to_string(), vec![], DataType::Int64, WasmInputDataType::Row);
    let f = try_create_wasm_udf(wat.as_bytes(), d).unwrap();
    assert_eq!(
        f.invoke(&vec![], 1),
        Err(WasmUdfError::Execution(ExecutionError::WrongReturnType { row: 0 }))
    );
}

#[test]
fn marshal_row_reads_cells_in_argument_order() {
    let types = vec![DataType::Int32, DataType::Float64];
    let args = vec![
        Column::Int32(vec![Some(3), Some(4)]),
        Column::Float64(vec![Some(9), None]),
    ];
    assert_eq!(
        marshal_row(&types, &args, 0).unwrap(),
        vec![GuestValue::I32(3), GuestValue::F64(9)]
    );
    assert_eq!(marshal_row(&types, &args, 1), Err(WasmUdfError::NullValue { row: 1 }));
}

#[test]
fn collect_answers_builds_the_column() {
    let types = vec![DataType::Int32];
    let args = vec![Column::Int32(vec![Some(1), Some(2)])];
    let answers = vec![
        GuestAnswer::Value(GuestValue::I32(10)),
        GuestAnswer::Value(GuestValue::I32(20)),
    ];
    let out = collect_answers(&types, ValueType::Int32, &args, 2, &answers).unwrap();
    assert_eq!(out, Column::Int32(vec![Some(10), Some(20)]));
    assert_eq!(out.len(), 2);
}

#[test]
fn collect_answers_stops_at_the_first_trap() {
    let types = vec![DataType::Int64];
    let args = vec![i64_column(&[1, 2, 3, 4])];
    let answers = vec![
        GuestAnswer::Value(GuestValue::I64(1)),
        GuestAnswer::Value(GuestValue::I64(2)),
        GuestAnswer::Trap("boom".to_string()),
        GuestAnswer::Trap("later".to_string()),
    ];
    assert_eq!(
        collect_answers(&types, ValueType::Int64, &args, 4, &answers),
        Err(WasmUdfError::Execution(ExecutionError::Trap(TrapError {
            row: 2,
            message: "boom".to_string()
        })))
    );
}

#[test]
fn collect_answers_null_before_trap_wins() {
    let types = vec![DataType::Int64];
    let args = vec![Column::Int64(vec![Some(1), None, Some(3)])];
    let answers = vec![
        GuestAnswer::Value(GuestValue::I64(1)),
        GuestAnswer::Trap("boom".to_string()),
        GuestAnswer::Value(GuestValue::I64(3)),
    ];
    assert_eq!(
        collect_answers(&types, ValueType::Int64, &args, 3, &answers),
        Err(WasmUdfError::NullValue { row: 1 })
    );
}

#[test]
fn collect_answers_maps_every_failure() {
    let types = vec![DataType::Int64];
    let args = vec![i64_column(&[1])];
    let case = |a: GuestAnswer| collect_answers(&types, ValueType::Int64, &args, 1, &vec![a]);
    assert_eq!(
        case(GuestAnswer::Value(GuestValue::F64(1))),
        Err(WasmUdfError::Execution(ExecutionError::WrongReturnType { row: 0 }))
    );
    assert_eq!(
        case(GuestAnswer::OtherValue),
        Err(WasmUdfError::Execution(ExecutionError::WrongReturnType { row: 0 }))
    );
    assert_eq!(
        case(GuestAnswer::Setup("no engine".to_string())),
        Err(WasmUdfError::Execution(ExecutionError::Setup {
            row: 0,
            message: "no engine".to_string()
        }))
    );
    assert_eq!(
        case(GuestAnswer::NoExport),
        Err(WasmUdfError::Execution(ExecutionError::MissingExport { row: 0 }))
    );
    assert_eq!(
        collect_answers(&types, ValueType::Int64, &args, 1, &vec![]),
        Err(WasmUdfError::Execution(ExecutionError::NoResult { row: 0 }))
    );
}
