//! A bridge that lets a sandboxed WebAssembly module act as a scalar function
//! over typed, columnar data.
//!
//! The module is validated once when the function is created; every call then
//! marshals each row into the guest's flat scalar values, runs the guest in a
//! fresh instance, and collects the returned values into a new column.
pub mod column;
pub mod config;
pub mod error;
pub mod extensions;
pub mod invoke;
pub mod marshal;
pub mod sandbox;
pub mod tables;
pub mod types;
pub mod udf;

pub use column::{Column, ColumnView};
pub use config::{
    default_benchmark_iterations, default_connection_url, get_data_dir, join_path,
    DataFusionConfig, EditorConfig, FlightSQLClientConfig, InteractionConfig,
};
pub use error::{ExecutionError, TrapError, WasmUdfError};
pub use marshal::{from_guest_values, to_guest_value};
pub use extensions::HudiExtension;
pub use invoke::{collect_answers, invoke_rows, marshal_row};
pub use sandbox::{check_module, run_guest, GuestAnswer, ModuleCheck};
pub use tables::{MapTableConfig, ParquetMetadataFunc};
pub use types::{DataType, GuestValue, ValueType};
pub use udf::{
    create_wasm_udf, finish_registration, try_create_wasm_udf, Volatility, WasmInputDataType, WasmUdf,
    WasmUdfDetails,
};
