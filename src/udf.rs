//! Registration: a module and a signature become a callable scalar function,
//! or nothing at all.
use vstd::prelude::*;

use crate::column::Column;
use crate::error::WasmUdfError;
use crate::invoke::{batch_result, invoke_rows, is_missing_answer, outcome_view, views};
use crate::sandbox::{check_module, GuestAnswer, ModuleCheck};
use crate::types::{DataType, ValueType};

verus! {

/// How the guest receives its arguments.
#[derive(Clone, Copy, Debug, PartialEq, Eq, Structural)]
pub enum WasmInputDataType {
    /// One call per row, each with one scalar per argument.
    Row,
    /// One call per batch, with the arrays in the guest's memory.
    Array,
    /// One call per batch, with the batch in Arrow's layout.
    Arrow,
}

/// How a function's result may vary between calls with the same arguments.
#[derive(Clone, Copy, Debug, PartialEq, Eq, Structural)]
pub enum Volatility {
    /// The same arguments always give the same result.
    Immutable,
    /// The result may change between queries, not within one.
    Stable,
    /// The result may change on every call.
    Volatile,
}

/// Details necessary to create a guest scalar function.
#[derive(Clone, Debug)]
pub struct WasmUdfDetails {
    pub name: String,
    pub input_data_type: WasmInputDataType,
    pub input_types: Vec<DataType>,
    pub return_type: DataType,
}

impl WasmUdfDetails {
    pub fn new(
        name: String,
        input_types: Vec<DataType>,
        return_type: DataType,
        input_data_type: WasmInputDataType,
    ) -> (r: Self)
        ensures
            r.name == name,
            r.input_types == input_types,
            r.return_type == return_type,
            r.input_data_type == input_data_type,
    {
        WasmUdfDetails { name, input_data_type, input_types, return_type }
    }
}

/// A registered guest scalar function: its name, its signature and the
/// module that computes it. Only registration builds one.
#[derive(Debug)]
pub struct WasmUdf {
    name: String,
    input_types: Vec<DataType>,
    return_type: ValueType,
    module_bytes: Vec<u8>,
}

/// What a registered function is.
pub struct WasmUdfView {
    pub name: Seq<char>,
    pub input_types: Seq<DataType>,
    pub return_type: ValueType,
    pub module_bytes: Seq<u8>,
}

impl View for WasmUdf {
    type V = WasmUdfView;

    closed spec fn view(&self) -> WasmUdfView {
        WasmUdfView {
            name: self.name@,
            input_types: self.input_types@,
            return_type: self.return_type,
            module_bytes: self.module_bytes@,
        }
    }
}

/// The first type of `types` from index `k` on that is not one of the four
/// numeric types.
pub open spec fn first_unsupported(types: Seq<DataType>, k: int) -> Option<DataType>
    decreases types.len() - k,
{
    if k < 0 || k >= types.len() {
        None
    } else if types[k].spec_value_type() is None {
        Some(types[k])
    } else {
        first_unsupported(types, k + 1)
    }
}

/// The function the details describe, once the module is known good: only
/// the per-row convention is supported, and every declared type must be one
/// of the four numeric types, the inputs checked first, in order.
pub open spec fn created_udf(module_bytes: Seq<u8>, details: WasmUdfDetails) -> Result<
    WasmUdfView,
    WasmUdfError,
> {
    if details.input_data_type != WasmInputDataType::Row {
        Err(WasmUdfError::UnsupportedConvention)
    } else if first_unsupported(details.input_types@, 0) is Some {
        Err(WasmUdfError::UnsupportedType(first_unsupported(details.input_types@, 0)->Some_0))
    } else if details.return_type.spec_value_type() is None {
        Err(WasmUdfError::UnsupportedType(details.return_type))
    } else {
        Ok(
            WasmUdfView {
                name: details.name@,
                input_types: details.input_types@,
                return_type: details.return_type.spec_value_type()->Some_0,
                module_bytes,
            },
        )
    }
}

/// The outcome of registration, given what loading the module showed.
pub open spec fn registration_result(
    module_bytes: Seq<u8>,
    details: WasmUdfDetails,
    check: ModuleCheck,
) -> Result<WasmUdfView, WasmUdfError> {
    match check {
        ModuleCheck::Unloadable => Err(WasmUdfError::ModuleLoad),
        ModuleCheck::NotInstantiable(m) => Err(WasmUdfError::Instantiation(m)),
        ModuleCheck::ExportMissing => Err(WasmUdfError::MissingExport(details.name)),
        ModuleCheck::ExportFound => created_udf(module_bytes, details),
    }
}

/// The view of a registration result.
pub open spec fn udf_view(r: Result<WasmUdf, WasmUdfError>) -> Result<WasmUdfView, WasmUdfError> {
    match r {
        Ok(u) => Ok(u@),
        Err(e) => Err(e),
    }
}

/// The function the details describe, for a module already known to load,
/// instantiate and export the name.
pub fn create_wasm_udf(module_bytes: &[u8], udf_details: WasmUdfDetails) -> (r: Result<
    WasmUdf,
    WasmUdfError,
>)
    ensures
        udf_view(r) == created_udf(module_bytes@, udf_details),
{
    match udf_details.input_data_type {
        WasmInputDataType::Row => {},
        _ => {
            return Err(WasmUdfError::UnsupportedConvention);
        },
    }
    let input_types = &udf_details.input_types;
    let mut k: usize = 0;
    while k < input_types.len()
        invariant
            k <= input_types@.len(),
            input_types@ == udf_details.input_types@,
            udf_details.input_data_type == WasmInputDataType::Row,
            first_unsupported(input_types@, 0) == first_unsupported(input_types@, k as int),
        decreases input_types@.len() - k,
    {
        if input_types[k].value_type().is_none() {
            assert(first_unsupported(input_types@, k as int) == Some(input_types@[k as int]));
            return Err(WasmUdfError::UnsupportedType(input_types[k]));
        }
        k = k + 1;
    }
    assert(first_unsupported(input_types@, k as int) is None);
    let return_type = match udf_details.return_type.value_type() {
        Some(t) => t,
        None => {
            return Err(WasmUdfError::UnsupportedType(udf_details.return_type));
        },
    };
    let mut bytes: Vec<u8> = Vec::with_capacity(module_bytes.len());
    let mut i: usize = 0;
    while i < module_bytes.len()
        invariant
            i <= module_bytes@.len(),
            bytes@ == module_bytes@.subrange(0, i as int),
        decreases module_bytes@.len() - i,
    {
        bytes.push(module_bytes[i]);
        i = i + 1;
    }
    assert(bytes@ =~= module_bytes@);
    Ok(
        WasmUdf {
            name: udf_details.name,
            input_types: udf_details.input_types,
            return_type,
            module_bytes: bytes,
        },
    )
}

/// Completes a registration from what loading the module showed: a function
/// only where the module loaded, instantiated and exports the name, and the
/// signature is supported.
pub fn finish_registration(module_bytes: &[u8], udf_details: WasmUdfDetails, check: ModuleCheck) -> (r:
    Result<WasmUdf, WasmUdfError>)
    ensures
        udf_view(r) == registration_result(module_bytes@, udf_details, check),
{
    match check {
        ModuleCheck::Unloadable => Err(WasmUdfError::ModuleLoad),
        ModuleCheck::NotInstantiable(m) => Err(WasmUdfError::Instantiation(m)),
        ModuleCheck::ExportMissing => Err(WasmUdfError::MissingExport(udf_details.name)),
        ModuleCheck::ExportFound => create_wasm_udf(module_bytes, udf_details),
    }
}

/// Attempts to create a scalar function from the module bytes, in the binary
/// or the text format, and the function's details (name and signature).
///
/// The module is compiled and instantiated, and its export looked up, before
/// anything is returned: a module that cannot serve the function yields an
/// error, never a function.
pub fn try_create_wasm_udf(module_bytes: &[u8], udf_details: WasmUdfDetails) -> (r: Result<
    WasmUdf,
    WasmUdfError,
>)
    ensures
        exists|check: ModuleCheck|
            udf_view(r) == #[trigger] registration_result(module_bytes@, udf_details, check),
{
    let check = check_module(module_bytes, udf_details.name.as_str());
    finish_registration(module_bytes, udf_details, check)
}

/// Registration is all or nothing: it yields a function only where the
/// module exports the declared name, and a module that lacks it yields the
/// missing-export error naming it.
pub proof fn lemma_registration_all_or_nothing(
    module_bytes: Seq<u8>,
    details: WasmUdfDetails,
    check: ModuleCheck,
)
    ensures
        registration_result(module_bytes, details, check) is Ok ==> check == ModuleCheck::ExportFound,
        registration_result(module_bytes, details, ModuleCheck::ExportMissing) == Err::<
            WasmUdfView,
            WasmUdfError,
        >(WasmUdfError::MissingExport(details.name)),
{
}

impl WasmUdf {
    /// The function's name.
    pub fn name(&self) -> (r: &String)
        ensures
            r@ == self@.name,
    {
        &self.name
    }

    /// The declared argument types.
    pub fn input_types(&self) -> (r: &Vec<DataType>)
        ensures
            r@ == self@.input_types,
    {
        &self.input_types
    }

    /// The declared return type.
    pub fn return_type(&self) -> (r: ValueType)
        ensures
            r == self@.return_type,
    {
        self.return_type
    }

    /// A guest function is pure: each call runs in a sandbox of its own with
    /// no imports, so no state survives from one call to the next.
    pub fn volatility(&self) -> (r: Volatility)
        ensures
            r == Volatility::Immutable,
    {
        Volatility::Immutable
    }

    /// Evaluates the function on a batch of `number_rows` rows, one column per
    /// declared argument, with the per-row convention.
    pub fn invoke(&self, args: &Vec<Column>, number_rows: usize) -> (r: Result<Column, WasmUdfError>)
        ensures
            exists|answers: Seq<GuestAnswer>|
                answers.len() <= number_rows && outcome_view(r) == #[trigger] batch_result(
                    self@.input_types,
                    self@.return_type,
                    views(args@),
                    number_rows as nat,
                    answers,
                ),
            r is Err ==> !is_missing_answer(r->Err_0),
            r is Ok ==> {
                let c = r->Ok_0@;
                &&& c.cells.len() == number_rows
                &&& c.data_type == self@.return_type.spec_data_type()
                &&& forall|i: int| 0 <= i < number_rows ==> (#[trigger] c.cells[i]) is Some
            },
    {
        let r = invoke_rows(
            self.module_bytes.as_slice(),
            self.name.as_str(),
            &self.input_types,
            self.return_type,
            args,
            number_rows,
        );
        proof {
            let answers = choose|answers: Seq<GuestAnswer>|
                answers.len() <= number_rows && outcome_view(r) == #[trigger] batch_result(
                    self.input_types@,
                    self.return_type,
                    views(args@),
                    number_rows as nat,
                    answers,
                );
            assert(batch_result(
                self@.input_types,
                self@.return_type,
                views(args@),
                number_rows as nat,
                answers,
            ) == outcome_view(r));
        }
        r
    }
}

} // verus!
