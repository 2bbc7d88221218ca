//! The sandbox: wasmtime, reached through a few trusted wrappers, and the
//! verified routine that runs one guest call in a fresh instance.
//!
//! The guest is instantiated with no imports at all, so it cannot call back
//! into the host, perform I/O or reach host memory.
use vstd::prelude::*;

use crate::types::{GuestValue, ValueType};

verus! {

#[verifier::external_type_specification]
#[verifier::external_body]
pub struct ExEngine(wasmtime::Engine);

#[verifier::external_type_specification]
#[verifier::external_body]
#[verifier::reject_recursive_types(T)]
pub struct ExStore<T: 'static>(wasmtime::Store<T>);

#[verifier::external_type_specification]
#[verifier::external_body]
pub struct ExModule(wasmtime::Module);

#[verifier::external_type_specification]
#[verifier::external_body]
pub struct ExVal(wasmtime::Val);

#[verifier::external_type_specification]
#[verifier::external_body]
pub struct ExError(wasmtime::Error);

/// Relies on `wasmtime::Engine::new` with the default `Config`: an engine
/// for this host, or the reason the configuration was refused.
#[verifier::external_body]
fn new_engine() -> (r: Result<wasmtime::Engine, wasmtime::Error>) {
    wasmtime::Engine::new(&wasmtime::Config::new())
}

/// Relies on `wasmtime::Store::new`: a fresh store that owns no instance,
/// memory or table yet.
#[verifier::external_body]
fn new_store(engine: &wasmtime::Engine) -> (r: wasmtime::Store<()>) {
    wasmtime::Store::new(engine, ())
}

/// Relies on `wasmtime::Module::new`: the bytes are parsed as the binary or
/// the text format, validated and compiled; an error where they are neither.
#[verifier::external_body]
fn compile_module(engine: &wasmtime::Engine, bytes: &[u8]) -> (r: Result<
    wasmtime::Module,
    wasmtime::Error,
>) {
    wasmtime::Module::new(engine, bytes)
}

/// A store together with the instance that was made in it. Only
/// `instantiate` builds one, so the instance is never used with another
/// store.
#[verifier::external_body]
struct GuestInstance {
    store: wasmtime::Store<()>,
    instance: wasmtime::Instance,
}

/// A store together with a function exported by an instance made in it.
/// Only `GuestInstance::into_export` builds one, so the function is never
/// called with another store.
#[verifier::external_body]
struct GuestFunction {
    store: wasmtime::Store<()>,
    func: wasmtime::Func,
}

/// Relies on `wasmtime::Instance::new` with an empty import list: an error
/// where the module imports anything, or where its start function traps.
/// The store is kept with the instance made in it.
#[verifier::external_body]
fn instantiate(store: wasmtime::Store<()>, module: &wasmtime::Module) -> (r: Result<
    GuestInstance,
    wasmtime::Error,
>) {
    let mut store = store;
    let instance = wasmtime::Instance::new(&mut store, module, &[])?;
    Ok(GuestInstance { store, instance })
}

impl GuestInstance {
    /// Relies on `wasmtime::Instance::get_func`, called with the instance's
    /// own store: the function exported under exactly `name`, kept with that
    /// store, or `None`.
    #[verifier::external_body]
    fn into_export(self, name: &str) -> (r: Option<GuestFunction>) {
        let GuestInstance { mut store, instance } = self;
        match instance.get_func(&mut store, name) {
            Some(func) => Some(GuestFunction { store, func }),
            None => None,
        }
    }
}

impl GuestFunction {
    /// Relies on `wasmtime::Func::call`, called with the function's own
    /// store: the parameters and the result slots are checked against the
    /// function's type (an error on a mismatch), the function runs (an error
    /// on a trap), and its results overwrite the slots, whose number does not
    /// change.
    #[verifier::external_body]
    fn call(&mut self, params: &Vec<wasmtime::Val>, results: &mut Vec<wasmtime::Val>) -> (r: Result<
        (),
        wasmtime::Error,
    >)
        ensures
            final(results)@.len() == old(results)@.len(),
    {
        self.func.call(&mut self.store, params.as_slice(), results.as_mut_slice())
    }
}

/// Relies on `wasmtime::Val`'s numeric variants: the value that carries `v`,
/// floats by their bits.
#[verifier::external_body]
fn to_wasm_value(v: GuestValue) -> (r: wasmtime::Val) {
    match v {
        GuestValue::I32(x) => wasmtime::Val::I32(x),
        GuestValue::I64(x) => wasmtime::Val::I64(x),
        GuestValue::F32(x) => wasmtime::Val::F32(x),
        GuestValue::F64(x) => wasmtime::Val::F64(x),
    }
}

/// Relies on `wasmtime::Val`'s numeric variants: the value carried, or
/// `None` for a vector or a reference.
#[verifier::external_body]
fn from_wasm_value(v: &wasmtime::Val) -> (r: Option<GuestValue>) {
    match v {
        wasmtime::Val::I32(x) => Some(GuestValue::I32(*x)),
        wasmtime::Val::I64(x) => Some(GuestValue::I64(*x)),
        wasmtime::Val::F32(x) => Some(GuestValue::F32(*x)),
        wasmtime::Val::F64(x) => Some(GuestValue::F64(*x)),
        _ => None,
    }
}

/// Relies on `Display` for `wasmtime::Error`: a description of the failure.
#[verifier::external_body]
fn error_message(e: &wasmtime::Error) -> (r: String) {
    e.to_string()
}

/// What came of one call into the guest.
#[derive(Clone, Debug, PartialEq, Eq)]
pub enum GuestAnswer {
    /// The call returned this value.
    Value(GuestValue),
    /// The call returned a value that is neither an integer nor a float.
    OtherValue,
    /// The call failed while running: a trap or a signature mismatch.
    Trap(String),
    /// The engine, the module or the instance could not be built.
    Setup(String),
    /// The instance exports no function under the name.
    NoExport,
}

/// What came of loading a module and looking for its export.
#[derive(Clone, Debug, PartialEq, Eq)]
pub enum ModuleCheck {
    /// The bytes are not a module, or no engine could be built for them.
    Unloadable,
    /// The module could not be instantiated without imports.
    NotInstantiable(String),
    /// The instance exports no function under the name.
    ExportMissing,
    /// The instance exports a function under the name.
    ExportFound,
}

/// Compiles the module, instantiates it with no imports and looks up the
/// exported function `name`, reporting the first step that fails.
pub fn check_module(module_bytes: &[u8], name: &str) -> (r: ModuleCheck) {
    let engine = match new_engine() {
        Ok(e) => e,
        Err(_) => {
            return ModuleCheck::Unloadable;
        },
    };
    let module = match compile_module(&engine, module_bytes) {
        Ok(m) => m,
        Err(_) => {
            return ModuleCheck::Unloadable;
        },
    };
    let instance = match instantiate(new_store(&engine), &module) {
        Ok(i) => i,
        Err(e) => {
            return ModuleCheck::NotInstantiable(error_message(&e));
        },
    };
    match instance.into_export(name) {
        Some(_) => ModuleCheck::ExportFound,
        None => ModuleCheck::ExportMissing,
    }
}

/// Calls the exported function `name` once, with `params`, in a sandbox built
/// for this call alone: a fresh engine, store, compiled module and instance,
/// all dropped when the call returns.
pub fn run_guest(module_bytes: &[u8], name: &str, params: &Vec<GuestValue>, return_type: ValueType) -> (r:
    GuestAnswer) {
    let engine = match new_engine() {
        Ok(e) => e,
        Err(e) => {
            return GuestAnswer::Setup(error_message(&e));
        },
    };
    let module = match compile_module(&engine, module_bytes) {
        Ok(m) => m,
        Err(e) => {
            return GuestAnswer::Setup(error_message(&e));
        },
    };
    let instance = match instantiate(new_store(&engine), &module) {
        Ok(i) => i,
        Err(e) => {
            return GuestAnswer::Setup(error_message(&e));
        },
    };
    let mut func = match instance.into_export(name) {
        Some(f) => f,
        None => {
            return GuestAnswer::NoExport;
        },
    };
    let mut args: Vec<wasmtime::Val> = Vec::with_capacity(params.len());
    let mut k: usize = 0;
    while k < params.len()
        decreases params.len() - k,
    {
        args.push(to_wasm_value(params[k]));
        k = k + 1;
    }
    let mut results: Vec<wasmtime::Val> = vec![to_wasm_value(GuestValue::zero(return_type))];
    match func.call(&args, &mut results) {
        Err(e) => GuestAnswer::Trap(error_message(&e)),
        Ok(()) => match from_wasm_value(&results[0]) {
            Some(v) => GuestAnswer::Value(v),
            None => GuestAnswer::OtherValue,
        },
    }
}

} // verus!
