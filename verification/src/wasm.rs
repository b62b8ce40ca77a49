//! One run of a guest module: the instance that serves a request, and the
//! handler that makes a fresh instance for each request.

use crate::abi::{ChannelHandle, ExtensionHandle};
use crate::channel::{spec_capacity, ChannelSwitchboard, UWABI_CHANNEL_BOUND};
use crate::engine::{
    call_function, define_channel_read, define_channel_write, define_invoke,
    define_read_request, define_write_log_message, define_write_response, error_text,
    export_func, export_kind, export_params, export_results, import_count, import_names,
    import_params, import_results, instantiate, new_linker, new_store, parse_module,
    spec_definitions, spec_export_kind, spec_instantiates, spec_export_params, spec_export_results, spec_exports,
    spec_imports, spec_instance_of, spec_instance_source, spec_is_module, spec_kind_in,
    spec_kinds, spec_params_in, spec_results_in, spec_source, spec_store_state, store_data,
    store_data_mut, value_type, ExportKind, ExportView, ImportView, ValueType, HOST_MODULE,
};
use crate::extension::{
    BoxedExtension, ExtensionError, ExtensionFactory, ExtensionKind, OakApiNativeExtension,
    UwabiExtension,
};
use crate::logger::{Level, OakLogger};
use crate::policy::{InvocationOutcome, OutcomeView, Response, StatusCode, spec_create};
use crate::state::{spec_no_codes, spec_registered, ExtensionTable, UserState};
use std::sync::Arc;
use vstd::prelude::*;
use vstd::slice::*;
use vstd::string::*;

verus! {

/// The name of the export that the host calls to run the guest.
pub const MAIN_FUNCTION_NAME: &'static str = "main";

/// The name of the export that the host calls to obtain memory of the guest.
pub const ALLOC_FUNCTION_NAME: &'static str = "alloc";

/// The name of the linear memory that the guest exports.
pub const MEMORY_NAME: &'static str = "memory";

/// A request: the bytes that the client sent.
#[derive(Clone, Debug, PartialEq, Eq)]
pub struct Request {
    pub body: Vec<u8>,
}

/// The values that a function takes and returns.
#[derive(Clone, Debug)]
pub struct Signature {
    pub params: Vec<ValueType>,
    pub results: Vec<ValueType>,
}

/// What is wrong with an export of the guest.
#[derive(Clone, Copy, Debug, PartialEq, Eq, Structural)]
pub enum ExportError {
    /// The guest exports nothing under the name.
    NotFound,
    /// The export is no function.
    NotAFunction,
    /// The function takes or returns other values than it should.
    InvalidSignature,
    /// The export is no linear memory.
    NotAMemory,
}

/// What is wrong with an import of the guest.
#[derive(Clone, Copy, Debug, PartialEq, Eq, Structural)]
pub enum ImportError {
    /// The import is from another module than that of the host functions.
    UnknownModule,
    /// The host has no function of that name.
    NotFound,
    /// The import is no function.
    NotAFunction,
    /// The function takes or returns other values than the host function does.
    SignatureMismatch,
}

/// Why a request could not be served by the guest.
#[derive(Clone, Debug)]
pub enum WasmError {
    /// The bytes of the module are malformed.
    ModuleLoad(String),
    /// A host function could not be bound.
    HostBinding,
    /// The module imports what the host does not offer. The name is that of
    /// the import.
    Import(String, ImportError),
    /// The module could not be instantiated: it has a start function, or the
    /// engine turned it down.
    Instantiation(String),
    /// The `main` export is missing or mistyped.
    MainExport(ExportError),
    /// The `alloc` export is missing or mistyped.
    AllocExport(ExportError),
    /// The `memory` export is missing or no memory.
    MemoryExport(ExportError),
    /// The guest trapped, or `main` could not be run to its end for another
    /// reason. The text is the engine's.
    Trap(String),
    /// An extension could not be created or terminated.
    Extension(ExtensionError),
}

/// The signature of `main`: no parameters, no results.
pub open spec fn spec_main_signature() -> (Seq<ValueType>, Seq<ValueType>) {
    (Seq::empty(), Seq::empty())
}

/// The signature of `alloc`: one 32-bit integer in, one out.
pub open spec fn spec_alloc_signature() -> (Seq<ValueType>, Seq<ValueType>) {
    (seq![ValueType::I32], seq![ValueType::I32])
}

impl Signature {
    pub open spec fn view(&self) -> (Seq<ValueType>, Seq<ValueType>) {
        (self.params@, self.results@)
    }

    /// The signature that `main` is to have.
    pub fn of_main() -> (signature: Signature)
        ensures
            signature@ == spec_main_signature(),
    {
        Signature { params: Vec::new(), results: Vec::new() }
    }

    /// The signature that `alloc` is to have.
    pub fn of_alloc() -> (signature: Signature)
        ensures
            signature@ == spec_alloc_signature(),
    {
        let mut params: Vec<ValueType> = Vec::new();
        params.push(ValueType::I32);
        let mut results: Vec<ValueType> = Vec::new();
        results.push(ValueType::I32);
        let signature = Signature { params, results };
        assert(signature.params@ =~= seq![ValueType::I32]);
        assert(signature.results@ =~= seq![ValueType::I32]);
        signature
    }
}

/// `count` 32-bit integers.
pub open spec fn spec_i32s(count: nat) -> Seq<ValueType> {
    Seq::new(count, |i: int| ValueType::I32)
}

/// The host functions by name: what each takes and returns. All their
/// arguments are 32-bit integers, and each returns its status as one.
pub open spec fn spec_host_function(name: Seq<char>) -> Option<(Seq<ValueType>, Seq<ValueType>)> {
    if name == "read_request"@ {
        // dest_ptr_ptr, dest_len_ptr
        Some((spec_i32s(2), spec_i32s(1)))
    } else if name == "write_response"@ {
        // buf_ptr, buf_len
        Some((spec_i32s(2), spec_i32s(1)))
    } else if name == "write_log_message"@ {
        // buf_ptr, buf_len
        Some((spec_i32s(2), spec_i32s(1)))
    } else if name == "invoke"@ {
        // handle, request_ptr, request_len, response_ptr_ptr, response_len_ptr
        Some((spec_i32s(5), spec_i32s(1)))
    } else if name == "channel_read"@ {
        // channel_handle, dest_ptr_ptr, dest_len_ptr
        Some((spec_i32s(3), spec_i32s(1)))
    } else if name == "channel_write"@ {
        // channel_handle, src_buf_ptr, src_buf_len
        Some((spec_i32s(3), spec_i32s(1)))
    } else {
        None
    }
}

fn i32s(count: usize) -> (types: Vec<ValueType>)
    ensures
        types@ == spec_i32s(count as nat),
{
    let mut types: Vec<ValueType> = Vec::new();
    let mut i: usize = 0;
    while i < count
        invariant
            i <= count,
            types@ == spec_i32s(i as nat),
        decreases count - i,
    {
        types.push(ValueType::I32);
        i = i + 1;
        assert(types@ =~= spec_i32s(i as nat));
    }
    types
}

fn same_text(left: &str, right: &str) -> (same: bool)
    ensures
        same == (left@ == right@),
{
    String::from_str(left) == String::from_str(right)
}

/// Maps the name of a host function to its signature.
pub fn oak_functions_resolve_func(field_name: &str) -> (resolved: Option<Signature>)
    ensures
        match spec_host_function(field_name@) {
            Some(signature) => resolved matches Some(found) && found@ == signature,
            None => resolved is None,
        },
{
    if same_text(field_name, "read_request") {
        Some(Signature { params: i32s(2), results: i32s(1) })
    } else if same_text(field_name, "write_response") {
        Some(Signature { params: i32s(2), results: i32s(1) })
    } else if same_text(field_name, "write_log_message") {
        Some(Signature { params: i32s(2), results: i32s(1) })
    } else if same_text(field_name, "invoke") {
        Some(Signature { params: i32s(5), results: i32s(1) })
    } else if same_text(field_name, "channel_read") {
        Some(Signature { params: i32s(3), results: i32s(1) })
    } else if same_text(field_name, "channel_write") {
        Some(Signature { params: i32s(3), results: i32s(1) })
    } else {
        None
    }
}

/// What the host says to an import: it is to come from the module of the host
/// functions, to name one of them, and to be a function with the signature of
/// that host function.
pub open spec fn spec_resolve_func(
    module_name: Seq<char>,
    field_name: Seq<char>,
    signature: Option<(Seq<ValueType>, Seq<ValueType>)>,
) -> Result<(), ImportError> {
    if module_name != HOST_MODULE@ {
        Err(ImportError::UnknownModule)
    } else {
        match spec_host_function(field_name) {
            None => Err(ImportError::NotFound),
            Some(expected) => match signature {
                None => Err(ImportError::NotAFunction),
                Some(found) => if found == expected {
                    Ok(())
                } else {
                    Err(ImportError::SignatureMismatch)
                },
            },
        }
    }
}

/// Resolves an import of the guest against the host functions. `signature` is
/// that of the import where it is a function.
pub fn resolve_func(module_name: &str, field_name: &str, signature: Option<&Signature>) -> (resolved:
    Result<(), ImportError>)
    ensures
        resolved == spec_resolve_func(
            module_name@,
            field_name@,
            match signature {
                Some(found) => Some(found@),
                None => None,
            },
        ),
{
    if !same_text(module_name, HOST_MODULE) {
        return Err(ImportError::UnknownModule);
    }
    match oak_functions_resolve_func(field_name) {
        None => Err(ImportError::NotFound),
        Some(expected) => match signature {
            None => Err(ImportError::NotAFunction),
            Some(found) => {
                if same_types(&found.params, &expected.params) && same_types(
                    &found.results,
                    &expected.results,
                ) {
                    Ok(())
                } else {
                    Err(ImportError::SignatureMismatch)
                }
            },
        },
    }
}

/// Whether two lists of value types are the same.
pub fn same_types(left: &Vec<ValueType>, right: &Vec<ValueType>) -> (same: bool)
    ensures
        same == (left@ == right@),
{
    if left.len() != right.len() {
        return false;
    }
    let mut i: usize = 0;
    while i < left.len()
        invariant
            i <= left@.len(),
            left@.len() == right@.len(),
            left@.take(i as int) == right@.take(i as int),
        decreases left@.len() - i,
    {
        if left[i] != right[i] {
            assert(left@[i as int] != right@[i as int]);
            return false;
        }
        assert(left@.take(i + 1) =~= left@.take(i as int).push(left@[i as int]));
        assert(right@.take(i + 1) =~= right@.take(i as int).push(right@[i as int]));
        i = i + 1;
    }
    assert(left@.take(i as int) =~= left@);
    assert(right@.take(i as int) =~= right@);
    true
}

/// What the check of a function export says, given what was found under the
/// name and, for a function, its signature.
pub open spec fn spec_check_export(
    kind: Option<ExportKind>,
    found: Option<(Seq<ValueType>, Seq<ValueType>)>,
    expected: (Seq<ValueType>, Seq<ValueType>),
) -> Result<(), ExportError> {
    match kind {
        None => Err(ExportError::NotFound),
        Some(ExportKind::Function) => match found {
            Some(signature) => if signature == expected {
                Ok(())
            } else {
                Err(ExportError::InvalidSignature)
            },
            None => Err(ExportError::NotAFunction),
        },
        Some(_) => Err(ExportError::NotAFunction),
    }
}

/// Checks what a guest exports under the name of a function: it is to be a
/// function with the expected signature.
pub fn check_export(kind: Option<ExportKind>, found: Option<&Signature>, expected: &Signature) -> (checked:
    Result<(), ExportError>)
    ensures
        checked == spec_check_export(
            kind,
            match found {
                Some(signature) => Some(signature@),
                None => None,
            },
            expected@,
        ),
{
    match kind {
        None => Err(ExportError::NotFound),
        Some(ExportKind::Function) => match found {
            Some(signature) => {
                if same_types(&signature.params, &expected.params) && same_types(
                    &signature.results,
                    &expected.results,
                ) {
                    Ok(())
                } else {
                    Err(ExportError::InvalidSignature)
                }
            },
            None => Err(ExportError::NotAFunction),
        },
        Some(_) => Err(ExportError::NotAFunction),
    }
}

/// What the check of the memory export says, given what was found under its
/// name.
pub open spec fn spec_check_memory(kind: Option<ExportKind>) -> Result<(), ExportError> {
    match kind {
        None => Err(ExportError::NotFound),
        Some(ExportKind::Memory) => Ok(()),
        Some(_) => Err(ExportError::NotAMemory),
    }
}

/// Checks what a guest exports under the name of its memory: it is to be a
/// linear memory.
pub fn check_memory(kind: Option<ExportKind>) -> (checked: Result<(), ExportError>)
    ensures
        checked == spec_check_memory(kind),
{
    match kind {
        None => Err(ExportError::NotFound),
        Some(ExportKind::Memory) => Ok(()),
        Some(_) => Err(ExportError::NotAMemory),
    }
}

fn value_types(types: &Vec<wasmi::core::ValType>) -> (kinds: Vec<ValueType>)
    ensures
        kinds@ == spec_kinds(types@),
{
    let mut kinds: Vec<ValueType> = Vec::new();
    let mut i: usize = 0;
    while i < types.len()
        invariant
            i <= types@.len(),
            kinds@ == spec_kinds(types@.take(i as int)),
        decreases types@.len() - i,
    {
        kinds.push(value_type(&types[i]));
        i = i + 1;
        assert(kinds@ =~= spec_kinds(types@.take(i as int)));
    }
    assert(types@.take(i as int) =~= types@);
    kinds
}

/// The signature of a function, given what it takes and what it returns, where
/// both are known.
pub open spec fn spec_signature_of(
    params: Option<Seq<ValueType>>,
    results: Option<Seq<ValueType>>,
) -> Option<(Seq<ValueType>, Seq<ValueType>)> {
    match (params, results) {
        (Some(taken), Some(returned)) => Some((taken, returned)),
        _ => None,
    }
}

fn signature_of(params: Option<Vec<wasmi::core::ValType>>, results: Option<
    Vec<wasmi::core::ValType>,
>) -> (signature: Option<Signature>)
    ensures
        match spec_signature_of(
            match params {
                Some(types) => Some(spec_kinds(types@)),
                None => None,
            },
            match results {
                Some(types) => Some(spec_kinds(types@)),
                None => None,
            },
        ) {
            Some(expected) => signature matches Some(found) && found@ == expected,
            None => signature is None,
        },
{
    match params {
        Some(taken) => match results {
            Some(returned) => Some(
                Signature { params: value_types(&taken), results: value_types(&returned) },
            ),
            None => None,
        },
        None => None,
    }
}

/// What the host says to an import of a module.
pub open spec fn spec_resolve_import(import: ImportView) -> Result<(), ImportError> {
    spec_resolve_func(
        import.module_name,
        import.field_name,
        spec_signature_of(import.params, import.results),
    )
}

/// What the check of the imports of a module says: the name of the first
/// import that the host does not offer, with what is wrong with it, or success
/// where the host offers them all.
pub open spec fn spec_check_imports(imports: Seq<ImportView>) -> Result<
    (),
    (Seq<char>, ImportError),
>
    decreases imports.len(),
{
    if imports.len() == 0 {
        Ok(())
    } else {
        match spec_check_imports(imports.drop_last()) {
            Err(failure) => Err(failure),
            Ok(()) => match spec_resolve_import(imports.last()) {
                Ok(()) => Ok(()),
                Err(error) => Err((imports.last().field_name, error)),
            },
        }
    }
}

/// A failure among the first imports of a module is the failure of the whole
/// check.
pub proof fn lemma_first_failure_stays(imports: Seq<ImportView>, checked: int)
    requires
        0 <= checked <= imports.len(),
        spec_check_imports(imports.take(checked)) is Err,
    ensures
        spec_check_imports(imports) == spec_check_imports(imports.take(checked)),
    decreases imports.len() - checked,
{
    if checked == imports.len() {
        assert(imports.take(checked) =~= imports);
    } else {
        assert(imports.take(checked + 1).drop_last() =~= imports.take(checked));
        lemma_first_failure_stays(imports, checked + 1);
    }
}

/// Resolves every import of a module against the host functions. The first
/// import that the host does not offer ends the check with its name and with
/// what is wrong with it.
pub fn check_imports(module: &wasmi::Module) -> (checked: Result<(), (String, ImportError)>)
    ensures
        match spec_check_imports(spec_imports(spec_source(*module))) {
            Ok(()) => checked is Ok,
            Err((name, error)) => checked matches Err((found, reason)) && found@ == name
                && reason == error,
        },
{
    let ghost imports = spec_imports(spec_source(*module));
    let count = import_count(module);
    let mut index: usize = 0;
    while index < count
        invariant
            index <= count,
            count == imports.len(),
            imports == spec_imports(spec_source(*module)),
            spec_check_imports(imports.take(index as int)) is Ok,
        decreases count - index,
    {
        let names = import_names(module, index);
        let signature = signature_of(import_params(module, index), import_results(module, index));
        proof {
            assert(imports.take(index + 1).drop_last() =~= imports.take(index as int));
            assert(imports.take(index + 1).last() == imports[index as int]);
        }
        match names {
            Some((module_name, field_name)) => {
                let resolved = match &signature {
                    Some(found) => resolve_func(
                        module_name.as_str(),
                        field_name.as_str(),
                        Some(found),
                    ),
                    None => resolve_func(module_name.as_str(), field_name.as_str(), None),
                };
                assert(resolved == spec_resolve_import(imports[index as int]));
                match resolved {
                    Ok(()) => {},
                    Err(error) => {
                        proof {
                            lemma_first_failure_stays(imports, index + 1);
                        }
                        return Err((field_name, error));
                    },
                }
            },
            None => {},
        }
        index = index + 1;
    }
    proof {
        assert(imports.take(index as int) =~= imports);
    }
    Ok(())
}

/// Checks that the instance exports a function under the given name and that
/// the function has the expected signature: a name without an export gives
/// `NotFound`, an export that is no function `NotAFunction`, a function that
/// takes or returns other values `InvalidSignature`.
pub fn check_export_func_type(
    instance: &wasmi::Instance,
    store: &wasmi::Store<UserState>,
    export_name: &str,
    expected: &Signature,
) -> (checked: Result<(), ExportError>)
    requires
        spec_instance_of(*store, *instance),
    ensures
        checked == spec_check_export(
            spec_export_kind(*store, *instance, export_name@),
            spec_signature_of(
                spec_export_params(*store, *instance, export_name@),
                spec_export_results(*store, *instance, export_name@),
            ),
            expected@,
        ),
{
    let kind = export_kind(instance, store, export_name);
    let signature = signature_of(
        export_params(instance, store, export_name),
        export_results(instance, store, export_name),
    );
    match &signature {
        Some(found) => check_export(kind, Some(found), expected),
        None => check_export(kind, None, expected),
    }
}

/// The names of the host functions differ from each other, so that each can be
/// bound once.
pub proof fn lemma_host_functions_differ()
    ensures
        "read_request"@ != "write_response"@,
        "read_request"@ != "write_log_message"@,
        "read_request"@ != "invoke"@,
        "read_request"@ != "channel_read"@,
        "read_request"@ != "channel_write"@,
        "write_response"@ != "write_log_message"@,
        "write_response"@ != "invoke"@,
        "write_response"@ != "channel_read"@,
        "write_response"@ != "channel_write"@,
        "write_log_message"@ != "invoke"@,
        "write_log_message"@ != "channel_read"@,
        "write_log_message"@ != "channel_write"@,
        "invoke"@ != "channel_read"@,
        "invoke"@ != "channel_write"@,
        "channel_read"@ != "channel_write"@,
{
    reveal_strlit("read_request");
    reveal_strlit("write_response");
    reveal_strlit("write_log_message");
    reveal_strlit("invoke");
    reveal_strlit("channel_read");
    reveal_strlit("channel_write");
    assert("read_request"@.len() == 12);
    assert("write_response"@.len() == 14);
    assert("write_log_message"@.len() == 17);
    assert("invoke"@.len() == 6);
    assert("channel_read"@.len() == 12);
    assert("channel_write"@.len() == 13);
    assert("read_request"@[0] == 'r');
    assert("channel_read"@[0] == 'c');
}

/// An export of a module that keeps the module from serving requests.
pub enum ExportFault {
    Main(ExportError),
    Alloc(ExportError),
    Memory(ExportError),
}

/// What the check of a function export of a module says.
pub open spec fn spec_check_function(
    exports: Map<Seq<char>, ExportView>,
    name: Seq<char>,
    expected: (Seq<ValueType>, Seq<ValueType>),
) -> Result<(), ExportError> {
    spec_check_export(
        spec_kind_in(exports, name),
        spec_signature_of(spec_params_in(exports, name), spec_results_in(exports, name)),
        expected,
    )
}

/// The first export of a module that keeps it from serving requests, if any:
/// `main` is to be a function from nothing to nothing, `alloc` a function from
/// a 32-bit integer to a 32-bit integer, and `memory` a linear memory.
pub open spec fn spec_export_fault(exports: Map<Seq<char>, ExportView>) -> Option<ExportFault> {
    match spec_check_function(exports, MAIN_FUNCTION_NAME@, spec_main_signature()) {
        Err(error) => Some(ExportFault::Main(error)),
        Ok(()) => match spec_check_function(exports, ALLOC_FUNCTION_NAME@, spec_alloc_signature()) {
            Err(error) => Some(ExportFault::Alloc(error)),
            Ok(()) => match spec_check_memory(spec_kind_in(exports, MEMORY_NAME@)) {
                Err(error) => Some(ExportFault::Memory(error)),
                Ok(()) => None,
            },
        },
    }
}

/// The names under which the host functions are bound.
pub open spec fn spec_host_names() -> Set<Seq<char>> {
    Set::<Seq<char>>::empty().insert("read_request"@).insert("write_response"@).insert(
        "write_log_message"@,
    ).insert("invoke"@).insert("channel_read"@).insert("channel_write"@)
}

/// Whether the engine instantiates a module with the host functions bound.
pub open spec fn spec_links_to_host(wasm: Seq<u8>) -> bool {
    spec_instantiates(wasm, spec_host_names(), usize::BITS as nat)
}

/// Whether a state can be made of module bytes: the engine takes them as a
/// module, the host offers every import, the engine instantiates the module,
/// and no export is faulty.
pub open spec fn spec_serves(wasm: Seq<u8>) -> bool {
    &&& spec_is_module(wasm)
    &&& spec_check_imports(spec_imports(wasm)) is Ok
    &&& spec_links_to_host(wasm)
    &&& spec_export_fault(spec_exports(wasm)) is None
}

/// What becomes of module bytes of which a state is to be made.
pub enum Verdict {
    /// A state is made.
    Serves,
    /// The engine does not take the bytes as a module.
    ModuleLoad,
    /// The host does not offer the import of this name, for this reason.
    Import(Seq<char>, ImportError),
    /// The engine does not instantiate the module.
    Instantiation,
    /// The `main` export is faulty.
    MainExport(ExportError),
    /// The `alloc` export is faulty.
    AllocExport(ExportError),
    /// The `memory` export is faulty.
    MemoryExport(ExportError),
}

/// What becomes of module bytes of which a state is to be made. The checks are
/// made in this order, and the first that fails decides: the bytes are to be a
/// module, the host is to offer every import, the engine is to instantiate
/// the module, and `main`, `alloc` and `memory` are to be exported as they
/// should.
pub open spec fn spec_verdict(wasm: Seq<u8>) -> Verdict {
    if !spec_is_module(wasm) {
        Verdict::ModuleLoad
    } else {
        match spec_check_imports(spec_imports(wasm)) {
            Err((name, error)) => Verdict::Import(name, error),
            Ok(()) => if !spec_links_to_host(wasm) {
                Verdict::Instantiation
            } else {
                match spec_export_fault(spec_exports(wasm)) {
                    Some(ExportFault::Main(error)) => Verdict::MainExport(error),
                    Some(ExportFault::Alloc(error)) => Verdict::AllocExport(error),
                    Some(ExportFault::Memory(error)) => Verdict::MemoryExport(error),
                    None => Verdict::Serves,
                }
            },
        }
    }
}

/// Whether an error is the one that a verdict asks for.
pub open spec fn spec_error_agrees(verdict: Verdict, error: WasmError) -> bool {
    match verdict {
        Verdict::Serves => false,
        Verdict::ModuleLoad => error is ModuleLoad,
        Verdict::Import(name, reason) => error matches WasmError::Import(found, why) && found@
            == name && why == reason,
        Verdict::Instantiation => error is Instantiation,
        Verdict::MainExport(reason) => error matches WasmError::MainExport(why) && why == reason,
        Verdict::AllocExport(reason) => error matches WasmError::AllocExport(why) && why
            == reason,
        Verdict::MemoryExport(reason) => error matches WasmError::MemoryExport(why) && why
            == reason,
    }
}

/// Whether an outcome is the one that a verdict asks for: success where the
/// module serves, else the error of the first check that fails.
pub open spec fn spec_agrees<T>(verdict: Verdict, made: Result<T, WasmError>) -> bool {
    match made {
        Ok(_) => verdict is Serves,
        Err(error) => spec_error_agrees(verdict, error),
    }
}

/// A module serves exactly where no check fails.
pub proof fn lemma_serves_is_verdict(wasm: Seq<u8>)
    ensures
        spec_serves(wasm) <==> spec_verdict(wasm) is Serves,
{
}

/// The line that the log gets once `main` has ended.
pub open spec fn spec_completion_line(called: Result<(), String>) -> Seq<char> {
    "running Wasm module completed with result: "@ + match called {
        Ok(()) => "Ok(())"@,
        Err(text) => text@,
    }
}

/// Writes the line that the log gets once `main` has ended.
pub fn completion_line(called: &Result<(), String>) -> (line: String)
    ensures
        line@ == spec_completion_line(*called),
{
    let line = String::from_str("running Wasm module completed with result: ");
    match called {
        Ok(()) => line.concat("Ok(())"),
        Err(text) => line.concat(text.as_str()),
    }
}

/// What the end of `main` means for the request: a guest that ran to its end
/// has served, a guest that trapped has failed with the text of the trap.
pub open spec fn spec_main_outcome(called: Result<(), String>) -> Result<(), WasmError> {
    match called {
        Ok(()) => Ok(()),
        Err(text) => Err(WasmError::Trap(text)),
    }
}

/// Turns the way in which `main` ended into the outcome of the run: a trap is
/// an error of the request.
pub fn main_outcome(called: Result<(), String>) -> (ended: Result<(), WasmError>)
    ensures
        ended == spec_main_outcome(called),
{
    match called {
        Ok(()) => Ok(()),
        Err(text) => Err(WasmError::Trap(text)),
    }
}

/// The runtime values of one run of a guest, serving a single request.
pub struct WasmState {
    instance: wasmi::Instance,
    store: wasmi::Store<UserState>,
}

impl WasmState {
    /// Whether the instance lives in the store and has passed the check of its
    /// exports.
    pub closed spec fn well_formed(&self) -> bool {
        &&& spec_instance_of(self.store, self.instance)
        &&& spec_export_fault(spec_exports(spec_instance_source(self.store, self.instance)))
            is None
    }

    /// The state of the request.
    pub closed spec fn spec_state(&self) -> UserState {
        spec_store_state(self.store)
    }

    /// Loads the module, binds the host functions, instantiates the module
    /// without running any of its code, and checks its exports: `main` from
    /// nothing to nothing, `alloc` from a 32-bit integer to a 32-bit integer,
    /// and a linear memory named `memory`. A state is made exactly of the bytes
    /// that pass every check, and it is then the state given. Other bytes give
    /// the error of the first check that fails: `ModuleLoad` for bytes that the
    /// engine does not take as a module, `Import` for an import that the host
    /// does not offer, `Instantiation` for a module that the engine does not
    /// instantiate, and the error of the first faulty export. The host
    /// functions are always bound.
    pub fn new(
        wasm_module_bytes: &[u8],
        request_bytes: Vec<u8>,
        logger: Box<dyn OakLogger>,
        extensions: ExtensionTable,
        channel_switchboard: ChannelSwitchboard,
        uwabi_extensions: Vec<Box<dyn UwabiExtension>>,
    ) -> (made: Result<WasmState, WasmError>)
        ensures
            made matches Ok(wasm_state) ==> {
                &&& wasm_state.well_formed()
                &&& wasm_state.spec_state().spec_request_bytes() == request_bytes@
                &&& wasm_state.spec_state().spec_response_bytes() == Seq::<u8>::empty()
                &&& wasm_state.spec_state().spec_extension_handles() == extensions.spec_handles()
                &&& wasm_state.spec_state().spec_extension_codes() == spec_registered(extensions)
                &&& wasm_state.spec_state().spec_channel_handles()
                    == channel_switchboard.spec_handles()
            },
            made is Ok <==> spec_serves(wasm_module_bytes@),
            spec_agrees(spec_verdict(wasm_module_bytes@), made),
    {
        let state = UserState::init(
            request_bytes,
            extensions,
            channel_switchboard,
            uwabi_extensions,
            logger,
        );
        let module = match parse_module(wasm_module_bytes) {
            Ok(module) => module,
            Err(error) => {
                return Err(WasmError::ModuleLoad(error_text(&error)));
            },
        };
        match check_imports(&module) {
            Ok(()) => {},
            Err((name, error)) => {
                return Err(WasmError::Import(name, error));
            },
        }
        let mut store = new_store(&module, state);
        let mut linker = new_linker(&module);
        proof {
            lemma_host_functions_differ();
            lemma_serves_is_verdict(wasm_module_bytes@);
        }
        let read_request = define_read_request(&mut linker);
        let write_response = define_write_response(&mut linker);
        let write_log_message = define_write_log_message(&mut linker);
        let invoke = define_invoke(&mut linker);
        let channel_read = define_channel_read(&mut linker);
        let channel_write = define_channel_write(&mut linker);
        if !(read_request && write_response && write_log_message && invoke && channel_read
            && channel_write) {
            return Err(WasmError::HostBinding);
        }
        assert(spec_definitions(linker) =~= spec_host_names());
        let instance = match instantiate(&linker, &mut store, &module) {
            Ok(instance) => instance,
            Err(error) => {
                return Err(WasmError::Instantiation(error_text(&error)));
            },
        };
        match check_export_func_type(&instance, &store, MAIN_FUNCTION_NAME, &Signature::of_main()) {
            Ok(()) => {},
            Err(error) => {
                return Err(WasmError::MainExport(error));
            },
        }
        match check_export_func_type(&instance, &store, ALLOC_FUNCTION_NAME, &Signature::of_alloc()) {
            Ok(()) => {},
            Err(error) => {
                return Err(WasmError::AllocExport(error));
            },
        }
        match check_memory(export_kind(&instance, &store, MEMORY_NAME)) {
            Ok(()) => {},
            Err(error) => {
                return Err(WasmError::MemoryExport(error));
            },
        }
        Ok(WasmState { instance, store })
    }

    /// Runs `main` of the guest to its end or to its trap, logs how it ended, and
    /// hands that back: a guest that trapped gives `Trap`, and nothing else is
    /// an error here. The guest calls the host functions as it runs, so what
    /// becomes of the state of the request is the guest's matter. No limit is
    /// set on the guest: the call returns when `main` ends or traps, and not
    /// before. The instance stays in the store.
    pub fn invoke(&mut self) -> (ended: Result<(), WasmError>)
        requires
            old(self).well_formed(),
        ensures
            final(self).well_formed(),
            ended matches Err(error) ==> error is Trap,
    {
        let main = export_func(&self.instance, &self.store, MAIN_FUNCTION_NAME);
        let called: Result<(), String> = match main {
            Some(main) => match call_function(&main, &mut self.store) {
                Ok(()) => Ok(()),
                Err(error) => Err(error_text(&error)),
            },
            None => Err(String::from_str("no `main` export")),
        };
        store_data(&self.store).log_sensitive(Level::Info, completion_line(&called).as_str());
        main_outcome(called)
    }

    /// The bytes of the request.
    pub fn get_request_bytes(&self) -> (bytes: Vec<u8>)
        ensures
            bytes@ == self.spec_state().spec_request_bytes(),
    {
        slice_to_vec(store_data(&self.store).request_bytes())
    }

    /// The bytes of the response: what the guest wrote last, or nothing.
    pub fn get_response_bytes(&self) -> (bytes: Vec<u8>)
        ensures
            bytes@ == self.spec_state().spec_response_bytes(),
    {
        slice_to_vec(store_data(&self.store).response_bytes())
    }

    /// Terminates the native extensions of the request and drops them. A
    /// state that holds no native extension has nothing to terminate, and so
    /// no failure to report. The request, the response and the channels stay
    /// as they are.
    pub fn terminate_extensions(&mut self) -> (done: Result<(), ExtensionError>)
        ensures
            old(self).spec_state().spec_extension_codes() == spec_no_codes() ==> done is Ok,
            final(self).spec_state().spec_request_bytes() == old(
                self,
            ).spec_state().spec_request_bytes(),
            final(self).spec_state().spec_response_bytes() == old(
                self,
            ).spec_state().spec_response_bytes(),
            final(self).spec_state().spec_channel_handles() == old(
                self,
            ).spec_state().spec_channel_handles(),
            final(self).spec_state().spec_extension_handles() == Set::<ExtensionHandle>::empty(),
            final(self).spec_state().spec_extension_codes() == spec_no_codes(),
    {
        store_data_mut(&mut self.store).terminate_extensions()
    }

    /// Logs an error message, which may hold sensitive data.
    pub fn log_error(&self, message: &str) {
        store_data(&self.store).log_sensitive(Level::Error, message)
    }
}

/// What the log and the response say of a faulty export.
pub open spec fn spec_export_message(error: ExportError) -> Seq<char> {
    match error {
        ExportError::NotFound => "couldn't find Wasm export"@,
        ExportError::NotAFunction => "couldn't interpret Wasm export as function"@,
        ExportError::InvalidSignature => "invalid signature for export"@,
        ExportError::NotAMemory => "couldn't interpret Wasm export as memory"@,
    }
}

/// What the log and the response say of a faulty import.
pub open spec fn spec_import_message(error: ImportError) -> Seq<char> {
    match error {
        ImportError::UnknownModule => "is not imported from `oak_functions`"@,
        ImportError::NotFound => "not found"@,
        ImportError::NotAFunction => "is no function"@,
        ImportError::SignatureMismatch => "doesn't match expected signature"@,
    }
}

/// Writes what the log and the response say of a faulty import.
pub fn import_message(error: ImportError) -> (message: &'static str)
    ensures
        message@ == spec_import_message(error),
{
    match error {
        ImportError::UnknownModule => "is not imported from `oak_functions`",
        ImportError::NotFound => "not found",
        ImportError::NotAFunction => "is no function",
        ImportError::SignatureMismatch => "doesn't match expected signature",
    }
}

/// Writes what the log and the response say of a faulty export.
pub fn export_message(error: ExportError) -> (message: &'static str)
    ensures
        message@ == spec_export_message(error),
{
    match error {
        ExportError::NotFound => "couldn't find Wasm export",
        ExportError::NotAFunction => "couldn't interpret Wasm export as function",
        ExportError::InvalidSignature => "invalid signature for export",
        ExportError::NotAMemory => "couldn't interpret Wasm export as memory",
    }
}

impl WasmError {
    /// What the log and the response say of the error.
    pub open spec fn spec_message(&self) -> Seq<char> {
        match self {
            WasmError::ModuleLoad(text) => "couldn't load module from buffer: "@ + text@,
            WasmError::HostBinding => "couldn't bind the host functions"@,
            WasmError::Import(name, error) => "Export `"@ + name@ + "` "@ + spec_import_message(
                *error,
            ),
            WasmError::Instantiation(text) => "failed to instantiate Wasm module: "@ + text@,
            WasmError::MainExport(error) => "couldn't validate `main` export: "@
                + spec_export_message(*error),
            WasmError::AllocExport(error) => "couldn't validate `alloc` export: "@
                + spec_export_message(*error),
            WasmError::MemoryExport(error) => "couldn't validate `memory` export: "@
                + spec_export_message(*error),
            WasmError::Trap(text) => "running Wasm module failed: "@ + text@,
            WasmError::Extension(error) => error.message@,
        }
    }

    /// Writes what the log and the response say of the error.
    pub fn message(&self) -> (message: String)
        ensures
            message@ == self.spec_message(),
    {
        match self {
            WasmError::ModuleLoad(text) => String::from_str(
                "couldn't load module from buffer: ",
            ).concat(text.as_str()),
            WasmError::HostBinding => String::from_str("couldn't bind the host functions"),
            WasmError::Import(name, error) => String::from_str("Export `").concat(
                name.as_str(),
            ).concat("` ").concat(import_message(*error)),
            WasmError::Instantiation(text) => String::from_str(
                "failed to instantiate Wasm module: ",
            ).concat(text.as_str()),
            WasmError::MainExport(error) => String::from_str(
                "couldn't validate `main` export: ",
            ).concat(export_message(*error)),
            WasmError::AllocExport(error) => String::from_str(
                "couldn't validate `alloc` export: ",
            ).concat(export_message(*error)),
            WasmError::MemoryExport(error) => String::from_str(
                "couldn't validate `memory` export: ",
            ).concat(export_message(*error)),
            WasmError::Trap(text) => String::from_str("running Wasm module failed: ").concat(
                text.as_str(),
            ),
            WasmError::Extension(error) => error.message.clone(),
        }
    }
}

/// What the shaper is to make of a finished invocation: the response of a
/// successful one, the message of a failed one.
pub open spec fn spec_outcome_of(result: Result<Response, WasmError>) -> OutcomeView {
    match result {
        Ok(response) => OutcomeView::Completed(response@),
        Err(error) => OutcomeView::Failed(error.spec_message()),
    }
}

/// Turns the result of a finished invocation into what the shaper takes.
pub fn outcome_of(result: Result<Response, WasmError>) -> (outcome: InvocationOutcome)
    ensures
        outcome@ == spec_outcome_of(result),
{
    match result {
        Ok(response) => InvocationOutcome::Completed(response),
        Err(error) => InvocationOutcome::Failed(error.message()),
    }
}

/// What the extensions of each of the factories are made for, in the order of
/// the factories.
pub open spec fn spec_kinds_of(factories: Seq<Box<dyn ExtensionFactory>>) -> Seq<ExtensionKind> {
    Seq::new(factories.len(), |i: int| factories[i].spec_makes())
}

/// The extension handles that native extensions of the given kinds are made
/// for.
pub open spec fn spec_native_handles(kinds: Seq<ExtensionKind>) -> Set<ExtensionHandle> {
    Set::new(|handle: ExtensionHandle| kinds.contains(ExtensionKind::Native(handle)))
}

/// The channel handles that channel-based extensions of the given kinds are
/// made for.
pub open spec fn spec_uwabi_handles(kinds: Seq<ExtensionKind>) -> Set<ChannelHandle> {
    Set::new(|handle: ChannelHandle| kinds.contains(ExtensionKind::Uwabi(handle)))
}

/// The codes of the given extension handles.
pub open spec fn spec_codes_of(handles: Set<ExtensionHandle>) -> Set<int> {
    Set::new(
        |code: int|
            exists|handle: ExtensionHandle|
                handles.contains(handle) && #[trigger] handle.spec_code() == code,
    )
}

/// One more handle adds its code to the codes, and no handles have no codes.
pub proof fn lemma_one_more_code(handles: Set<ExtensionHandle>, handle: ExtensionHandle)
    ensures
        spec_codes_of(handles.insert(handle)) == spec_codes_of(handles).insert(handle.spec_code()),
        spec_codes_of(Set::empty()) == spec_no_codes(),
{
    assert forall|code: int|
        spec_codes_of(handles.insert(handle)).contains(code) <==> spec_codes_of(handles).insert(
            handle.spec_code(),
        ).contains(code) by {
        if spec_codes_of(handles.insert(handle)).contains(code) {
            let found = choose|found: ExtensionHandle|
                handles.insert(handle).contains(found) && #[trigger] found.spec_code() == code;
            if found != handle {
                assert(handles.contains(found));
            }
        }
        if spec_codes_of(handles).contains(code) {
            let found = choose|found: ExtensionHandle|
                handles.contains(found) && #[trigger] found.spec_code() == code;
            assert(handles.insert(handle).contains(found));
        }
        if code == handle.spec_code() {
            assert(handles.insert(handle).contains(handle));
        }
    }
    assert(spec_codes_of(handles.insert(handle)) =~= spec_codes_of(handles).insert(
        handle.spec_code(),
    ));
    assert(spec_codes_of(Set::empty()) =~= spec_no_codes());
}

/// Every kind has its handle among the handles of its sort, and no kinds have
/// no handles and no codes.
pub proof fn lemma_handles_of_kinds(kinds: Seq<ExtensionKind>)
    ensures
        forall|i: int|
            0 <= i < kinds.len() ==> match #[trigger] kinds[i] {
                ExtensionKind::Native(handle) => spec_native_handles(kinds).contains(handle),
                ExtensionKind::Uwabi(handle) => spec_uwabi_handles(kinds).contains(handle),
            },
        kinds.len() == 0 ==> spec_native_handles(kinds) == Set::<ExtensionHandle>::empty()
            && spec_uwabi_handles(kinds) == Set::<ChannelHandle>::empty() && spec_codes_of(
            spec_native_handles(kinds),
        ) == spec_no_codes(),
{
    if kinds.len() == 0 {
        assert(spec_native_handles(kinds) =~= Set::<ExtensionHandle>::empty());
        assert(spec_uwabi_handles(kinds) =~= Set::<ChannelHandle>::empty());
        assert(spec_codes_of(spec_native_handles(kinds)) =~= spec_no_codes());
    }
}

/// One more kind adds its handle to the handles of its sort, and leaves those
/// of the other sort as they are.
pub proof fn lemma_one_more_kind(kinds: Seq<ExtensionKind>, kind: ExtensionKind)
    ensures
        kind matches ExtensionKind::Native(handle) ==> spec_native_handles(kinds.push(kind))
            == spec_native_handles(kinds).insert(handle) && spec_uwabi_handles(kinds.push(kind))
            == spec_uwabi_handles(kinds),
        kind matches ExtensionKind::Uwabi(handle) ==> spec_uwabi_handles(kinds.push(kind))
            == spec_uwabi_handles(kinds).insert(handle) && spec_native_handles(kinds.push(kind))
            == spec_native_handles(kinds),
{
    let more = kinds.push(kind);
    assert forall|other: ExtensionKind| more.contains(other) <==> kinds.contains(other) || other
        == kind by {
        if kinds.contains(other) {
            let at = choose|at: int| 0 <= at < kinds.len() && kinds[at] == other;
            assert(more[at] == other);
        }
        if other == kind {
            assert(more[kinds.len() as int] == other);
        }
    }
    match kind {
        ExtensionKind::Native(handle) => {
            assert(spec_native_handles(more) =~= spec_native_handles(kinds).insert(handle));
            assert(spec_uwabi_handles(more) =~= spec_uwabi_handles(kinds));
        },
        ExtensionKind::Uwabi(handle) => {
            assert(spec_uwabi_handles(more) =~= spec_uwabi_handles(kinds).insert(handle));
            assert(spec_native_handles(more) =~= spec_native_handles(kinds));
        },
    }
}

/// A sequence with one more element is one longer, and is the sequence again
/// without its last element.
proof fn lemma_push_grows<A>(s: Seq<A>, x: A)
    ensures
        s.push(x).len() == s.len() + 1,
        s.push(x).drop_last() == s,
{
    assert(s.push(x).drop_last() =~= s);
}

/// Wires what a factory made into the state of a request. A native extension
/// goes into the table under the handle that it is made for. A channel-based
/// extension gets a fresh channel under the channel handle that it is made
/// for: the switchboard keeps one endpoint, where the guest can leave as many
/// messages as a channel holds, and the channels of the other handles stay;
/// the extension is offered the other endpoint and joins the list at its end,
/// holding an endpoint. The failure of a factory becomes the error of the
/// request, and nothing is wired.
pub fn wire_extension(
    created: Result<BoxedExtension, ExtensionError>,
    extensions: &mut ExtensionTable,
    channel_switchboard: &mut ChannelSwitchboard,
    uwabi_extensions: &mut Vec<Box<dyn UwabiExtension>>,
) -> (wired: Result<(), WasmError>)
    ensures
        match created {
            Err(error) => {
                &&& wired matches Err(WasmError::Extension(found)) && found == error
                &&& *final(extensions) == *old(extensions)
                &&& *final(channel_switchboard) == *old(channel_switchboard)
                &&& final(uwabi_extensions)@ == old(uwabi_extensions)@
            },
            Ok(extension) => wired is Ok && match extension.spec_kind() {
                ExtensionKind::Native(handle) => {
                    &&& final(extensions).spec_handles() == old(extensions).spec_handles().insert(
                        handle,
                    )
                    &&& spec_registered(*final(extensions)) == spec_registered(
                        *old(extensions),
                    ).insert(handle.spec_code())
                    &&& *final(channel_switchboard) == *old(channel_switchboard)
                    &&& final(uwabi_extensions)@ == old(uwabi_extensions)@
                },
                ExtensionKind::Uwabi(handle) => {
                    &&& final(channel_switchboard).spec_handles() == old(
                        channel_switchboard,
                    ).spec_handles().insert(handle)
                    &&& spec_capacity(final(channel_switchboard).spec_endpoint(handle).spec_sender())
                        == UWABI_CHANNEL_BOUND
                    &&& forall|other: ChannelHandle|
                        other != handle && old(channel_switchboard).spec_handles().contains(other)
                            ==> #[trigger] final(channel_switchboard).spec_endpoint(other) == old(
                            channel_switchboard,
                        ).spec_endpoint(other)
                    &&& *final(extensions) == *old(extensions)
                    &&& final(uwabi_extensions)@.len() == old(uwabi_extensions)@.len() + 1
                    &&& final(uwabi_extensions)@.drop_last() == old(uwabi_extensions)@
                    &&& exists|bound: Box<dyn UwabiExtension>|
                        {
                            &&& final(uwabi_extensions)@ == #[trigger] old(uwabi_extensions)@.push(
                                bound,
                            )
                            &&& bound.spec_bound()
                            &&& bound.spec_channel_handle() == handle
                        }
                },
            },
        },
{
    match created {
        Ok(BoxedExtension::Native(native_extension)) => {
            let handle = native_extension.get_handle();
            extensions.insert(handle, native_extension);
            Ok(())
        },
        Ok(BoxedExtension::Uwabi(uwabi_extension)) => {
            let mut uwabi_extension = uwabi_extension;
            let channel_handle = uwabi_extension.get_channel_handle();
            let endpoint = channel_switchboard.register(channel_handle);
            uwabi_extension.set_endpoint(endpoint);
            proof {
                lemma_push_grows::<Box<dyn UwabiExtension>>(uwabi_extensions@, uwabi_extension);
            }
            uwabi_extensions.push(uwabi_extension);
            Ok(())
        },
        Err(error) => Err(WasmError::Extension(error)),
    }
}

/// Serves requests with a guest module: each request gets a fresh instance and
/// fresh extensions, and nothing of one request is seen by another.
pub struct WasmHandler<L: OakLogger + Clone + 'static> {
    wasm_module_bytes: Arc<Vec<u8>>,
    extension_factories: Arc<Vec<Box<dyn ExtensionFactory>>>,
    logger: L,
}

impl<L: OakLogger + Clone + 'static> Clone for WasmHandler<L> {
    /// A handler that shares the module and the factories with this one.
    fn clone(&self) -> (handler: Self)
        ensures
            handler.spec_module_bytes() == self.spec_module_bytes(),
            handler.spec_factories() == self.spec_factories(),
            handler.spec_factory_kinds() == self.spec_factory_kinds(),
    {
        proof {
            use_type_invariant(self);
        }
        WasmHandler {
            wasm_module_bytes: self.wasm_module_bytes.clone(),
            extension_factories: self.extension_factories.clone(),
            logger: self.logger.clone(),
        }
    }
}

impl<L: OakLogger + Clone + 'static> WasmHandler<L> {
    #[verifier::type_invariant]
    spec fn inv(self) -> bool {
        spec_is_module((*self.wasm_module_bytes)@)
    }

    /// The bytes of the module that the handler runs. The engine takes them as
    /// a module.
    pub closed spec fn spec_module_bytes(&self) -> Seq<u8> {
        (*self.wasm_module_bytes)@
    }

    /// The number of extension factories.
    pub closed spec fn spec_factories(&self) -> nat {
        (*self.extension_factories)@.len()
    }

    /// What the extensions of each factory are made for, in the order of the
    /// factories.
    pub closed spec fn spec_factory_kinds(&self) -> Seq<ExtensionKind> {
        spec_kinds_of((*self.extension_factories)@)
    }

    /// Creates a handler for a module. Bytes that the engine does not take as a
    /// module are turned down with `ModuleLoad`; all others give a handler.
    pub fn create(
        wasm_module_bytes: &[u8],
        extension_factories: Vec<Box<dyn ExtensionFactory>>,
        logger: L,
    ) -> (created: Result<Self, WasmError>)
        ensures
            created is Ok <==> spec_is_module(wasm_module_bytes@),
            created matches Ok(handler) ==> handler.spec_module_bytes() == wasm_module_bytes@
                && handler.spec_factories() == extension_factories@.len()
                && handler.spec_factory_kinds() == spec_kinds_of(extension_factories@),
            created matches Err(error) ==> error is ModuleLoad,
    {
        match parse_module(wasm_module_bytes) {
            Ok(_) => {},
            Err(error) => {
                return Err(WasmError::ModuleLoad(error_text(&error)));
            },
        }
        let shared_bytes = Arc::new(slice_to_vec(wasm_module_bytes));
        assert((*shared_bytes)@ == wasm_module_bytes@);
        Ok(
            WasmHandler {
                wasm_module_bytes: shared_bytes,
                extension_factories: Arc::new(extension_factories),
                logger,
            },
        )
    }

    /// Makes the state of a request: a fresh extension from every factory, the
    /// native ones under their handles, the channel-based ones bound to a new
    /// channel each, and a fresh instance of the module. The state then has an
    /// extension for exactly the handles, and a channel for exactly the channel
    /// handles, that the factories make extensions for. The first factory that
    /// fails ends the request with its error. Where no factory fails, and so
    /// for every handler without factories, the state is made exactly where
    /// the module passes every check, and else the first check that fails
    /// gives the error. The module never fails to load, since it was loaded
    /// when the handler was created.
    pub fn init_wasm_state(&self, request_bytes: Vec<u8>) -> (made: Result<WasmState, WasmError>)
        ensures
            made matches Ok(wasm_state) ==> {
                &&& wasm_state.well_formed()
                &&& wasm_state.spec_state().spec_request_bytes() == request_bytes@
                &&& wasm_state.spec_state().spec_response_bytes() == Seq::<u8>::empty()
                &&& wasm_state.spec_state().spec_extension_handles() == spec_native_handles(
                    self.spec_factory_kinds(),
                )
                &&& wasm_state.spec_state().spec_extension_codes() == spec_codes_of(
                    spec_native_handles(self.spec_factory_kinds()),
                )
                &&& wasm_state.spec_state().spec_channel_handles() == spec_uwabi_handles(
                    self.spec_factory_kinds(),
                )
            },
            self.spec_factory_kinds().len() == self.spec_factories(),
            !(made matches Err(WasmError::ModuleLoad(_))),
            self.spec_factories() == 0 ==> (made is Ok <==> spec_serves(self.spec_module_bytes())),
            self.spec_factories() == 0 ==> spec_agrees(
                spec_verdict(self.spec_module_bytes()),
                made,
            ),
            made matches Err(WasmError::Extension(_)) || spec_agrees(
                spec_verdict(self.spec_module_bytes()),
                made,
            ),
    {
        proof {
            use_type_invariant(self);
        }
        let ghost kinds = self.spec_factory_kinds();
        let mut extensions = ExtensionTable::new();
        let mut channel_switchboard = ChannelSwitchboard::new();
        let mut uwabi_extensions: Vec<Box<dyn UwabiExtension>> = Vec::new();
        let mut i: usize = 0;
        proof {
            assert(spec_native_handles(kinds.take(0)) =~= Set::<ExtensionHandle>::empty());
            assert(spec_uwabi_handles(kinds.take(0)) =~= Set::<ChannelHandle>::empty());
            lemma_one_more_code(Set::empty(), ExtensionHandle::InvalidHandle);
        }
        while i < self.extension_factories.len()
            invariant
                i <= (*self.extension_factories)@.len(),
                kinds == self.spec_factory_kinds(),
                kinds.len() == (*self.extension_factories)@.len(),
                extensions.spec_handles() == spec_native_handles(kinds.take(i as int)),
                spec_registered(extensions) == spec_codes_of(
                    spec_native_handles(kinds.take(i as int)),
                ),
                channel_switchboard.spec_handles() == spec_uwabi_handles(kinds.take(i as int)),
            decreases (*self.extension_factories)@.len() - i,
        {
            let created = self.extension_factories[i].create();
            proof {
                assert(kinds[i as int] == (*self.extension_factories)@[i as int].spec_makes());
                assert(kinds.take(i + 1) =~= kinds.take(i as int).push(kinds[i as int]));
                lemma_one_more_kind(kinds.take(i as int), kinds[i as int]);
                if let ExtensionKind::Native(handle) = kinds[i as int] {
                    lemma_one_more_code(spec_native_handles(kinds.take(i as int)), handle);
                }
            }
            match wire_extension(
                created,
                &mut extensions,
                &mut channel_switchboard,
                &mut uwabi_extensions,
            ) {
                Ok(()) => {},
                Err(error) => {
                    return Err(error);
                },
            }
            i = i + 1;
        }
        proof {
            assert(kinds.take(i as int) =~= kinds);
        }
        let logger: Box<dyn OakLogger> = Box::new(self.logger.clone());
        WasmState::new(
            self.wasm_module_bytes.as_slice(),
            request_bytes,
            logger,
            extensions,
            channel_switchboard,
            uwabi_extensions,
        )
    }

    /// Handles a request and gives the response of the guest, with the status
    /// `Success` and the whole body as content. Only a module that passes every
    /// check serves; for any other the first check that fails gives the error,
    /// unless a factory failed before. A guest that trapped and an extension
    /// that failed give an error, whatever the guest wrote. The module never
    /// fails to load, since it was loaded when the handler was created.
    pub fn handle_invoke(&self, request: Request) -> (handled: Result<Response, WasmError>)
        ensures
            handled matches Ok(response) ==> response@ == spec_create(
                StatusCode::Success,
                response@.body,
            ),
            !(handled matches Err(WasmError::ModuleLoad(_))),
            spec_handled_agrees(
                spec_verdict(self.spec_module_bytes()),
                self.spec_factories(),
                handled,
            ),
    {
        invocation_response(self.handle_raw_invoke(request.body))
    }

    /// Handles a request given as bytes and gives the bytes that the guest
    /// wrote as its response: runs `main` of a fresh instance, terminates the
    /// extensions, and takes what the guest wrote last. Only a module that
    /// passes every check serves; for any other the first check that fails
    /// gives the error, unless a factory failed before. A guest that trapped
    /// and an extension that failed give an error, whatever the guest wrote.
    /// The module never fails to load, since it was loaded when the handler
    /// was created.
    pub fn handle_raw_invoke(&self, request_bytes: Vec<u8>) -> (handled: Result<
        Vec<u8>,
        WasmError,
    >)
        ensures
            !(handled matches Err(WasmError::ModuleLoad(_))),
            spec_handled_agrees(
                spec_verdict(self.spec_module_bytes()),
                self.spec_factories(),
                handled,
            ),
    {
        proof {
            lemma_serves_is_verdict(self.spec_module_bytes());
        }
        let mut wasm_state = match self.init_wasm_state(request_bytes) {
            Ok(wasm_state) => wasm_state,
            Err(error) => {
                return Err(error);
            },
        };
        let ended = wasm_state.invoke();
        let terminated = wasm_state.terminate_extensions();
        invocation_result(ended, terminated, wasm_state.get_response_bytes())
    }
}

/// Whether the outcome of a request is one that the verdict on the module
/// allows. Only a module that serves gives a response, and only its guest can
/// trap. A module that does not serve gives the error of the first check that
/// fails. The error of an extension comes from a factory, of which there must
/// be one, or from the termination of the extensions of a module that serves.
pub open spec fn spec_handled_agrees<T>(
    verdict: Verdict,
    factories: nat,
    handled: Result<T, WasmError>,
) -> bool {
    match handled {
        Ok(_) => verdict is Serves,
        Err(WasmError::Trap(_)) => verdict is Serves,
        Err(WasmError::Extension(_)) => factories > 0 || verdict is Serves,
        Err(error) => spec_error_agrees(verdict, error),
    }
}

/// What a request comes to once the guest has run and the extensions are
/// terminated: the error of a guest that trapped, else the error of the
/// extension that could not be terminated, else the bytes that the guest
/// wrote.
pub open spec fn spec_invocation_result(
    ended: Result<(), WasmError>,
    terminated: Result<(), ExtensionError>,
    response_bytes: Seq<u8>,
) -> Result<Seq<u8>, WasmError> {
    match ended {
        Err(error) => Err(error),
        Ok(()) => match terminated {
            Err(error) => Err(WasmError::Extension(error)),
            Ok(()) => Ok(response_bytes),
        },
    }
}

/// Turns the end of the run, the outcome of the termination and the bytes that
/// the guest wrote into the outcome of the request.
pub fn invocation_result(
    ended: Result<(), WasmError>,
    terminated: Result<(), ExtensionError>,
    response_bytes: Vec<u8>,
) -> (handled: Result<Vec<u8>, WasmError>)
    ensures
        match spec_invocation_result(ended, terminated, response_bytes@) {
            Ok(bytes) => handled matches Ok(found) && found@ == bytes,
            Err(error) => handled matches Err(found) && found == error,
        },
{
    match ended {
        Err(error) => Err(error),
        Ok(()) => match terminated {
            Err(error) => Err(WasmError::Extension(error)),
            Ok(()) => Ok(response_bytes),
        },
    }
}

/// The response for the bytes that the guest wrote: they are the whole body,
/// and the status is `Success`. An error stays as it is.
pub fn invocation_response(handled: Result<Vec<u8>, WasmError>) -> (response: Result<
    Response,
    WasmError,
>)
    ensures
        match handled {
            Ok(bytes) => response matches Ok(found) && found@ == spec_create(
                StatusCode::Success,
                bytes@,
            ),
            Err(error) => response matches Err(found) && found == error,
        },
{
    match handled {
        Ok(response_bytes) => Ok(Response::create(StatusCode::Success, response_bytes)),
        Err(error) => Err(error),
    }
}

} // verus!
