//! The engine as the host sees it from outside the guest: modules, stores,
//! linkers and instances of `wasmi`.
//!
//! Verus does not look into the engine. What this file says of it is taken
//! from the engine's source and is believed, not proved.

use crate::host::{
    host_channel_read, host_channel_write, host_invoke, host_read_request,
    host_write_log_message, host_write_response,
};
use crate::state::UserState;
use vstd::prelude::*;

verus! {

#[verifier::external_type_specification]
#[verifier::external_body]
pub struct ExModule(wasmi::Module);

#[verifier::external_type_specification]
#[verifier::external_body]
#[verifier::reject_recursive_types(T)]
pub struct ExStore<T>(wasmi::Store<T>);

#[verifier::external_type_specification]
#[verifier::external_body]
#[verifier::reject_recursive_types(T)]
pub struct ExLinker<T>(wasmi::Linker<T>);

#[verifier::external_type_specification]
#[verifier::external_body]
pub struct ExInstance(wasmi::Instance);

#[verifier::external_type_specification]
#[verifier::external_body]
pub struct ExValType(wasmi::core::ValType);

/// The name of the module under which the guest imports the host functions.
pub const HOST_MODULE: &'static str = "oak_functions";

/// Whether the engine takes bytes as a module: whether they are well-formed and
/// valid WebAssembly that the engine can translate.
pub uninterp spec fn spec_is_module(wasm: Seq<u8>) -> bool;

/// The state of the request that a store holds.
pub uninterp spec fn spec_store_state(store: wasmi::Store<UserState>) -> UserState;

/// Whether a store was made on the engine of a module.
pub uninterp spec fn spec_runs(store: wasmi::Store<UserState>, module: wasmi::Module) -> bool;

/// Whether a linker was made on the engine of a module.
pub uninterp spec fn spec_links(linker: wasmi::Linker<UserState>, module: wasmi::Module) -> bool;

/// Whether a store owns an instance.
pub uninterp spec fn spec_instance_of(
    store: wasmi::Store<UserState>,
    instance: wasmi::Instance,
) -> bool;

/// Whether a store owns a function.
pub uninterp spec fn spec_func_of(store: wasmi::Store<UserState>, func: wasmi::Func) -> bool;

/// The kind of value that a value type of the engine stands for.
pub uninterp spec fn spec_value_type(ty: wasmi::core::ValType) -> ValueType;

/// The kinds of value that value types of the engine stand for.
pub open spec fn spec_kinds(types: Seq<wasmi::core::ValType>) -> Seq<ValueType> {
    types.map_values(|ty: wasmi::core::ValType| spec_value_type(ty))
}

/// An import of a module: the names of the module and of the item that it
/// imports, and, where the item is a function, what the function takes and
/// returns.
pub struct ImportView {
    pub module_name: Seq<char>,
    pub field_name: Seq<char>,
    pub params: Option<Seq<ValueType>>,
    pub results: Option<Seq<ValueType>>,
}

/// The bytes that a module was made of.
pub uninterp spec fn spec_source(module: wasmi::Module) -> Seq<u8>;

/// The bytes of the module that an instance is an instance of.
pub uninterp spec fn spec_instance_source(
    store: wasmi::Store<UserState>,
    instance: wasmi::Instance,
) -> Seq<u8>;

/// The imports of the module that the engine makes of bytes, in their order.
pub uninterp spec fn spec_imports(wasm: Seq<u8>) -> Seq<ImportView>;

/// Whether the engine instantiates the module that it makes of bytes, given
/// the names under which the linker has a host function and the width of a
/// machine word in bits: whether the linker has every import of the module with
/// the type that the module asks for, the module has no start function, and
/// its tables and memories can be set up. The width counts because the size
/// of a memory is to fit in a machine word.
pub uninterp spec fn spec_instantiates(
    wasm: Seq<u8>,
    definitions: Set<Seq<char>>,
    word_bits: nat,
) -> bool;

/// The names under which a linker has a host function.
pub uninterp spec fn spec_definitions(linker: wasmi::Linker<UserState>) -> Set<Seq<char>>;

/// No name.
pub open spec fn spec_no_definitions() -> Set<Seq<char>> {
    Set::empty()
}

/// The names of the import of a module at an index, if there is one.
pub open spec fn spec_import_names(module: wasmi::Module, index: int) -> Option<
    (Seq<char>, Seq<char>),
> {
    if 0 <= index < spec_imports(spec_source(module)).len() {
        Some(
            (
                spec_imports(spec_source(module))[index].module_name,
                spec_imports(spec_source(module))[index].field_name,
            ),
        )
    } else {
        None
    }
}

/// What the import of a module at an index takes, if it is a function.
pub open spec fn spec_import_params(module: wasmi::Module, index: int) -> Option<Seq<ValueType>> {
    if 0 <= index < spec_imports(spec_source(module)).len() {
        spec_imports(spec_source(module))[index].params
    } else {
        None
    }
}

/// What the import of a module at an index returns, if it is a function.
pub open spec fn spec_import_results(module: wasmi::Module, index: int) -> Option<Seq<ValueType>> {
    if 0 <= index < spec_imports(spec_source(module)).len() {
        spec_imports(spec_source(module))[index].results
    } else {
        None
    }
}

/// Whether a vector of strings holds the given texts.
pub open spec fn spec_names_are(found: Option<(String, String)>, expected: Option<
    (Seq<char>, Seq<char>),
>) -> bool {
    match (found, expected) {
        (Some(names), Some(texts)) => names.0@ == texts.0 && names.1@ == texts.1,
        (None, None) => true,
        _ => false,
    }
}

/// Whether value types of the engine stand for the given kinds of value.
pub open spec fn spec_kinds_are(found: Option<Vec<wasmi::core::ValType>>, expected: Option<
    Seq<ValueType>,
>) -> bool {
    match (found, expected) {
        (Some(types), Some(kinds)) => spec_kinds(types@) == kinds,
        (None, None) => true,
        _ => false,
    }
}

/// An export of an instance: its kind and, where it is a function, what the
/// function takes and returns.
pub struct ExportView {
    pub kind: ExportKind,
    pub params: Option<Seq<ValueType>>,
    pub results: Option<Seq<ValueType>>,
}

/// The exports, by name, of the module that the engine makes of bytes. They
/// are the exports of every instance of the module.
pub uninterp spec fn spec_exports(wasm: Seq<u8>) -> Map<Seq<char>, ExportView>;

/// The kind of what a module exports under a name, if it exports anything under
/// it.
pub open spec fn spec_kind_in(exports: Map<Seq<char>, ExportView>, name: Seq<char>) -> Option<
    ExportKind,
> {
    if exports.contains_key(name) {
        Some(exports[name].kind)
    } else {
        None
    }
}

/// What the function takes that a module exports under a name, if it exports a
/// function under it.
pub open spec fn spec_params_in(exports: Map<Seq<char>, ExportView>, name: Seq<char>) -> Option<
    Seq<ValueType>,
> {
    if spec_kind_in(exports, name) == Some(ExportKind::Function) {
        exports[name].params
    } else {
        None
    }
}

/// What the function returns that a module exports under a name, if it exports
/// a function under it.
pub open spec fn spec_results_in(exports: Map<Seq<char>, ExportView>, name: Seq<char>) -> Option<
    Seq<ValueType>,
> {
    if spec_kind_in(exports, name) == Some(ExportKind::Function) {
        exports[name].results
    } else {
        None
    }
}

/// The kind of what an instance exports under a name, if it exports anything
/// under it.
pub open spec fn spec_export_kind(
    store: wasmi::Store<UserState>,
    instance: wasmi::Instance,
    name: Seq<char>,
) -> Option<ExportKind> {
    spec_kind_in(spec_exports(spec_instance_source(store, instance)), name)
}

/// What the function takes that an instance exports under a name, if it
/// exports a function under it.
pub open spec fn spec_export_params(
    store: wasmi::Store<UserState>,
    instance: wasmi::Instance,
    name: Seq<char>,
) -> Option<Seq<ValueType>> {
    spec_params_in(spec_exports(spec_instance_source(store, instance)), name)
}

/// What the function returns that an instance exports under a name, if it
/// exports a function under it.
pub open spec fn spec_export_results(
    store: wasmi::Store<UserState>,
    instance: wasmi::Instance,
    name: Seq<char>,
) -> Option<Seq<ValueType>> {
    spec_results_in(spec_exports(spec_instance_source(store, instance)), name)
}

/// Whether a store owns every instance that another owned, as an instance of
/// the module that it was an instance of.
pub open spec fn spec_keeps_instances(
    before: wasmi::Store<UserState>,
    after: wasmi::Store<UserState>,
) -> bool {
    forall|instance: wasmi::Instance|
        spec_instance_of(before, instance) ==> #[trigger] spec_instance_of(after, instance)
            && spec_instance_source(after, instance) == spec_instance_source(before, instance)
}

/// Whether a linker is made on the engines that another was made on.
pub open spec fn spec_keeps_links(
    before: wasmi::Linker<UserState>,
    after: wasmi::Linker<UserState>,
) -> bool {
    forall|module: wasmi::Module| spec_links(before, module) ==> #[trigger] spec_links(after, module)
}

/// The kinds of value that a guest function takes and returns.
#[derive(Clone, Copy, Debug, PartialEq, Eq, Structural)]
pub enum ValueType {
    I32,
    I64,
    F32,
    F64,
    FuncRef,
    ExternRef,
}

/// What an instance exports under a name.
#[derive(Clone, Copy, Debug, PartialEq, Eq, Structural)]
pub enum ExportKind {
    Function,
    Memory,
    Table,
    Global,
}

/// `Module::new` on an engine with the default configuration: parses and
/// validates the bytes of a module. Whether the engine takes the bytes as a
/// module depends on the bytes alone.
#[verifier::external_body]
pub(crate) fn parse_module(wasm: &[u8]) -> (module: Result<wasmi::Module, wasmi::Error>)
    ensures
        module is Ok <==> spec_is_module(wasm@),
        module matches Ok(m) ==> spec_source(m) == wasm@,
{
    wasmi::Module::new(&wasmi::Engine::default(), wasm)
}

/// `Module::imports`, counted: the number of imports of a module.
#[verifier::external_body]
pub(crate) fn import_count(module: &wasmi::Module) -> (count: usize)
    ensures
        count == spec_imports(spec_source(*module)).len(),
{
    module.imports().len()
}

/// `ImportType::module` and `ImportType::name` of an import of a module: the
/// names of the module and of the item that the guest imports.
#[verifier::external_body]
pub(crate) fn import_names(module: &wasmi::Module, index: usize) -> (names: Option<
    (String, String),
>)
    ensures
        spec_names_are(names, spec_import_names(*module, index as int)),
{
    match module.imports().nth(index) {
        Some(import) => Some((import.module().to_string(), import.name().to_string())),
        None => None,
    }
}

/// `ImportType::ty` of an import of a module, where it is a function: the kinds
/// of value that the function takes.
#[verifier::external_body]
pub(crate) fn import_params(module: &wasmi::Module, index: usize) -> (params: Option<
    Vec<wasmi::core::ValType>,
>)
    ensures
        spec_kinds_are(params, spec_import_params(*module, index as int)),
{
    match module.imports().nth(index) {
        Some(import) => match import.ty().func() {
            Some(ty) => Some(ty.params().to_vec()),
            None => None,
        },
        None => None,
    }
}

/// `ImportType::ty` of an import of a module, where it is a function: the kinds
/// of value that the function returns.
#[verifier::external_body]
pub(crate) fn import_results(module: &wasmi::Module, index: usize) -> (results: Option<
    Vec<wasmi::core::ValType>,
>)
    ensures
        spec_kinds_are(results, spec_import_results(*module, index as int)),
{
    match module.imports().nth(index) {
        Some(import) => match import.ty().func() {
            Some(ty) => Some(ty.results().to_vec()),
            None => None,
        },
        None => None,
    }
}

/// `Store::new` on the engine of a module: a store that holds the state of the
/// request.
#[verifier::external_body]
pub(crate) fn new_store(module: &wasmi::Module, state: UserState) -> (store: wasmi::Store<UserState>)
    ensures
        spec_store_state(store) == state,
        spec_runs(store, *module),
{
    wasmi::Store::new(module.engine(), state)
}

/// `Linker::new` on the engine of a module: a linker without definitions.
#[verifier::external_body]
pub(crate) fn new_linker(module: &wasmi::Module) -> (linker: wasmi::Linker<UserState>)
    ensures
        spec_links(linker, *module),
        spec_definitions(linker) == spec_no_definitions(),
{
    wasmi::Linker::new(module.engine())
}

/// `Linker::func_wrap` for `read_request`. It fails where the name is defined
/// already, and only there; the linker then has the name defined.
#[verifier::external_body]
pub(crate) fn define_read_request(linker: &mut wasmi::Linker<UserState>) -> (defined: bool)
    ensures
        spec_keeps_links(*old(linker), *final(linker)),
        defined == !spec_definitions(*old(linker)).contains("read_request"@),
        spec_definitions(*final(linker)) == spec_definitions(*old(linker)).insert("read_request"@),
{
    linker.func_wrap(HOST_MODULE, "read_request", host_read_request).is_ok()
}

/// `Linker::func_wrap` for `write_response`. It fails where the name is defined
/// already, and only there; the linker then has the name defined.
#[verifier::external_body]
pub(crate) fn define_write_response(linker: &mut wasmi::Linker<UserState>) -> (defined: bool)
    ensures
        spec_keeps_links(*old(linker), *final(linker)),
        defined == !spec_definitions(*old(linker)).contains("write_response"@),
        spec_definitions(*final(linker)) == spec_definitions(*old(linker)).insert("write_response"@),
{
    linker.func_wrap(HOST_MODULE, "write_response", host_write_response).is_ok()
}

/// `Linker::func_wrap` for `write_log_message`. It fails where the name is
/// defined already, and only there; the linker then has the name defined.
#[verifier::external_body]
pub(crate) fn define_write_log_message(linker: &mut wasmi::Linker<UserState>) -> (defined: bool)
    ensures
        spec_keeps_links(*old(linker), *final(linker)),
        defined == !spec_definitions(*old(linker)).contains("write_log_message"@),
        spec_definitions(*final(linker)) == spec_definitions(*old(linker)).insert("write_log_message"@),
{
    linker.func_wrap(HOST_MODULE, "write_log_message", host_write_log_message).is_ok()
}

/// `Linker::func_wrap` for `invoke`. It fails where the name is defined
/// already, and only there; the linker then has the name defined.
#[verifier::external_body]
pub(crate) fn define_invoke(linker: &mut wasmi::Linker<UserState>) -> (defined: bool)
    ensures
        spec_keeps_links(*old(linker), *final(linker)),
        defined == !spec_definitions(*old(linker)).contains("invoke"@),
        spec_definitions(*final(linker)) == spec_definitions(*old(linker)).insert("invoke"@),
{
    linker.func_wrap(HOST_MODULE, "invoke", host_invoke).is_ok()
}

/// `Linker::func_wrap` for `channel_read`. It fails where the name is defined
/// already, and only there; the linker then has the name defined.
#[verifier::external_body]
pub(crate) fn define_channel_read(linker: &mut wasmi::Linker<UserState>) -> (defined: bool)
    ensures
        spec_keeps_links(*old(linker), *final(linker)),
        defined == !spec_definitions(*old(linker)).contains("channel_read"@),
        spec_definitions(*final(linker)) == spec_definitions(*old(linker)).insert("channel_read"@),
{
    linker.func_wrap(HOST_MODULE, "channel_read", host_channel_read).is_ok()
}

/// `Linker::func_wrap` for `channel_write`. It fails where the name is defined
/// already, and only there; the linker then has the name defined.
#[verifier::external_body]
pub(crate) fn define_channel_write(linker: &mut wasmi::Linker<UserState>) -> (defined: bool)
    ensures
        spec_keeps_links(*old(linker), *final(linker)),
        defined == !spec_definitions(*old(linker)).contains("channel_write"@),
        spec_definitions(*final(linker)) == spec_definitions(*old(linker)).insert("channel_write"@),
{
    linker.func_wrap(HOST_MODULE, "channel_write", host_channel_write).is_ok()
}

/// `Linker::instantiate` and `InstancePre::ensure_no_start`: an instance of the
/// module in the store, with its imports taken from the linker. A module with a
/// start function is turned down, so no code of the guest runs here and the
/// state of the request stays as it is. Whether the module is instantiated
/// depends on its bytes, on what the linker has defined and on the width of a
/// machine word alone: the store is fresh and has no limits. The instance is
/// one of the module. The engine panics where the linker and the store are not
/// on one engine, so both are to be made for the module.
#[verifier::external_body]
pub(crate) fn instantiate(
    linker: &wasmi::Linker<UserState>,
    store: &mut wasmi::Store<UserState>,
    module: &wasmi::Module,
) -> (instance: Result<wasmi::Instance, wasmi::Error>)
    requires
        spec_links(*linker, *module),
        spec_runs(*old(store), *module),
    ensures
        spec_store_state(*final(store)) == spec_store_state(*old(store)),
        instance is Ok <==> spec_instantiates(
            spec_source(*module),
            spec_definitions(*linker),
            usize::BITS as nat,
        ),
        instance matches Ok(i) ==> spec_instance_of(*final(store), i) && spec_instance_source(
            *final(store),
            i,
        ) == spec_source(*module),
{
    match linker.instantiate(&mut *store, module) {
        Ok(pre) => pre.ensure_no_start(store).map_err(wasmi::Error::from),
        Err(error) => Err(error),
    }
}

/// `Instance::get_export`: the kind of what the instance exports under a name.
/// The engine panics on an instance of another store.
#[verifier::external_body]
pub(crate) fn export_kind(
    instance: &wasmi::Instance,
    store: &wasmi::Store<UserState>,
    name: &str,
) -> (kind: Option<ExportKind>)
    requires
        spec_instance_of(*store, *instance),
    ensures
        kind == spec_kind_in(spec_exports(spec_instance_source(*store, *instance)), name@),
{
    match instance.get_export(store, name) {
        Some(wasmi::Extern::Func(_)) => Some(ExportKind::Function),
        Some(wasmi::Extern::Memory(_)) => Some(ExportKind::Memory),
        Some(wasmi::Extern::Table(_)) => Some(ExportKind::Table),
        Some(wasmi::Extern::Global(_)) => Some(ExportKind::Global),
        None => None,
    }
}

/// `Instance::get_func`: the function that the instance exports under a name.
/// It belongs to the store of the instance. The engine panics on an instance of
/// another store.
#[verifier::external_body]
pub(crate) fn export_func(
    instance: &wasmi::Instance,
    store: &wasmi::Store<UserState>,
    name: &str,
) -> (func: Option<wasmi::Func>)
    requires
        spec_instance_of(*store, *instance),
    ensures
        func is Some <==> spec_export_kind(*store, *instance, name@) == Some(ExportKind::Function),
        func matches Some(f) ==> spec_func_of(*store, f),
{
    instance.get_func(store, name)
}

/// `Instance::get_func`, `Func::ty`, `FuncType::params`: the kinds of value
/// that the function takes which the instance exports under a name, if it
/// exports a function under it. The engine panics on an instance of another
/// store.
#[verifier::external_body]
pub(crate) fn export_params(
    instance: &wasmi::Instance,
    store: &wasmi::Store<UserState>,
    name: &str,
) -> (params: Option<Vec<wasmi::core::ValType>>)
    requires
        spec_instance_of(*store, *instance),
    ensures
        spec_kinds_are(params, spec_export_params(*store, *instance, name@)),
{
    match instance.get_func(store, name) {
        Some(func) => Some(func.ty(store).params().to_vec()),
        None => None,
    }
}

/// `Instance::get_func`, `Func::ty`, `FuncType::results`: the kinds of value
/// that the function returns which the instance exports under a name, if it
/// exports a function under it. The engine panics on an instance of another
/// store.
#[verifier::external_body]
pub(crate) fn export_results(
    instance: &wasmi::Instance,
    store: &wasmi::Store<UserState>,
    name: &str,
) -> (results: Option<Vec<wasmi::core::ValType>>)
    requires
        spec_instance_of(*store, *instance),
    ensures
        spec_kinds_are(results, spec_export_results(*store, *instance, name@)),
{
    match instance.get_func(store, name) {
        Some(func) => Some(func.ty(store).results().to_vec()),
        None => None,
    }
}

/// Tells the variants of `ValType` apart.
#[verifier::external_body]
pub(crate) fn value_type(ty: &wasmi::core::ValType) -> (kind: ValueType)
    ensures
        kind == spec_value_type(*ty),
{
    match ty {
        wasmi::core::ValType::I32 => ValueType::I32,
        wasmi::core::ValType::I64 => ValueType::I64,
        wasmi::core::ValType::F32 => ValueType::F32,
        wasmi::core::ValType::F64 => ValueType::F64,
        wasmi::core::ValType::FuncRef => ValueType::FuncRef,
        wasmi::core::ValType::ExternRef => ValueType::ExternRef,
    }
}

/// `Func::call` without arguments and results. The guest runs its own code
/// here and calls back into the host, so nothing is said of the state of the
/// request afterwards. The call does not return while the guest runs: the
/// engine sets no limit here, so a guest that loops for ever keeps the call
/// for ever. The store keeps the instances that it owns. The engine panics on
/// a function of another store.
#[verifier::external_body]
pub(crate) fn call_function(func: &wasmi::Func, store: &mut wasmi::Store<UserState>) -> (called:
    Result<(), wasmi::Error>)
    requires
        spec_func_of(*old(store), *func),
    ensures
        spec_keeps_instances(*old(store), *final(store)),
{
    func.call(store, &[], &mut [])
}

/// `Store::data`: the state of the request.
#[verifier::external_body]
pub(crate) fn store_data<'a>(store: &'a wasmi::Store<UserState>) -> (state: &'a UserState)
    ensures
        *state == spec_store_state(*store),
{
    store.data()
}

/// `Store::data_mut`: the state of the request, to be changed. The store ends
/// up with the state that the reference is left with.
#[verifier::external_body]
pub(crate) fn store_data_mut<'a>(store: &'a mut wasmi::Store<UserState>) -> (state:
    &'a mut UserState)
    ensures
        *state == spec_store_state(*old(store)),
        spec_store_state(*final(store)) == *final(state),
{
    store.data_mut()
}

/// The text that the engine gives for an error.
#[verifier::external_body]
pub(crate) fn error_text(error: &wasmi::Error) -> (text: String) {
    format!("{:?}", error)
}

} // verus!
