//! The guest as the host sees it from inside a host function: the linear
//! memory, the exports and the state of the request, all reached through the
//! `wasmi::Caller` that the engine hands to the host function.
//!
//! Verus does not look into the engine. What this file says of it is taken
//! from the engine's source and is believed, not proved.

use crate::state::UserState;
use vstd::prelude::*;

verus! {

#[verifier::external_type_specification]
#[verifier::external_body]
#[verifier::reject_recursive_types(T)]
pub struct ExCaller<'a, T>(wasmi::Caller<'a, T>);

#[verifier::external_type_specification]
#[verifier::external_body]
pub struct ExMemory(wasmi::Memory);

#[verifier::external_type_specification]
#[verifier::external_body]
pub struct ExFunc(wasmi::Func);

#[verifier::external_type_specification]
#[verifier::external_body]
pub struct ExError(wasmi::Error);

/// The bytes of a linear memory of the guest.
pub uninterp spec fn spec_memory(caller: wasmi::Caller<'_, UserState>, memory: wasmi::Memory) -> Seq<
    u8,
>;

/// The state of the request that the store of the guest holds.
pub uninterp spec fn spec_host_state(caller: wasmi::Caller<'_, UserState>) -> UserState;

/// The linear memory that the calling instance exports under a name.
pub uninterp spec fn spec_export_memory(
    caller: wasmi::Caller<'_, UserState>,
    name: Seq<char>,
) -> Option<wasmi::Memory>;

/// The function that the calling instance exports under a name.
pub uninterp spec fn spec_export_func(
    caller: wasmi::Caller<'_, UserState>,
    name: Seq<char>,
) -> Option<wasmi::Func>;

/// Whether a linear memory is an export of the calling instance.
pub open spec fn spec_is_memory_of(caller: wasmi::Caller<'_, UserState>, memory: wasmi::Memory) -> bool {
    exists|name: Seq<char>| #[trigger] spec_export_memory(caller, name) == Some(memory)
}

/// Whether a function is an export of the calling instance.
pub open spec fn spec_is_func_of(caller: wasmi::Caller<'_, UserState>, func: wasmi::Func) -> bool {
    exists|name: Seq<char>| #[trigger] spec_export_func(caller, name) == Some(func)
}

/// Whether two states of a guest have the same exports.
pub open spec fn spec_same_exports(
    before: wasmi::Caller<'_, UserState>,
    after: wasmi::Caller<'_, UserState>,
) -> bool {
    &&& forall|name: Seq<char>| #[trigger]
        spec_export_memory(after, name) == spec_export_memory(before, name)
    &&& forall|name: Seq<char>| #[trigger]
        spec_export_func(after, name) == spec_export_func(before, name)
}

/// Whether two states of a guest have the same bytes in every linear memory.
pub open spec fn spec_same_memories(
    before: wasmi::Caller<'_, UserState>,
    after: wasmi::Caller<'_, UserState>,
) -> bool {
    forall|memory: wasmi::Memory| #[trigger]
        spec_memory(after, memory) == spec_memory(before, memory)
}

/// Whether two states of a guest have the same bytes in every linear memory
/// but the given one.
pub open spec fn spec_same_other_memories(
    before: wasmi::Caller<'_, UserState>,
    after: wasmi::Caller<'_, UserState>,
    changed: wasmi::Memory,
) -> bool {
    forall|memory: wasmi::Memory|
        memory != changed ==> #[trigger] spec_memory(after, memory) == spec_memory(before, memory)
}

/// A memory with `bytes` written at `at`, where they fit.
pub open spec fn spec_written(memory: Seq<u8>, at: int, bytes: Seq<u8>) -> Seq<u8>
    recommends
        0 <= at,
        at + bytes.len() <= memory.len(),
{
    memory.take(at) + bytes + memory.skip(at + bytes.len())
}

/// `Caller::data`: the state of the request.
#[verifier::external_body]
pub(crate) fn host_data<'a, 'b>(caller: &'a wasmi::Caller<'b, UserState>) -> (state: &'a UserState)
    ensures
        *state == spec_host_state(*caller),
{
    caller.data()
}

/// `Caller::data_mut`: the state of the request, to be changed. The guest ends
/// up with the state that the reference is left with; its memories and exports
/// stay as they are.
#[verifier::external_body]
pub(crate) fn host_data_mut<'a, 'b>(caller: &'a mut wasmi::Caller<'b, UserState>) -> (state:
    &'a mut UserState)
    ensures
        *state == spec_host_state(*old(caller)),
        spec_host_state(*final(caller)) == *final(state),
        spec_same_exports(*old(caller), *final(caller)),
        spec_same_memories(*old(caller), *final(caller)),
{
    caller.data_mut()
}

/// `Caller::get_export` and `Extern::into_memory`: the linear memory that the
/// calling instance exports under the name.
#[verifier::external_body]
pub(crate) fn exported_memory(caller: &wasmi::Caller<'_, UserState>, name: &str) -> (found: Option<
    wasmi::Memory,
>)
    ensures
        found == spec_export_memory(*caller, name@),
{
    caller.get_export(name).and_then(wasmi::Extern::into_memory)
}

/// `Caller::get_export` and `Extern::into_func`: the function that the calling
/// instance exports under the name.
#[verifier::external_body]
pub(crate) fn exported_func(caller: &wasmi::Caller<'_, UserState>, name: &str) -> (found: Option<
    wasmi::Func,
>)
    ensures
        found == spec_export_func(*caller, name@),
{
    caller.get_export(name).and_then(wasmi::Extern::into_func)
}

/// `Memory::data_size`: the number of bytes of a linear memory. The engine
/// panics on a memory of another store, so the memory is to be an export of
/// the caller.
#[verifier::external_body]
pub(crate) fn memory_size(caller: &wasmi::Caller<'_, UserState>, memory: &wasmi::Memory) -> (size:
    usize)
    requires
        spec_is_memory_of(*caller, *memory),
    ensures
        size == spec_memory(*caller, *memory).len(),
{
    memory.data_size(caller)
}

/// `Memory::read`: the `len` bytes of a linear memory that start at `offset`,
/// or nothing where they do not all lie in the memory. The engine adds
/// `offset` and `len` unchecked, so their sum is to fit.
#[verifier::external_body]
pub(crate) fn memory_read(
    caller: &wasmi::Caller<'_, UserState>,
    memory: &wasmi::Memory,
    offset: usize,
    len: usize,
) -> (bytes: Option<Vec<u8>>)
    requires
        spec_is_memory_of(*caller, *memory),
        offset + len <= usize::MAX,
    ensures
        bytes is Some <==> offset + len <= spec_memory(*caller, *memory).len(),
        bytes matches Some(b) ==> b@ == spec_memory(*caller, *memory).subrange(
            offset as int,
            offset + len,
        ),
{
    let mut buffer = vec![0u8; len];
    match memory.read(caller, offset, &mut buffer) {
        Ok(()) => Some(buffer),
        Err(_) => None,
    }
}

/// `Memory::write`: writes the bytes into a linear memory at `offset`, or
/// leaves the memory as it is where they do not all fit. Nothing else of the
/// guest changes. The engine adds `offset` and the length unchecked, so their
/// sum is to fit.
#[verifier::external_body]
pub(crate) fn memory_write(
    caller: &mut wasmi::Caller<'_, UserState>,
    memory: &wasmi::Memory,
    offset: usize,
    bytes: &[u8],
) -> (written: bool)
    requires
        spec_is_memory_of(*old(caller), *memory),
        offset + bytes@.len() <= usize::MAX,
    ensures
        written == (offset + bytes@.len() <= spec_memory(*old(caller), *memory).len()),
        written ==> spec_memory(*final(caller), *memory) == spec_written(
            spec_memory(*old(caller), *memory),
            offset as int,
            bytes@,
        ),
        !written ==> spec_memory(*final(caller), *memory) == spec_memory(*old(caller), *memory),
        spec_same_other_memories(*old(caller), *final(caller), *memory),
        spec_same_exports(*old(caller), *final(caller)),
        spec_host_state(*final(caller)) == spec_host_state(*old(caller)),
{
    memory.write(caller, offset, bytes).is_ok()
}

/// `Func::call` on the allocator of the guest, with the length as its one
/// argument: the one result as an `i32`, if it is one, or the error of the
/// engine. The guest runs its own code here and may call back into the host, so
/// nothing is said of its memory or of the state of the request afterwards. The
/// call does not return while the allocator runs: the engine sets no limit
/// here, so an allocator that loops for ever keeps the call for ever. Its
/// exports stay. The engine panics on a function of another store, so the
/// function is to be an export of the caller.
#[verifier::external_body]
pub(crate) fn call_guest_alloc(
    caller: &mut wasmi::Caller<'_, UserState>,
    alloc: &wasmi::Func,
    len: i32,
) -> (address: Result<Option<i32>, wasmi::Error>)
    requires
        spec_is_func_of(*old(caller), *alloc),
    ensures
        spec_same_exports(*old(caller), *final(caller)),
{
    let mut outputs = [wasmi::Val::I32(0)];
    match alloc.call(caller, &[wasmi::Val::I32(len)], &mut outputs) {
        Ok(()) => Ok(outputs[0].i32()),
        Err(error) => Err(error),
    }
}

/// `Error::new`: an error of the engine with a message, which traps the guest
/// where a host function returns it.
#[verifier::external_body]
pub(crate) fn trap(message: &str) -> (error: wasmi::Error) {
    wasmi::Error::new(message)
}

} // verus!
