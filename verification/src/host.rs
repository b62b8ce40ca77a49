//! The host functions that a guest calls: reading the request, writing the
//! response and log lines, invoking extensions, and reading and writing
//! channels. Every pointer and length that the guest hands over is checked
//! against the size of its linear memory, and numbers are written into the
//! memory in little-endian order.

use crate::abi::{
    from_channel_status_result, from_oak_status_result, spec_channel_status_code,
    spec_oak_status_code, ChannelStatus, OakStatus,
};
use crate::endian::{le_bytes, le_value, spec_le_bytes, spec_le_value};
use crate::guest::{
    call_guest_alloc, exported_func, exported_memory, host_data, host_data_mut, memory_read,
    memory_size, memory_write, spec_export_func, spec_export_memory, spec_host_state,
    spec_is_func_of, spec_is_memory_of, spec_memory, spec_same_exports, spec_same_memories,
    spec_same_other_memories, spec_written, trap,
};
use crate::logger::Level;
use crate::state::UserState;
use crate::text::decode_text;
use vstd::prelude::*;
use vstd::slice::*;
use vstd::string::*;
use vstd::utf8::*;

verus! {

/// A position in the linear memory of the guest.
pub type AbiPointer = u32;

/// A length in the linear memory of the guest.
pub type AbiPointerOffset = u32;

/// An extension handle as the guest passes it.
pub type AbiExtensionHandle = i32;

/// A channel handle as the guest passes it.
pub type AbiChannelHandle = i32;

/// Whether `len` bytes from `ptr` on lie in a memory.
pub open spec fn spec_in_range(memory: Seq<u8>, ptr: int, len: int) -> bool {
    ptr + len <= memory.len()
}

/// Whether the range from `addr` of length `offset` lies in the linear memory:
/// `ErrInvalidArgs` where it does not.
pub fn validate_range(
    caller: &wasmi::Caller<'_, UserState>,
    memory: &wasmi::Memory,
    addr: AbiPointer,
    offset: AbiPointerOffset,
) -> (valid: Result<(), OakStatus>)
    requires
        spec_is_memory_of(*caller, *memory),
    ensures
        spec_in_range(spec_memory(*caller, *memory), addr as int, offset as int) ==> valid == Ok::<
            (),
            OakStatus,
        >(()),
        !spec_in_range(spec_memory(*caller, *memory), addr as int, offset as int) ==> valid
            == Err::<(), OakStatus>(OakStatus::ErrInvalidArgs),
        spec_memory(*caller, *memory).len() <= usize::MAX,
{
    let size = memory_size(caller, memory);
    if (addr as u64) + (offset as u64) <= size as u64 {
        Ok(())
    } else {
        Err(OakStatus::ErrInvalidArgs)
    }
}

/// Reads the buffer at `buf_ptr` of length `buf_len` from the linear memory. A
/// buffer that does not lie in the memory gives `ErrInvalidArgs`.
pub fn read_buffer(
    caller: &wasmi::Caller<'_, UserState>,
    memory: &wasmi::Memory,
    buf_ptr: AbiPointer,
    buf_len: AbiPointerOffset,
) -> (buffer: Result<Vec<u8>, OakStatus>)
    requires
        spec_is_memory_of(*caller, *memory),
    ensures
        spec_in_range(spec_memory(*caller, *memory), buf_ptr as int, buf_len as int) ==> (
        buffer matches Ok(bytes) && bytes@ == spec_memory(*caller, *memory).subrange(
            buf_ptr as int,
            buf_ptr + buf_len,
        )),
        !spec_in_range(spec_memory(*caller, *memory), buf_ptr as int, buf_len as int) ==> (
        buffer matches Err(status) && status == OakStatus::ErrInvalidArgs),
{
    match validate_range(caller, memory, buf_ptr, buf_len) {
        Ok(()) => {},
        Err(status) => {
            return Err(status);
        },
    }
    match memory_read(caller, memory, buf_ptr as usize, buf_len as usize) {
        Some(bytes) => Ok(bytes),
        None => Err(OakStatus::ErrInvalidArgs),
    }
}

/// Reads the number at `address` from the linear memory.
pub fn read_u32(
    caller: &wasmi::Caller<'_, UserState>,
    memory: &wasmi::Memory,
    address: AbiPointer,
) -> (value: Result<u32, OakStatus>)
    requires
        spec_is_memory_of(*caller, *memory),
    ensures
        spec_in_range(spec_memory(*caller, *memory), address as int, 4) ==> (value matches Ok(v)
            && v == spec_le_value(
            spec_memory(*caller, *memory).subrange(address as int, address + 4),
        )),
        !spec_in_range(spec_memory(*caller, *memory), address as int, 4) ==> (value matches Err(
            status,
        ) && status == OakStatus::ErrInvalidArgs),
{
    match read_buffer(caller, memory, address, 4) {
        Ok(bytes) => {
            assert(bytes@.take(4) =~= bytes@);
            Ok(le_value(bytes.as_slice()))
        },
        Err(status) => Err(status),
    }
}

/// The memory after an attempt to write `bytes` at `at`: with the bytes in
/// place where they fit, else as it was.
pub open spec fn spec_after_write(memory: Seq<u8>, at: int, bytes: Seq<u8>) -> Seq<u8> {
    if spec_in_range(memory, at, bytes.len() as int) {
        spec_written(memory, at, bytes)
    } else {
        memory
    }
}

/// The status of an attempt to write `bytes` at `at`.
pub open spec fn spec_write_status(memory: Seq<u8>, at: int, bytes: Seq<u8>) -> Result<
    (),
    OakStatus,
> {
    if spec_in_range(memory, at, bytes.len() as int) {
        Ok(())
    } else {
        Err(OakStatus::ErrInvalidArgs)
    }
}

/// Whether a guest is as it was but for the bytes of one linear memory.
pub open spec fn spec_only_memory_changed(
    before: wasmi::Caller<'_, UserState>,
    after: wasmi::Caller<'_, UserState>,
    memory: wasmi::Memory,
) -> bool {
    &&& spec_same_other_memories(before, after, memory)
    &&& spec_same_exports(before, after)
    &&& spec_host_state(after) == spec_host_state(before)
    &&& spec_is_memory_of(before, memory) ==> spec_is_memory_of(after, memory)
}

/// Writes the buffer `source` at the address `dest` of the linear memory, if it
/// fits there. A buffer that does not fit gives `ErrInvalidArgs` and leaves
/// the memory as it is.
pub fn write_buffer(
    caller: &mut wasmi::Caller<'_, UserState>,
    memory: &wasmi::Memory,
    source: &[u8],
    dest: AbiPointer,
) -> (written: Result<(), OakStatus>)
    requires
        spec_is_memory_of(*old(caller), *memory),
    ensures
        written == spec_write_status(spec_memory(*old(caller), *memory), dest as int, source@),
        spec_memory(*final(caller), *memory) == spec_after_write(
            spec_memory(*old(caller), *memory),
            dest as int,
            source@,
        ),
        spec_only_memory_changed(*old(caller), *final(caller), *memory),
{
    let size = memory_size(caller, memory);
    if source.len() <= size && dest as usize <= size - source.len() {
        let written = memory_write(caller, memory, dest as usize, source);
        proof {
            lemma_exports_stay(*old(caller), *caller, *memory);
        }
        if written {
            Ok(())
        } else {
            Err(OakStatus::ErrInvalidArgs)
        }
    } else {
        proof {
            lemma_exports_stay(*old(caller), *caller, *memory);
        }
        Err(OakStatus::ErrInvalidArgs)
    }
}

/// A memory that is an export of a guest is one of every later state of the
/// guest that has the same exports.
pub proof fn lemma_exports_stay(
    before: wasmi::Caller<'_, UserState>,
    after: wasmi::Caller<'_, UserState>,
    memory: wasmi::Memory,
)
    requires
        spec_same_exports(before, after),
    ensures
        spec_is_memory_of(before, memory) ==> spec_is_memory_of(after, memory),
{
    if spec_is_memory_of(before, memory) {
        let name = choose|name: Seq<char>| #[trigger]
            spec_export_memory(before, name) == Some(memory);
        assert(spec_export_memory(after, name) == Some(memory));
    }
}

/// Writes the number `value` at the `address` of the linear memory, least
/// significant byte first.
pub fn write_u32(
    caller: &mut wasmi::Caller<'_, UserState>,
    memory: &wasmi::Memory,
    value: u32,
    address: AbiPointer,
) -> (written: Result<(), OakStatus>)
    requires
        spec_is_memory_of(*old(caller), *memory),
    ensures
        written == spec_write_status(
            spec_memory(*old(caller), *memory),
            address as int,
            spec_le_bytes(value),
        ),
        spec_memory(*final(caller), *memory) == spec_after_write(
            spec_memory(*old(caller), *memory),
            address as int,
            spec_le_bytes(value),
        ),
        spec_only_memory_changed(*old(caller), *final(caller), *memory),
{
    let value_bytes = le_bytes(value);
    write_buffer(caller, memory, value_bytes.as_slice(), address)
}

/// Why a host function traps the guest instead of returning a status.
#[derive(Clone, Copy, Debug, PartialEq, Eq, Structural)]
pub enum GuestFault {
    /// The guest exports no linear memory named `memory`.
    MemoryMissing,
    /// The guest exports no function named `alloc`.
    AllocMissing,
    /// The call of `alloc` failed.
    AllocFailed,
    /// The call of `alloc` returned no 32-bit integer.
    AllocResultMissing,
}

/// Outcome of a host function: the status for the guest, or the fault that
/// traps the guest.
pub type HostResult<S> = Result<Result<(), S>, GuestFault>;

/// The status and the memory after a buffer was handed to the guest at
/// `dest_ptr`: the buffer is written at `dest_ptr`, then `dest_ptr` at
/// `dest_ptr_ptr`, then the length of the buffer at `dest_len_ptr`. The first
/// write that does not fit ends the sequence with `ErrInvalidArgs`; what was
/// written before it stays.
pub open spec fn spec_deliver(
    memory: Seq<u8>,
    buffer: Seq<u8>,
    dest_ptr: u32,
    dest_ptr_ptr: u32,
    dest_len_ptr: u32,
) -> (Result<(), OakStatus>, Seq<u8>) {
    let first = spec_after_write(memory, dest_ptr as int, buffer);
    let second = spec_after_write(first, dest_ptr_ptr as int, spec_le_bytes(dest_ptr));
    let third = spec_after_write(
        second,
        dest_len_ptr as int,
        spec_le_bytes(buffer.len() as u32),
    );
    if spec_write_status(memory, dest_ptr as int, buffer) is Err {
        (Err(OakStatus::ErrInvalidArgs), memory)
    } else if spec_write_status(first, dest_ptr_ptr as int, spec_le_bytes(dest_ptr)) is Err {
        (Err(OakStatus::ErrInvalidArgs), first)
    } else if spec_write_status(second, dest_len_ptr as int, spec_le_bytes(buffer.len() as u32))
        is Err {
        (Err(OakStatus::ErrInvalidArgs), second)
    } else {
        (Ok(()), third)
    }
}

/// Hands a buffer to the guest at the address `dest_ptr` that the guest
/// allocated for it: writes the buffer there, the address to `dest_ptr_ptr`
/// and the length of the buffer to `dest_len_ptr`.
pub fn deliver_buffer(
    caller: &mut wasmi::Caller<'_, UserState>,
    memory: &wasmi::Memory,
    buffer: &[u8],
    dest_ptr: AbiPointer,
    dest_ptr_ptr: AbiPointer,
    dest_len_ptr: AbiPointer,
) -> (delivered: Result<(), OakStatus>)
    requires
        spec_is_memory_of(*old(caller), *memory),
        buffer@.len() <= u32::MAX,
    ensures
        (delivered, spec_memory(*final(caller), *memory)) == spec_deliver(
            spec_memory(*old(caller), *memory),
            buffer@,
            dest_ptr,
            dest_ptr_ptr,
            dest_len_ptr,
        ),
        spec_only_memory_changed(*old(caller), *final(caller), *memory),
{
    match write_buffer(caller, memory, buffer, dest_ptr) {
        Ok(()) => {},
        Err(status) => {
            return Err(status);
        },
    }
    match write_u32(caller, memory, dest_ptr, dest_ptr_ptr) {
        Ok(()) => {},
        Err(status) => {
            return Err(status);
        },
    }
    write_u32(caller, memory, buffer.len() as u32, dest_len_ptr)
}

/// A length as the allocator of the guest takes it: the same 32 bits, read with
/// a sign.
pub open spec fn spec_signed(value: u32) -> int {
    if value < 0x8000_0000 {
        value as int
    } else {
        value - 0x1_0000_0000
    }
}

/// An address as the allocator of the guest returns it: the same 32 bits, read
/// without a sign.
pub open spec fn spec_unsigned(value: i32) -> int {
    if value >= 0 {
        value as int
    } else {
        value + 0x1_0000_0000
    }
}

/// Reads the 32 bits of a length with a sign.
pub fn signed(value: u32) -> (bits: i32)
    ensures
        bits == spec_signed(value),
{
    if value < 0x8000_0000 {
        value as i32
    } else {
        ((value - 0x8000_0000) as i32) + i32::MIN
    }
}

/// Reads the 32 bits of an address without a sign.
pub fn unsigned(value: i32) -> (bits: u32)
    ensures
        bits == spec_unsigned(value),
{
    if value >= 0 {
        value as u32
    } else {
        ((value - i32::MIN) as u32) + 0x8000_0000
    }
}

/// Reading 32 bits with a sign and then without gives the number back.
pub proof fn lemma_sign_round_trip(value: u32)
    ensures
        -0x8000_0000 <= spec_signed(value) < 0x8000_0000,
        spec_unsigned(spec_signed(value) as i32) == value,
{
}

/// What a call of the allocator comes to: the address that it returned, or the
/// fault where it returned no 32-bit integer or failed.
pub open spec fn spec_allocated(outcome: Result<Option<i32>, wasmi::Error>) -> Result<
    AbiPointer,
    GuestFault,
> {
    match outcome {
        Ok(Some(address)) => Ok(spec_unsigned(address) as u32),
        Ok(None) => Err(GuestFault::AllocResultMissing),
        Err(_) => Err(GuestFault::AllocFailed),
    }
}

/// Turns what the call of the allocator gave into the address that the guest
/// allocated, or into the fault that traps the guest.
pub fn allocated_address(outcome: Result<Option<i32>, wasmi::Error>) -> (address: Result<
    AbiPointer,
    GuestFault,
>)
    ensures
        address == spec_allocated(outcome),
{
    match outcome {
        Ok(Some(address)) => Ok(unsigned(address)),
        Ok(None) => Err(GuestFault::AllocResultMissing),
        Err(_) => Err(GuestFault::AllocFailed),
    }
}

/// Calls the allocator of the guest for `len` bytes and gives the address that
/// it returns. Lengths and addresses cross the boundary as 32-bit integers
/// whose sign carries no meaning. The guest runs its own code here, so only
/// its exports are known to be as they were.
pub fn call_alloc(caller: &mut wasmi::Caller<'_, UserState>, alloc: &wasmi::Func, len: u32) -> (address:
    Result<AbiPointer, GuestFault>)
    requires
        spec_is_func_of(*old(caller), *alloc),
    ensures
        spec_same_exports(*old(caller), *final(caller)),
        address matches Err(fault) ==> fault == GuestFault::AllocFailed || fault
            == GuestFault::AllocResultMissing,
{
    allocated_address(call_guest_alloc(caller, alloc, signed(len)))
}

/// Whether a memory is what the handing over of a buffer leaves behind: there
/// is an address at which the guest allocated, and a memory that the guest had
/// after allocating, such that delivering the buffer there gives this status
/// and this memory.
pub open spec fn spec_delivered(
    buffer: Seq<u8>,
    dest_ptr_ptr: u32,
    dest_len_ptr: u32,
    status: Result<(), OakStatus>,
    memory: Seq<u8>,
) -> bool {
    exists|allocated: Seq<u8>, dest_ptr: u32| #[trigger]
        spec_deliver(allocated, buffer, dest_ptr, dest_ptr_ptr, dest_len_ptr) == (status, memory)
}

/// After a buffer was handed over, the guest finds the length of the buffer at
/// `dest_len_ptr`, least significant byte first, and its memory is as large as
/// it was after allocating.
pub proof fn lemma_delivered_length(
    buffer: Seq<u8>,
    dest_ptr_ptr: u32,
    dest_len_ptr: u32,
    memory: Seq<u8>,
)
    requires
        buffer.len() <= u32::MAX,
        spec_delivered(buffer, dest_ptr_ptr, dest_len_ptr, Ok(()), memory),
    ensures
        dest_len_ptr + 4 <= memory.len(),
        memory.subrange(dest_len_ptr as int, dest_len_ptr + 4) == spec_le_bytes(
            buffer.len() as u32,
        ),
{
    let (allocated, dest_ptr) = choose|allocated: Seq<u8>, dest_ptr: u32| #[trigger]
        spec_deliver(allocated, buffer, dest_ptr, dest_ptr_ptr, dest_len_ptr) == (
            Ok::<(), OakStatus>(()),
            memory,
        );
    let first = spec_after_write(allocated, dest_ptr as int, buffer);
    let second = spec_after_write(first, dest_ptr_ptr as int, spec_le_bytes(dest_ptr));
    assert(memory == spec_written(
        second,
        dest_len_ptr as int,
        spec_le_bytes(buffer.len() as u32),
    ));
    assert(memory.subrange(dest_len_ptr as int, dest_len_ptr + 4) =~= spec_le_bytes(
        buffer.len() as u32,
    ));
}

/// Hands a buffer to the guest: has the guest allocate memory for it, writes it
/// there, and writes its address to `dest_ptr_ptr` and its length to
/// `dest_len_ptr`. A buffer of 4 GiB or more cannot lie in a linear memory and
/// gives `ErrInvalidArgs` without a call of the allocator.
pub fn alloc_and_write_buffer(
    caller: &mut wasmi::Caller<'_, UserState>,
    memory: &wasmi::Memory,
    alloc: &wasmi::Func,
    buffer: Vec<u8>,
    dest_ptr_ptr: AbiPointer,
    dest_len_ptr: AbiPointer,
) -> (written: HostResult<OakStatus>)
    requires
        spec_is_memory_of(*old(caller), *memory),
        spec_is_func_of(*old(caller), *alloc),
    ensures
        spec_same_exports(*old(caller), *final(caller)),
        buffer@.len() > u32::MAX ==> written == Ok::<Result<(), OakStatus>, GuestFault>(
            Err(OakStatus::ErrInvalidArgs),
        ) && spec_host_state(*final(caller)) == spec_host_state(*old(caller))
            && spec_same_memories(*old(caller), *final(caller)),
        written matches Ok(Err(status)) ==> status == OakStatus::ErrInvalidArgs,
        written matches Err(fault) ==> fault == GuestFault::AllocFailed || fault
            == GuestFault::AllocResultMissing,
        written matches Ok(status) ==> (buffer@.len() <= u32::MAX ==> spec_delivered(
            buffer@,
            dest_ptr_ptr,
            dest_len_ptr,
            status,
            spec_memory(*final(caller), *memory),
        )),
{
    if buffer.len() > 0xffff_ffff {
        return Ok(Err(OakStatus::ErrInvalidArgs));
    }
    let dest_ptr = match call_alloc(caller, alloc, buffer.len() as u32) {
        Ok(address) => address,
        Err(fault) => {
            return Err(fault);
        },
    };
    proof {
        lemma_exports_stay(*old(caller), *caller, *memory);
    }
    let ghost allocated = *caller;
    let delivered = deliver_buffer(
        caller,
        memory,
        buffer.as_slice(),
        dest_ptr,
        dest_ptr_ptr,
        dest_len_ptr,
    );
    proof {
        lemma_same_exports_transitive(*old(caller), allocated, *caller);
        assert(spec_deliver(
            spec_memory(allocated, *memory),
            buffer@,
            dest_ptr,
            dest_ptr_ptr,
            dest_len_ptr,
        ) == (delivered, spec_memory(*caller, *memory)));
    }
    Ok(delivered)
}

/// Having the same exports carries over from state to state.
pub proof fn lemma_same_exports_transitive(
    first: wasmi::Caller<'_, UserState>,
    second: wasmi::Caller<'_, UserState>,
    third: wasmi::Caller<'_, UserState>,
)
    requires
        spec_same_exports(first, second),
        spec_same_exports(second, third),
    ensures
        spec_same_exports(first, third),
{
    assert forall|name: Seq<char>| #[trigger]
        spec_export_memory(third, name) == spec_export_memory(first, name) by {
        assert(spec_export_memory(third, name) == spec_export_memory(second, name));
    }
    assert forall|name: Seq<char>| #[trigger]
        spec_export_func(third, name) == spec_export_func(first, name) by {
        assert(spec_export_func(third, name) == spec_export_func(second, name));
    }
}

/// The linear memory that the host functions read and write: the export of the
/// guest named `memory`.
pub open spec fn spec_guest_memory(caller: wasmi::Caller<'_, UserState>) -> Option<wasmi::Memory> {
    spec_export_memory(caller, "memory"@)
}

/// The allocator that the host functions call: the export of the guest named
/// `alloc`.
pub open spec fn spec_guest_alloc(caller: wasmi::Caller<'_, UserState>) -> Option<wasmi::Func> {
    spec_export_func(caller, "alloc"@)
}

/// The linear memory of the guest, or the fault where it exports none.
pub fn guest_memory(caller: &wasmi::Caller<'_, UserState>) -> (memory: Result<
    wasmi::Memory,
    GuestFault,
>)
    ensures
        match spec_guest_memory(*caller) {
            Some(m) => memory == Ok::<wasmi::Memory, GuestFault>(m) && spec_is_memory_of(
                *caller,
                m,
            ),
            None => memory == Err::<wasmi::Memory, GuestFault>(GuestFault::MemoryMissing),
        },
{
    match exported_memory(caller, "memory") {
        Some(memory) => Ok(memory),
        None => Err(GuestFault::MemoryMissing),
    }
}

/// The allocator of the guest, or the fault where it exports none.
pub fn guest_alloc(caller: &wasmi::Caller<'_, UserState>) -> (alloc: Result<wasmi::Func, GuestFault>)
    ensures
        match spec_guest_alloc(*caller) {
            Some(f) => alloc == Ok::<wasmi::Func, GuestFault>(f) && spec_is_func_of(*caller, f),
            None => alloc == Err::<wasmi::Func, GuestFault>(GuestFault::AllocMissing),
        },
{
    match exported_func(caller, "alloc") {
        Some(alloc) => Ok(alloc),
        None => Err(GuestFault::AllocMissing),
    }
}

/// Whether a guest has kept its memories and what the request state says of
/// the request: the bytes of the request and of the response, and the handles
/// of extensions and channels.
pub open spec fn spec_guest_kept(
    before: wasmi::Caller<'_, UserState>,
    after: wasmi::Caller<'_, UserState>,
) -> bool {
    &&& spec_same_memories(before, after)
    &&& spec_same_but_response(spec_host_state(before), spec_host_state(after))
    &&& spec_host_state(after).spec_response_bytes() == spec_host_state(
        before,
    ).spec_response_bytes()
}

/// Whether a memory is what the handing over of some buffer leaves behind when
/// it succeeds.
pub open spec fn spec_some_delivered(dest_ptr_ptr: u32, dest_len_ptr: u32, memory: Seq<u8>) -> bool {
    exists|buffer: Seq<u8>|
        buffer.len() <= u32::MAX && #[trigger] spec_delivered(
            buffer,
            dest_ptr_ptr,
            dest_len_ptr,
            Ok(()),
            memory,
        )
}

/// Hands the answer of an extension back to the guest: a status with which the
/// extension failed is passed on and the guest is left as it is; the bytes of
/// an answer are handed over in a buffer that the guest allocates.
pub fn hand_back(
    caller: &mut wasmi::Caller<'_, UserState>,
    memory: &wasmi::Memory,
    alloc: &wasmi::Func,
    answer: Result<Vec<u8>, OakStatus>,
    dest_ptr_ptr: AbiPointer,
    dest_len_ptr: AbiPointer,
) -> (handed: HostResult<OakStatus>)
    requires
        spec_is_memory_of(*old(caller), *memory),
        spec_is_func_of(*old(caller), *alloc),
    ensures
        spec_same_exports(*old(caller), *final(caller)),
        answer matches Err(status) ==> handed == Ok::<Result<(), OakStatus>, GuestFault>(
            Err(status),
        ) && *final(caller) == *old(caller),
        answer matches Ok(bytes) ==> {
            &&& bytes@.len() > u32::MAX ==> handed == Ok::<Result<(), OakStatus>, GuestFault>(
                Err(OakStatus::ErrInvalidArgs),
            ) && spec_host_state(*final(caller)) == spec_host_state(*old(caller))
                && spec_same_memories(*old(caller), *final(caller))
            &&& handed matches Ok(Err(status)) ==> status == OakStatus::ErrInvalidArgs
            &&& handed matches Err(fault) ==> fault == GuestFault::AllocFailed || fault
                == GuestFault::AllocResultMissing
            &&& handed matches Ok(status) ==> (bytes@.len() <= u32::MAX ==> spec_delivered(
                bytes@,
                dest_ptr_ptr,
                dest_len_ptr,
                status,
                spec_memory(*final(caller), *memory),
            ))
        },
{
    match answer {
        Ok(bytes) => alloc_and_write_buffer(caller, memory, alloc, bytes, dest_ptr_ptr, dest_len_ptr),
        Err(status) => Ok(Err(status)),
    }
}

/// The host function `read_request`: has the guest allocate a buffer, copies
/// the bytes of the request into it, and stores its address at `dest_ptr_ptr`
/// and its length at `dest_len_ptr`. A guest without an allocator or a memory
/// is trapped and left as it is.
pub fn read_request(
    caller: &mut wasmi::Caller<'_, UserState>,
    dest_ptr_ptr: AbiPointer,
    dest_len_ptr: AbiPointer,
) -> (read: HostResult<OakStatus>)
    ensures
        spec_same_exports(*old(caller), *final(caller)),
        spec_guest_alloc(*old(caller)) is None ==> read == Err::<
            Result<(), OakStatus>,
            GuestFault,
        >(GuestFault::AllocMissing),
        spec_guest_alloc(*old(caller)) is Some && spec_guest_memory(*old(caller)) is None ==> read
            == Err::<Result<(), OakStatus>, GuestFault>(GuestFault::MemoryMissing),
        spec_guest_alloc(*old(caller)) is None || spec_guest_memory(*old(caller)) is None
            ==> *final(caller) == *old(caller),
        spec_guest_alloc(*old(caller)) is Some && spec_guest_memory(*old(caller)) is Some ==> (
        read matches Err(fault) ==> fault == GuestFault::AllocFailed || fault
            == GuestFault::AllocResultMissing),
        read matches Ok(Err(status)) ==> status == OakStatus::ErrInvalidArgs,
        spec_guest_alloc(*old(caller)) is Some && spec_guest_memory(*old(caller)) is Some
            && spec_host_state(*old(caller)).spec_request_bytes().len() > u32::MAX ==> read
            == Ok::<Result<(), OakStatus>, GuestFault>(Err(OakStatus::ErrInvalidArgs))
            && spec_host_state(*final(caller)) == spec_host_state(*old(caller))
            && spec_same_memories(*old(caller), *final(caller)),
        read matches Ok(status) ==> (spec_host_state(*old(caller)).spec_request_bytes().len()
            <= u32::MAX ==> (spec_guest_memory(*old(caller)) matches Some(memory)
            && spec_delivered(
            spec_host_state(*old(caller)).spec_request_bytes(),
            dest_ptr_ptr,
            dest_len_ptr,
            status,
            spec_memory(*final(caller), memory),
        ))),
{
    let alloc = match guest_alloc(caller) {
        Ok(alloc) => alloc,
        Err(fault) => {
            return Err(fault);
        },
    };
    let memory = match guest_memory(caller) {
        Ok(memory) => memory,
        Err(fault) => {
            return Err(fault);
        },
    };
    let request_bytes = slice_to_vec(host_data(caller).request_bytes());
    alloc_and_write_buffer(caller, &memory, &alloc, request_bytes, dest_ptr_ptr, dest_len_ptr)
}

/// Whether a state of a request differs from another at most in the bytes of
/// the response.
pub open spec fn spec_same_but_response(before: UserState, after: UserState) -> bool {
    &&& after.spec_request_bytes() == before.spec_request_bytes()
    &&& after.spec_extension_handles() == before.spec_extension_handles()
    &&& after.spec_extension_codes() == before.spec_extension_codes()
    &&& after.spec_channel_handles() == before.spec_channel_handles()
}

/// The host function `write_response`: reads `buf_len` bytes at `buf_ptr` from
/// the linear memory and makes them the response. What an earlier call wrote
/// is replaced: the last writer wins. A buffer that does not lie in the
/// memory gives `ErrInvalidArgs` and leaves the response as it is. A guest
/// without a memory is trapped.
pub fn write_response(
    caller: &mut wasmi::Caller<'_, UserState>,
    buf_ptr: AbiPointer,
    buf_len: AbiPointerOffset,
) -> (written: HostResult<OakStatus>)
    ensures
        spec_same_exports(*old(caller), *final(caller)),
        spec_same_memories(*old(caller), *final(caller)),
        spec_same_but_response(spec_host_state(*old(caller)), spec_host_state(*final(caller))),
        match spec_guest_memory(*old(caller)) {
            None => written == Err::<Result<(), OakStatus>, GuestFault>(GuestFault::MemoryMissing)
                && spec_host_state(*final(caller)).spec_response_bytes() == spec_host_state(
                *old(caller),
            ).spec_response_bytes(),
            Some(memory) => if spec_in_range(
                spec_memory(*old(caller), memory),
                buf_ptr as int,
                buf_len as int,
            ) {
                written == Ok::<Result<(), OakStatus>, GuestFault>(Ok(())) && spec_host_state(
                    *final(caller),
                ).spec_response_bytes() == spec_memory(*old(caller), memory).subrange(
                    buf_ptr as int,
                    buf_ptr + buf_len,
                )
            } else {
                written == Ok::<Result<(), OakStatus>, GuestFault>(
                    Err(OakStatus::ErrInvalidArgs),
                ) && spec_host_state(*final(caller)).spec_response_bytes() == spec_host_state(
                    *old(caller),
                ).spec_response_bytes()
            },
        },
{
    let memory = match guest_memory(caller) {
        Ok(memory) => memory,
        Err(fault) => {
            return Err(fault);
        },
    };
    let response = match read_buffer(caller, &memory, buf_ptr, buf_len) {
        Ok(bytes) => bytes,
        Err(status) => {
            return Ok(Err(status));
        },
    };
    let state = host_data_mut(caller);
    state.set_response_bytes(response);
    Ok(Ok(()))
}

/// The line that the host logs for a message of the guest.
pub open spec fn spec_guest_log_line(message: Seq<char>) -> Seq<char> {
    "[Wasm] "@ + message
}

/// Writes the line that the host logs for a message of the guest.
pub fn guest_log_line(message: &str) -> (line: String)
    ensures
        line@ == spec_guest_log_line(message@),
{
    let mut line = String::from_str("[Wasm] ");
    line.append(message);
    line
}

/// The host function `write_log_message`: reads `buf_len` bytes at `buf_ptr`
/// from the linear memory and logs them as a line that may hold sensitive
/// data. Bytes that do not lie in the memory, or that are not valid UTF-8,
/// give `ErrInvalidArgs`. A guest without a memory is trapped. Nothing of the
/// guest changes.
pub fn write_log_message(
    caller: &mut wasmi::Caller<'_, UserState>,
    buf_ptr: AbiPointer,
    buf_len: AbiPointerOffset,
) -> (logged: HostResult<OakStatus>)
    ensures
        *final(caller) == *old(caller),
        match spec_guest_memory(*old(caller)) {
            None => logged == Err::<Result<(), OakStatus>, GuestFault>(GuestFault::MemoryMissing),
            Some(memory) => if spec_in_range(
                spec_memory(*old(caller), memory),
                buf_ptr as int,
                buf_len as int,
            ) && valid_utf8(
                spec_memory(*old(caller), memory).subrange(buf_ptr as int, buf_ptr + buf_len),
            ) {
                logged == Ok::<Result<(), OakStatus>, GuestFault>(Ok(()))
            } else {
                logged == Ok::<Result<(), OakStatus>, GuestFault>(Err(OakStatus::ErrInvalidArgs))
            },
        },
{
    let memory = match guest_memory(caller) {
        Ok(memory) => memory,
        Err(fault) => {
            return Err(fault);
        },
    };
    let raw_log = match read_buffer(caller, &memory, buf_ptr, buf_len) {
        Ok(bytes) => bytes,
        Err(status) => {
            host_data(caller).log_sensitive(
                Level::Error,
                "write_log_message(): Unable to read message from guest memory",
            );
            return Ok(Err(status));
        },
    };
    match decode_text(raw_log.as_slice()) {
        Some(log_message) => {
            host_data(caller).log_sensitive(
                Level::Debug,
                guest_log_line(log_message.as_str()).as_str(),
            );
            Ok(Ok(()))
        },
        None => {
            host_data(caller).log_sensitive(
                Level::Warn,
                "write_log_message(): Not a valid UTF-8 encoded string",
            );
            Ok(Err(OakStatus::ErrInvalidArgs))
        },
    }
}

/// The host function `invoke`: reads the request of the guest from its memory,
/// hands it to the extension that the handle names, and hands the answer of the
/// extension back in a buffer that the guest allocates. A request that does
/// not lie in the memory gives `ErrInvalidArgs`, a handle without an extension
/// `ErrInvalidHandle`; in both cases the guest is left as it is. A status with
/// which the extension fails is passed on. Success means that the request lay
/// in the memory, that the handle named an extension, and that an answer was
/// handed over. A guest without an allocator or a memory is trapped and left
/// as it is.
pub fn invoke_extension(
    caller: &mut wasmi::Caller<'_, UserState>,
    handle: AbiExtensionHandle,
    request_ptr: AbiPointer,
    request_len: AbiPointerOffset,
    response_ptr_ptr: AbiPointer,
    response_len_ptr: AbiPointer,
) -> (invoked: HostResult<OakStatus>)
    ensures
        spec_same_exports(*old(caller), *final(caller)),
        spec_guest_alloc(*old(caller)) is None ==> invoked == Err::<
            Result<(), OakStatus>,
            GuestFault,
        >(GuestFault::AllocMissing),
        spec_guest_alloc(*old(caller)) is Some && spec_guest_memory(*old(caller)) is None
            ==> invoked == Err::<Result<(), OakStatus>, GuestFault>(GuestFault::MemoryMissing),
        spec_guest_alloc(*old(caller)) is None || spec_guest_memory(*old(caller)) is None
            ==> *final(caller) == *old(caller),
        spec_guest_alloc(*old(caller)) is Some ==> (spec_guest_memory(*old(caller)) matches Some(
            memory,
        ) ==> {
            &&& invoked == Ok::<Result<(), OakStatus>, GuestFault>(Ok(())) ==> spec_in_range(
                spec_memory(*old(caller), memory),
                request_ptr as int,
                request_len as int,
            ) && spec_host_state(*old(caller)).spec_has_extension(handle as int)
                && spec_some_delivered(
                response_ptr_ptr,
                response_len_ptr,
                spec_memory(*final(caller), memory),
            )
            &&& !spec_in_range(
                spec_memory(*old(caller), memory),
                request_ptr as int,
                request_len as int,
            ) ==> invoked == Ok::<Result<(), OakStatus>, GuestFault>(
                Err(OakStatus::ErrInvalidArgs),
            ) && *final(caller) == *old(caller)
            &&& spec_in_range(
                spec_memory(*old(caller), memory),
                request_ptr as int,
                request_len as int,
            ) && !spec_host_state(*old(caller)).spec_has_extension(handle as int) ==> invoked
                == Ok::<Result<(), OakStatus>, GuestFault>(Err(OakStatus::ErrInvalidHandle))
                && spec_same_memories(*old(caller), *final(caller)) && spec_same_but_response(
                spec_host_state(*old(caller)),
                spec_host_state(*final(caller)),
            ) && spec_host_state(*final(caller)).spec_response_bytes() == spec_host_state(
                *old(caller),
            ).spec_response_bytes()
            &&& invoked matches Err(fault) ==> fault == GuestFault::AllocFailed || fault
                == GuestFault::AllocResultMissing
        }),
{
    let alloc = match guest_alloc(caller) {
        Ok(alloc) => alloc,
        Err(fault) => {
            return Err(fault);
        },
    };
    let memory = match guest_memory(caller) {
        Ok(memory) => memory,
        Err(fault) => {
            return Err(fault);
        },
    };
    let request = match read_buffer(caller, &memory, request_ptr, request_len) {
        Ok(bytes) => bytes,
        Err(status) => {
            return Ok(Err(status));
        },
    };
    let state = host_data_mut(caller);
    let answer = match state.get_extension(handle) {
        Ok(extension) => extension.invoke(request),
        Err(status) => {
            return Ok(Err(status));
        },
    };
    proof {
        lemma_exports_stay(*old(caller), *caller, memory);
        lemma_funcs_stay(*old(caller), *caller, alloc);
    }
    let ghost invoked = *caller;
    let handed = hand_back(caller, &memory, &alloc, answer, response_ptr_ptr, response_len_ptr);
    proof {
        lemma_same_exports_transitive(*old(caller), invoked, *caller);
    }
    handed
}

/// A function that is an export of a guest is one of every later state of the
/// guest that has the same exports.
pub proof fn lemma_funcs_stay(
    before: wasmi::Caller<'_, UserState>,
    after: wasmi::Caller<'_, UserState>,
    func: wasmi::Func,
)
    requires
        spec_same_exports(before, after),
    ensures
        spec_is_func_of(before, func) ==> spec_is_func_of(after, func),
{
    if spec_is_func_of(before, func) {
        let name = choose|name: Seq<char>| #[trigger]
            spec_export_func(before, name) == Some(func);
        assert(spec_export_func(after, name) == Some(func));
    }
}

/// The host function `channel_read`: takes the next message from the channel
/// that the handle names, without waiting, and hands it to the guest in a
/// buffer that the guest allocates. A handle without a channel gives
/// `ChannelHandleInvalid`, and nothing else gives it. A channel without a
/// message gives `ChannelEmpty`, or `ChannelEndpointDisconnected` where no
/// sender is left; in these three cases the allocator is not called, and the
/// memories of the guest and the request, the response and the handles stay
/// as they are. A place for the address or the length that does not lie in
/// the memory gives `ChannelInvalidArgs`. Success means that a message was
/// handed over. A guest without an allocator or a memory is trapped and left
/// as it is.
pub fn channel_read(
    caller: &mut wasmi::Caller<'_, UserState>,
    channel_handle: AbiChannelHandle,
    dest_ptr_ptr: AbiPointer,
    dest_len_ptr: AbiPointer,
) -> (read: HostResult<ChannelStatus>)
    ensures
        spec_same_exports(*old(caller), *final(caller)),
        spec_guest_alloc(*old(caller)) is None ==> read == Err::<
            Result<(), ChannelStatus>,
            GuestFault,
        >(GuestFault::AllocMissing),
        spec_guest_alloc(*old(caller)) is Some && spec_guest_memory(*old(caller)) is None ==> read
            == Err::<Result<(), ChannelStatus>, GuestFault>(GuestFault::MemoryMissing),
        spec_guest_alloc(*old(caller)) is None || spec_guest_memory(*old(caller)) is None
            ==> *final(caller) == *old(caller),
        read matches Ok(Err(status)) ==> (status != ChannelStatus::ChannelInvalidArgs
            ==> spec_guest_kept(*old(caller), *final(caller))),
        read == Ok::<Result<(), ChannelStatus>, GuestFault>(Ok(())) ==> (spec_guest_memory(
            *old(caller),
        ) matches Some(memory) && spec_some_delivered(
            dest_ptr_ptr,
            dest_len_ptr,
            spec_memory(*final(caller), memory),
        )),
        spec_guest_alloc(*old(caller)) is Some && spec_guest_memory(*old(caller)) is Some ==> {
            &&& !spec_host_state(*old(caller)).spec_has_channel(channel_handle as int) <==> read
                == Ok::<Result<(), ChannelStatus>, GuestFault>(
                Err(ChannelStatus::ChannelHandleInvalid),
            )
            &&& read matches Ok(Err(status)) ==> status == ChannelStatus::ChannelHandleInvalid
                || status == ChannelStatus::ChannelEmpty || status
                == ChannelStatus::ChannelEndpointDisconnected || status
                == ChannelStatus::ChannelInvalidArgs
            &&& read matches Err(fault) ==> fault == GuestFault::AllocFailed || fault
                == GuestFault::AllocResultMissing
        },
{
    let alloc = match guest_alloc(caller) {
        Ok(alloc) => alloc,
        Err(fault) => {
            return Err(fault);
        },
    };
    let memory = match guest_memory(caller) {
        Ok(memory) => memory,
        Err(fault) => {
            return Err(fault);
        },
    };
    let state = host_data_mut(caller);
    let message = match state.channel_try_recv(channel_handle) {
        Ok(message) => message,
        Err(status) => {
            return Ok(Err(status));
        },
    };
    proof {
        lemma_exports_stay(*old(caller), *caller, memory);
        lemma_funcs_stay(*old(caller), *caller, alloc);
    }
    let ghost received = *caller;
    let ghost taken = message@;
    let written = alloc_and_write_buffer(
        caller,
        &memory,
        &alloc,
        message,
        dest_ptr_ptr,
        dest_len_ptr,
    );
    proof {
        lemma_same_exports_transitive(*old(caller), received, *caller);
        if written == Ok::<Result<(), OakStatus>, GuestFault>(Ok(())) {
            assert(taken.len() <= u32::MAX);
            assert(spec_delivered(
                taken,
                dest_ptr_ptr,
                dest_len_ptr,
                Ok(()),
                spec_memory(*caller, memory),
            ));
        }
    }
    match written {
        Ok(Ok(())) => Ok(Ok(())),
        Ok(Err(_)) => Ok(Err(ChannelStatus::ChannelInvalidArgs)),
        Err(fault) => Err(fault),
    }
}

/// The host function `channel_write`: reads a message of `src_buf_len` bytes
/// at `src_buf_ptr` from the linear memory and sends it on the channel that
/// the handle names, without waiting. A message that does not lie in the
/// memory gives `ChannelInvalidArgs`. Otherwise a handle without a channel
/// gives `ChannelHandleInvalid`, and nothing else gives it; a channel that
/// holds as many messages as it can gives `ChannelFull`, one whose receiver is
/// closed `ChannelEndpointClosed`. A guest without a memory is trapped. The
/// guest is left as it is.
pub fn channel_write(
    caller: &mut wasmi::Caller<'_, UserState>,
    channel_handle: AbiChannelHandle,
    src_buf_ptr: AbiPointer,
    src_buf_len: AbiPointerOffset,
) -> (written: HostResult<ChannelStatus>)
    ensures
        *final(caller) == *old(caller),
        match spec_guest_memory(*old(caller)) {
            None => written == Err::<Result<(), ChannelStatus>, GuestFault>(
                GuestFault::MemoryMissing,
            ),
            Some(memory) => if spec_in_range(
                spec_memory(*old(caller), memory),
                src_buf_ptr as int,
                src_buf_len as int,
            ) {
                &&& written is Ok
                &&& !spec_host_state(*old(caller)).spec_has_channel(channel_handle as int)
                    <==> written == Ok::<Result<(), ChannelStatus>, GuestFault>(
                    Err(ChannelStatus::ChannelHandleInvalid),
                )
                &&& written matches Ok(Err(status)) ==> status
                    == ChannelStatus::ChannelHandleInvalid || status == ChannelStatus::ChannelFull
                    || status == ChannelStatus::ChannelEndpointClosed
            } else {
                written == Ok::<Result<(), ChannelStatus>, GuestFault>(
                    Err(ChannelStatus::ChannelInvalidArgs),
                )
            },
        },
{
    let memory = match guest_memory(caller) {
        Ok(memory) => memory,
        Err(fault) => {
            return Err(fault);
        },
    };
    let message = match read_buffer(caller, &memory, src_buf_ptr, src_buf_len) {
        Ok(bytes) => bytes,
        Err(_) => {
            return Ok(Err(ChannelStatus::ChannelInvalidArgs));
        },
    };
    Ok(host_data(caller).channel_send(channel_handle, message))
}

/// What the log says of a fault that traps the guest.
pub open spec fn spec_fault_message(fault: GuestFault) -> Seq<char> {
    match fault {
        GuestFault::MemoryMissing => "the guest exports no memory"@,
        GuestFault::AllocMissing => "the guest exports no `alloc` function"@,
        GuestFault::AllocFailed => "`alloc` call failed"@,
        GuestFault::AllocResultMissing => "no value returned from `alloc`"@,
    }
}

/// Writes what the log says of a fault that traps the guest.
pub fn fault_message(fault: GuestFault) -> (message: &'static str)
    ensures
        message@ == spec_fault_message(fault),
{
    match fault {
        GuestFault::MemoryMissing => "the guest exports no memory",
        GuestFault::AllocMissing => "the guest exports no `alloc` function",
        GuestFault::AllocFailed => "`alloc` call failed",
        GuestFault::AllocResultMissing => "no value returned from `alloc`",
    }
}

/// Turns the outcome of a host function into what the engine takes back: the
/// status code for the guest, or the error that traps the guest.
pub fn oak_outcome(result: HostResult<OakStatus>) -> (outcome: Result<i32, wasmi::Error>)
    ensures
        result matches Ok(status) ==> (outcome matches Ok(code) && code == spec_oak_status_code(
            status,
        )),
        result is Err ==> outcome is Err,
{
    match result {
        Ok(status) => Ok(from_oak_status_result(status)),
        Err(fault) => Err(trap(fault_message(fault))),
    }
}

/// Turns the outcome of a channel function into what the engine takes back:
/// the status code for the guest, or the error that traps the guest.
pub fn channel_outcome(result: HostResult<ChannelStatus>) -> (outcome: Result<i32, wasmi::Error>)
    ensures
        result matches Ok(status) ==> (outcome matches Ok(code) && code
            == spec_channel_status_code(status)),
        result is Err ==> outcome is Err,
{
    match result {
        Ok(status) => Ok(from_channel_status_result(status)),
        Err(fault) => Err(trap(fault_message(fault))),
    }
}

/// Whether a host function hands the guest the given status code.
pub open spec fn spec_returns(outcome: Result<i32, wasmi::Error>, code: int) -> bool {
    outcome matches Ok(c) && c == code
}

/// `read_request` as the engine calls it. A guest without an allocator or a
/// memory is trapped. A request of 4 GiB or more cannot be handed over and
/// gives `ErrInvalidArgs` without a call of the allocator; for every other
/// request the allocator of the guest decides between a trap and a status.
pub fn host_read_request(
    caller: wasmi::Caller<'_, UserState>,
    dest_ptr_ptr: AbiPointer,
    dest_len_ptr: AbiPointer,
) -> (outcome: Result<i32, wasmi::Error>)
    ensures
        spec_guest_alloc(caller) is None || spec_guest_memory(caller) is None ==> outcome is Err,
        outcome matches Ok(code) ==> code == OakStatus::Success.spec_code() || code
            == OakStatus::ErrInvalidArgs.spec_code(),
        spec_guest_alloc(caller) is Some && spec_guest_memory(caller) is Some
            && spec_host_state(caller).spec_request_bytes().len() > u32::MAX ==> spec_returns(
            outcome,
            OakStatus::ErrInvalidArgs.spec_code(),
        ),
{
    let mut caller = caller;
    oak_outcome(read_request(&mut caller, dest_ptr_ptr, dest_len_ptr))
}

/// `write_response` as the engine calls it.
pub fn host_write_response(
    caller: wasmi::Caller<'_, UserState>,
    buf_ptr: AbiPointer,
    buf_len: AbiPointerOffset,
) -> (outcome: Result<i32, wasmi::Error>)
    ensures
        match spec_guest_memory(caller) {
            None => outcome is Err,
            Some(memory) => outcome matches Ok(code) && code == spec_oak_status_code(
                spec_write_status(
                    spec_memory(caller, memory),
                    buf_ptr as int,
                    Seq::new(buf_len as nat, |i: int| 0u8),
                ),
            ),
        },
{
    let mut caller = caller;
    oak_outcome(write_response(&mut caller, buf_ptr, buf_len))
}

/// `write_log_message` as the engine calls it.
pub fn host_write_log_message(
    caller: wasmi::Caller<'_, UserState>,
    buf_ptr: AbiPointer,
    buf_len: AbiPointerOffset,
) -> (outcome: Result<i32, wasmi::Error>)
    ensures
        match spec_guest_memory(caller) {
            None => outcome is Err,
            Some(memory) => outcome matches Ok(code) && (code == OakStatus::Success.spec_code()
                <==> spec_in_range(spec_memory(caller, memory), buf_ptr as int, buf_len as int)
                && valid_utf8(
                spec_memory(caller, memory).subrange(buf_ptr as int, buf_ptr + buf_len),
            )) && (code == OakStatus::Success.spec_code() || code
                == OakStatus::ErrInvalidArgs.spec_code()),
        },
{
    let mut caller = caller;
    oak_outcome(write_log_message(&mut caller, buf_ptr, buf_len))
}

/// `invoke` as the engine calls it. A guest without an allocator or a memory
/// is trapped. Every other guest gets `ErrInvalidArgs` for a request that does
/// not lie in its memory, and `ErrInvalidHandle` for a request that does and a
/// handle without an extension. A status that it gets is `Success`,
/// `ErrInvalidHandle` or `ErrInvalidArgs`, and `Success` only where the request
/// lay in the memory and the handle named an extension.
pub fn host_invoke(
    caller: wasmi::Caller<'_, UserState>,
    handle: AbiExtensionHandle,
    request_ptr: AbiPointer,
    request_len: AbiPointerOffset,
    response_ptr_ptr: AbiPointer,
    response_len_ptr: AbiPointer,
) -> (outcome: Result<i32, wasmi::Error>)
    ensures
        spec_guest_alloc(caller) is None || spec_guest_memory(caller) is None ==> outcome is Err,
        spec_guest_alloc(caller) is Some ==> (spec_guest_memory(caller) matches Some(memory) ==> {
            &&& !spec_in_range(
                spec_memory(caller, memory),
                request_ptr as int,
                request_len as int,
            ) ==> spec_returns(outcome, OakStatus::ErrInvalidArgs.spec_code())
            &&& spec_in_range(spec_memory(caller, memory), request_ptr as int, request_len as int)
                && !spec_host_state(caller).spec_has_extension(handle as int)
                ==> spec_returns(outcome, OakStatus::ErrInvalidHandle.spec_code())
            &&& spec_returns(outcome, OakStatus::Success.spec_code()) ==> spec_in_range(
                spec_memory(caller, memory),
                request_ptr as int,
                request_len as int,
            ) && spec_host_state(caller).spec_has_extension(handle as int)
            &&& outcome matches Ok(code) ==> code == OakStatus::Success.spec_code() || code
                == OakStatus::ErrInvalidHandle.spec_code() || code
                == OakStatus::ErrInvalidArgs.spec_code()
        }),
{
    let mut caller = caller;
    oak_outcome(
        invoke_extension(
            &mut caller,
            handle,
            request_ptr,
            request_len,
            response_ptr_ptr,
            response_len_ptr,
        ),
    )
}

/// `channel_read` as the engine calls it. A guest without an allocator or a
/// memory is trapped. Every other guest gets `ChannelHandleInvalid` exactly
/// for a handle without a channel. A status that it gets is `ChannelOk`,
/// `ChannelHandleInvalid`, `ChannelEmpty`, `ChannelEndpointDisconnected` or
/// `ChannelInvalidArgs`.
pub fn host_channel_read(
    caller: wasmi::Caller<'_, UserState>,
    channel_handle: AbiChannelHandle,
    dest_ptr_ptr: AbiPointer,
    dest_len_ptr: AbiPointer,
) -> (outcome: Result<i32, wasmi::Error>)
    ensures
        spec_guest_alloc(caller) is None || spec_guest_memory(caller) is None ==> outcome is Err,
        spec_guest_alloc(caller) is Some && spec_guest_memory(caller) is Some ==> {
            &&& !spec_host_state(caller).spec_has_channel(channel_handle as int) <==> spec_returns(
                outcome,
                ChannelStatus::ChannelHandleInvalid.spec_code(),
            )
            &&& outcome matches Ok(code) ==> code == ChannelStatus::ChannelOk.spec_code() || code
                == ChannelStatus::ChannelHandleInvalid.spec_code() || code
                == ChannelStatus::ChannelEmpty.spec_code() || code
                == ChannelStatus::ChannelEndpointDisconnected.spec_code() || code
                == ChannelStatus::ChannelInvalidArgs.spec_code()
        },
{
    let mut caller = caller;
    channel_outcome(channel_read(&mut caller, channel_handle, dest_ptr_ptr, dest_len_ptr))
}

/// `channel_write` as the engine calls it.
pub fn host_channel_write(
    caller: wasmi::Caller<'_, UserState>,
    channel_handle: AbiChannelHandle,
    src_buf_ptr: AbiPointer,
    src_buf_len: AbiPointerOffset,
) -> (outcome: Result<i32, wasmi::Error>)
    ensures
        match spec_guest_memory(caller) {
            None => outcome is Err,
            Some(memory) => outcome matches Ok(code) && if spec_in_range(
                spec_memory(caller, memory),
                src_buf_ptr as int,
                src_buf_len as int,
            ) {
                code == ChannelStatus::ChannelHandleInvalid.spec_code() <==> !spec_host_state(
                    caller,
                ).spec_has_channel(channel_handle as int)
            } else {
                code == ChannelStatus::ChannelInvalidArgs.spec_code()
            },
        },
{
    let mut caller = caller;
    channel_outcome(channel_write(&mut caller, channel_handle, src_buf_ptr, src_buf_len))
}

} // verus!
