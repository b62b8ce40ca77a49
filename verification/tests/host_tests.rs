use oak_functions::abi::OakStatus;
use oak_functions::channel::ChannelSwitchboard;
use oak_functions::host::{
    alloc_and_write_buffer, allocated_address, call_alloc, deliver_buffer, guest_alloc, hand_back,
    guest_memory, read_buffer, read_u32, signed, unsigned, validate_range, write_buffer,
    write_u32, GuestFault,
};
use oak_functions::logger::{Level, OakLogger};
use oak_functions::state::{ExtensionTable, UserState};

struct NoLogger {}

impl OakLogger for NoLogger {
    fn log_sensitive(&self, _level: Level, _message: &str) {}

    fn log_public(&self, _level: Level, _message: &str) {}
}

/// A guest with one page of memory and an allocator that hands out memory from
/// address 1024 on, in a store of its own.
fn guest() -> (wasmi::Store<UserState>, wasmi::Memory, wasmi::Func) {
    let bytes = wat::parse_str(
        r#"(module
  (memory (export "memory") 1)
  (global $next (mut i32) (i32.const 1024))
  (func (export "alloc") (param $len i32) (result i32)
    (local $ptr i32)
    (local.set $ptr (global.get $next))
    (global.set $next (i32.add (global.get $next) (local.get $len)))
    (local.get $ptr))
  (func (export "main")))"#,
    )
    .unwrap();
    let engine = wasmi::Engine::default();
    let module = wasmi::Module::new(&engine, &bytes[..]).unwrap();
    let state = UserState::init(
        b"request".to_vec(),
        ExtensionTable::new(),
        ChannelSwitchboard::new(),
        vec![],
        Box::new(NoLogger {}),
    );
    let mut store = wasmi::Store::new(&engine, state);
    let linker = wasmi::Linker::<UserState>::new(&engine);
    let instance = linker
        .instantiate(&mut store, &module)
        .unwrap()
        .ensure_no_start(&mut store)
        .unwrap();
    let memory = instance.get_memory(&store, "memory").unwrap();
    let alloc = instance.get_func(&store, "alloc").unwrap();
    (store, memory, alloc)
}

const PAGE: u32 = 65536;

#[test]
fn test_validate_range() {
    let (mut store, memory, _) = guest();
    let caller = wasmi::Caller::from(&mut store);
    assert_eq!(validate_range(&caller, &memory, 0, 0), Ok(()));
    assert_eq!(validate_range(&caller, &memory, 0, PAGE), Ok(()));
    assert_eq!(validate_range(&caller, &memory, PAGE, 0), Ok(()));
    assert_eq!(validate_range(&caller, &memory, PAGE - 1, 1), Ok(()));
    assert_eq!(validate_range(&caller, &memory, PAGE - 1, 2), Err(OakStatus::ErrInvalidArgs));
    assert_eq!(validate_range(&caller, &memory, PAGE + 1, 0), Err(OakStatus::ErrInvalidArgs));
    assert_eq!(
        validate_range(&caller, &memory, u32::MAX, u32::MAX),
        Err(OakStatus::ErrInvalidArgs)
    );
}

#[test]
fn test_write_and_read_buffer() {
    let (mut store, memory, _) = guest();
    let mut caller = wasmi::Caller::from(&mut store);
    assert_eq!(read_buffer(&caller, &memory, 10, 3), Ok(vec![0, 0, 0]));
    assert_eq!(write_buffer(&mut caller, &memory, &[1, 2, 3], 10), Ok(()));
    assert_eq!(read_buffer(&caller, &memory, 9, 5), Ok(vec![0, 1, 2, 3, 0]));
    assert_eq!(read_buffer(&caller, &memory, 11, 0), Ok(vec![]));

    // At the end of the memory.
    assert_eq!(write_buffer(&mut caller, &memory, &[7, 8], PAGE - 2), Ok(()));
    assert_eq!(read_buffer(&caller, &memory, PAGE - 2, 2), Ok(vec![7, 8]));
    assert_eq!(write_buffer(&mut caller, &memory, &[], PAGE), Ok(()));

    // Beyond it: nothing is written.
    assert_eq!(
        write_buffer(&mut caller, &memory, &[9, 9], PAGE - 1),
        Err(OakStatus::ErrInvalidArgs)
    );
    assert_eq!(read_buffer(&caller, &memory, PAGE - 2, 2), Ok(vec![7, 8]));
    assert_eq!(read_buffer(&caller, &memory, PAGE - 1, 2), Err(OakStatus::ErrInvalidArgs));
    assert_eq!(read_buffer(&caller, &memory, u32::MAX, 1), Err(OakStatus::ErrInvalidArgs));
}

#[test]
fn test_numbers_are_little_endian() {
    let (mut store, memory, _) = guest();
    let mut caller = wasmi::Caller::from(&mut store);
    assert_eq!(write_u32(&mut caller, &memory, 0x0102_0304, 20), Ok(()));
    assert_eq!(read_buffer(&caller, &memory, 20, 4), Ok(vec![4, 3, 2, 1]));
    assert_eq!(read_u32(&caller, &memory, 20), Ok(0x0102_0304));
    assert_eq!(write_buffer(&mut caller, &memory, &[0xff, 0, 0, 0x80], 24), Ok(()));
    assert_eq!(read_u32(&caller, &memory, 24), Ok(0x8000_00ff));
    assert_eq!(write_u32(&mut caller, &memory, u32::MAX, PAGE - 4), Ok(()));
    assert_eq!(read_u32(&caller, &memory, PAGE - 4), Ok(u32::MAX));
    assert_eq!(write_u32(&mut caller, &memory, 1, PAGE - 3), Err(OakStatus::ErrInvalidArgs));
    assert_eq!(read_u32(&caller, &memory, PAGE - 3), Err(OakStatus::ErrInvalidArgs));
}

#[test]
fn test_deliver_buffer() {
    let (mut store, memory, _) = guest();
    let mut caller = wasmi::Caller::from(&mut store);
    assert_eq!(deliver_buffer(&mut caller, &memory, &[5, 6, 7], 100, 8, 12), Ok(()));
    assert_eq!(read_buffer(&caller, &memory, 100, 3), Ok(vec![5, 6, 7]));
    assert_eq!(read_u32(&caller, &memory, 8), Ok(100));
    assert_eq!(read_u32(&caller, &memory, 12), Ok(3));

    // The place for the length does not lie in the memory: what was written
    // before stays.
    assert_eq!(
        deliver_buffer(&mut caller, &memory, &[9], 200, 16, PAGE - 3),
        Err(OakStatus::ErrInvalidArgs)
    );
    assert_eq!(read_buffer(&caller, &memory, 200, 1), Ok(vec![9]));
    assert_eq!(read_u32(&caller, &memory, 16), Ok(200));

    // The place for the address does not: only the buffer is written.
    assert_eq!(
        deliver_buffer(&mut caller, &memory, &[4], 300, PAGE, 20),
        Err(OakStatus::ErrInvalidArgs)
    );
    assert_eq!(read_buffer(&caller, &memory, 300, 1), Ok(vec![4]));
    assert_eq!(read_u32(&caller, &memory, 20), Ok(0));

    // The buffer does not: nothing is written.
    assert_eq!(
        deliver_buffer(&mut caller, &memory, &[1, 1], PAGE - 1, 24, 28),
        Err(OakStatus::ErrInvalidArgs)
    );
    assert_eq!(read_u32(&caller, &memory, 24), Ok(0));

    // A later write may overwrite an earlier one.
    assert_eq!(deliver_buffer(&mut caller, &memory, &[1, 2, 3, 4, 5, 6, 7, 8], 400, 400, 404), Ok(()));
    assert_eq!(read_u32(&caller, &memory, 400), Ok(400));
    assert_eq!(read_u32(&caller, &memory, 404), Ok(8));
}

#[test]
fn test_alloc_and_write_buffer() {
    let (mut store, memory, alloc) = guest();
    let mut caller = wasmi::Caller::from(&mut store);
    assert_eq!(call_alloc(&mut caller, &alloc, 16), Ok(1024));
    assert_eq!(call_alloc(&mut caller, &alloc, 0), Ok(1040));
    assert_eq!(
        alloc_and_write_buffer(&mut caller, &memory, &alloc, vec![3, 2, 1], 0, 4),
        Ok(Ok(()))
    );
    assert_eq!(read_u32(&caller, &memory, 0), Ok(1040));
    assert_eq!(read_u32(&caller, &memory, 4), Ok(3));
    assert_eq!(read_buffer(&caller, &memory, 1040, 3), Ok(vec![3, 2, 1]));
    assert_eq!(
        alloc_and_write_buffer(&mut caller, &memory, &alloc, vec![1], PAGE, 4),
        Ok(Err(OakStatus::ErrInvalidArgs))
    );
}

#[test]
fn test_caller_from_the_host_side_has_no_exports() {
    let (mut store, _, _) = guest();
    let caller = wasmi::Caller::from(&mut store);
    assert!(matches!(guest_memory(&caller), Err(GuestFault::MemoryMissing)));
    assert!(matches!(guest_alloc(&caller), Err(GuestFault::AllocMissing)));
}

#[test]
fn test_lengths_and_addresses_keep_their_bits() {
    assert_eq!(signed(0), 0);
    assert_eq!(signed(1), 1);
    assert_eq!(signed(0x7fff_ffff), i32::MAX);
    assert_eq!(signed(0x8000_0000), i32::MIN);
    assert_eq!(signed(u32::MAX), -1);
    assert_eq!(unsigned(0), 0);
    assert_eq!(unsigned(i32::MAX), 0x7fff_ffff);
    assert_eq!(unsigned(i32::MIN), 0x8000_0000);
    assert_eq!(unsigned(-1), u32::MAX);
    for value in [0u32, 5, 0x7fff_ffff, 0x8000_0000, 0xdead_beef, u32::MAX] {
        assert_eq!(unsigned(signed(value)), value);
        assert_eq!(signed(value), value as i32);
    }
}

#[test]
fn test_allocated_address() {
    assert_eq!(allocated_address(Ok(Some(1024))), Ok(1024));
    assert_eq!(allocated_address(Ok(Some(-1))), Ok(u32::MAX));
    assert_eq!(allocated_address(Ok(None)), Err(GuestFault::AllocResultMissing));
    assert_eq!(
        allocated_address(Err(wasmi::Error::new("trapped"))),
        Err(GuestFault::AllocFailed)
    );
}

#[test]
fn test_alloc_takes_large_lengths_as_they_are() {
    // A guest whose allocator hands its argument back.
    let bytes = wat::parse_str(
        r#"(module
  (memory (export "memory") 1)
  (func (export "alloc") (param $len i32) (result i32) (local.get $len))
  (func (export "main")))"#,
    )
    .unwrap();
    let engine = wasmi::Engine::default();
    let module = wasmi::Module::new(&engine, &bytes[..]).unwrap();
    let state = UserState::init(
        vec![],
        ExtensionTable::new(),
        ChannelSwitchboard::new(),
        vec![],
        Box::new(NoLogger {}),
    );
    let mut store = wasmi::Store::new(&engine, state);
    let linker = wasmi::Linker::<UserState>::new(&engine);
    let instance = linker
        .instantiate(&mut store, &module)
        .unwrap()
        .ensure_no_start(&mut store)
        .unwrap();
    let alloc = instance.get_func(&store, "alloc").unwrap();
    let mut caller = wasmi::Caller::from(&mut store);
    for len in [0u32, 7, 0x7fff_ffff, 0x8000_0000, u32::MAX] {
        assert_eq!(call_alloc(&mut caller, &alloc, len), Ok(len));
    }
}

#[test]
fn test_hand_back() {
    let (mut store, memory, alloc) = guest();
    let mut caller = wasmi::Caller::from(&mut store);
    // A status with which the extension failed is passed on, and the
    // allocator is not called.
    assert_eq!(
        hand_back(&mut caller, &memory, &alloc, Err(OakStatus::ErrInvalidHandle), 0, 4),
        Ok(Err(OakStatus::ErrInvalidHandle))
    );
    assert_eq!(read_u32(&caller, &memory, 0), Ok(0));
    assert_eq!(call_alloc(&mut caller, &alloc, 0), Ok(1024));
    // An answer is handed over.
    assert_eq!(hand_back(&mut caller, &memory, &alloc, Ok(vec![9, 8]), 0, 4), Ok(Ok(())));
    assert_eq!(read_u32(&caller, &memory, 0), Ok(1024));
    assert_eq!(read_u32(&caller, &memory, 4), Ok(2));
    assert_eq!(read_buffer(&caller, &memory, 1024, 2), Ok(vec![9, 8]));
    assert_eq!(
        hand_back(&mut caller, &memory, &alloc, Ok(vec![1]), PAGE, 4),
        Ok(Err(OakStatus::ErrInvalidArgs))
    );
}
