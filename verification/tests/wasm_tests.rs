use oak_functions::abi::{ChannelHandle, ChannelStatus, ExtensionHandle, OakStatus};
use oak_functions::channel::{ChannelSwitchboard, Endpoint};
use oak_functions::extension::{
    BoxedExtension, ExtensionError, ExtensionFactory, ExtensionKind, OakApiNativeExtension,
    UwabiExtension,
};
use oak_functions::logger::{Level, OakLogger};
use oak_functions::lookup::{
    data_from_entries, LookupData, LookupDataManager, StorageGetItemResponse, UpdateAction,
};
use oak_functions::policy::{
    apply_policy, InvocationOutcome, Response, ServerPolicy, StatusCode,
};
use oak_functions::state::{keep_first, ExtensionTable};
use oak_functions::engine::ValueType;
use oak_functions::wasm::{
    completion_line, invocation_response, invocation_result, main_outcome,
    oak_functions_resolve_func, outcome_of, resolve_func, wire_extension, ExportError,
    ImportError, Request, Signature, WasmError, WasmHandler, WasmState,
};
use std::sync::{Arc, Mutex};

/// A logger that keeps its lines.
#[derive(Clone)]
struct TestLogger {
    lines: Arc<Mutex<Vec<(Level, String)>>>,
}

impl TestLogger {
    fn new() -> Self {
        TestLogger { lines: Arc::new(Mutex::new(Vec::new())) }
    }

    fn lines(&self) -> Vec<(Level, String)> {
        self.lines.lock().unwrap().clone()
    }
}

impl OakLogger for TestLogger {
    fn log_sensitive(&self, level: Level, message: &str) {
        self.lines.lock().unwrap().push((level, message.to_string()));
    }

    fn log_public(&self, level: Level, message: &str) {
        self.lines.lock().unwrap().push((level, message.to_string()));
    }
}

/// The imports, the memory and the allocator that the test modules share. The
/// allocator hands out memory from address 1024 on.
const PRELUDE: &str = r#"
  (import "oak_functions" "read_request" (func $read_request (param i32 i32) (result i32)))
  (import "oak_functions" "write_response" (func $write_response (param i32 i32) (result i32)))
  (import "oak_functions" "write_log_message" (func $write_log_message (param i32 i32) (result i32)))
  (import "oak_functions" "invoke" (func $invoke (param i32 i32 i32 i32 i32) (result i32)))
  (import "oak_functions" "channel_read" (func $channel_read (param i32 i32 i32) (result i32)))
  (import "oak_functions" "channel_write" (func $channel_write (param i32 i32 i32) (result i32)))
  (memory (export "memory") 1)
  (global $next (mut i32) (i32.const 1024))
  (func (export "alloc") (param $len i32) (result i32)
    (local $ptr i32)
    (local.set $ptr (global.get $next))
    (global.set $next (i32.add (global.get $next) (local.get $len)))
    (local.get $ptr))
"#;

fn module(body: &str) -> Vec<u8> {
    wat::parse_str(format!("(module {} {})", PRELUDE, body)).expect("the test module is valid")
}

/// A module that answers with the request.
fn echo_module() -> Vec<u8> {
    module(
        r#"
  (func (export "main")
    (drop (call $read_request (i32.const 0) (i32.const 4)))
    (drop (call $write_response (i32.load (i32.const 0)) (i32.load (i32.const 4)))))
"#,
    )
}

fn handler(module: &[u8], factories: Vec<Box<dyn ExtensionFactory>>) -> WasmHandler<TestLogger> {
    WasmHandler::create(module, factories, TestLogger::new()).expect("the handler is created")
}

fn policy(size: u32, millis: u32) -> ServerPolicy {
    ServerPolicy::new(size, millis).expect("the policy is valid")
}

fn padded(content: &[u8], size: usize) -> Vec<u8> {
    let mut body = content.to_vec();
    body.resize(size, 0);
    body
}

#[test]
fn test_echo_module_returns_request() {
    let handler = handler(&echo_module(), vec![]);
    assert_eq!(handler.handle_raw_invoke(b"hi".to_vec()).unwrap(), b"hi".to_vec());
    assert_eq!(handler.handle_raw_invoke(vec![]).unwrap(), Vec::<u8>::new());
    let response = handler.handle_invoke(Request { body: vec![1, 2, 3] }).unwrap();
    assert_eq!(response.status, StatusCode::Success);
    assert_eq!(response.body, vec![1, 2, 3]);
    assert_eq!(response.length, 3);
}

#[test]
fn test_echo_response_is_shaped() {
    // Policy {N = 50, T = 100 ms}, echo module, request "hi".
    let handler = handler(&echo_module(), vec![]);
    let handled = handler.handle_invoke(Request { body: b"hi".to_vec() });
    let response = apply_policy(&policy(50, 100), outcome_of(handled));
    assert_eq!(response.status, StatusCode::Success);
    assert_eq!(response.length, 2);
    assert_eq!(response.body, padded(b"hi", 50));
    assert_eq!(response.body().unwrap(), b"hi");
}

/// A module whose `main` calls one host function with constant arguments and
/// answers with the four bytes of the status that it got.
fn status_module(call: &str) -> Vec<u8> {
    module(&format!(
        r#"
  (data (i32.const 32) "hello")
  (data (i32.const 48) "\ff\fe")
  (func (export "main")
    (i32.store (i32.const 0) {})
    (drop (call $write_response (i32.const 0) (i32.const 4))))
"#,
        call
    ))
}

fn status_of(call: &str, request: &[u8]) -> (Vec<u8>, TestLogger) {
    let logger = TestLogger::new();
    let handler = WasmHandler::create(&status_module(call), vec![], logger.clone())
        .expect("the handler is created");
    (handler.handle_raw_invoke(request.to_vec()).unwrap(), logger)
}

fn code(status: i32) -> Vec<u8> {
    status.to_le_bytes().to_vec()
}

#[test]
fn test_oversized_response_is_replaced() {
    // Policy {N = 50, T = 100 ms}, the module writes a response of 200 bytes.
    let handler = handler(
        &module(r#"(func (export "main") (drop (call $write_response (i32.const 0) (i32.const 200))))"#),
        vec![],
    );
    let handled = handler.handle_invoke(Request { body: vec![] });
    assert_eq!(handled.as_ref().unwrap().body.len(), 200);
    let response = apply_policy(&policy(50, 100), outcome_of(handled));
    assert_eq!(response.status, StatusCode::PolicySizeViolation);
    assert_eq!(response.body, padded(b"Reason: the response is too large.", 50));
    assert_eq!(response.length, 34);
}

#[test]
fn test_last_written_response_wins() {
    // The guest writes "A", then "BB".
    let handler = handler(
        &module(
            r#"
  (data (i32.const 16) "ABB")
  (func (export "main")
    (drop (call $write_response (i32.const 16) (i32.const 1)))
    (drop (call $write_response (i32.const 17) (i32.const 2))))
"#,
        ),
        vec![],
    );
    let handled = handler.handle_invoke(Request { body: vec![] });
    let response = apply_policy(&policy(50, 100), outcome_of(handled));
    assert_eq!(response.status, StatusCode::Success);
    assert_eq!(response.length, 2);
    assert_eq!(response.body, padded(b"BB", 50));
}

#[test]
fn test_no_response_written_gives_empty_body() {
    let handler = handler(&module(r#"(func (export "main"))"#), vec![]);
    assert_eq!(handler.handle_raw_invoke(b"ignored".to_vec()).unwrap(), Vec::<u8>::new());
}

#[test]
fn test_trap_in_main_is_an_internal_server_error() {
    // The guest writes a response and then traps: the request fails, and what
    // the guest wrote does not go out as a success.
    let logger = TestLogger::new();
    let handler = WasmHandler::create(
        &module(
            r#"
  (data (i32.const 16) "done")
  (func (export "main")
    (drop (call $write_response (i32.const 16) (i32.const 4)))
    (unreachable))
"#,
        ),
        vec![],
        logger.clone(),
    )
    .expect("the handler is created");
    assert!(matches!(handler.handle_raw_invoke(vec![]), Err(WasmError::Trap(_))));
    assert!(logger.lines().iter().any(|(level, line)| *level == Level::Info
        && line.starts_with("running Wasm module completed with result: ")
        && !line.ends_with("Ok(())")));

    let handled = handler.handle_invoke(Request { body: vec![] });
    assert!(matches!(&handled, Err(WasmError::Trap(_))));
    let message = handled.as_ref().unwrap_err().message();
    assert!(message.starts_with("running Wasm module failed: "));
    let response = apply_policy(&policy(1000, 100), outcome_of(handled));
    assert_eq!(response.status, StatusCode::InternalServerError);
    assert_eq!(response.body().unwrap(), message.as_bytes());
    assert_eq!(response.body.len(), 1000);
}

#[test]
fn test_failed_alloc_traps_the_guest() {
    // `alloc` traps, so `read_request` never returns to `main`, and the request
    // fails.
    let module = wat::parse_str(
        r#"(module
  (import "oak_functions" "read_request" (func $read_request (param i32 i32) (result i32)))
  (import "oak_functions" "write_response" (func $write_response (param i32 i32) (result i32)))
  (memory (export "memory") 1)
  (data (i32.const 16) "xy")
  (func (export "alloc") (param i32) (result i32) (unreachable))
  (func (export "main")
    (drop (call $write_response (i32.const 16) (i32.const 1)))
    (drop (call $read_request (i32.const 0) (i32.const 4)))
    (drop (call $write_response (i32.const 16) (i32.const 2)))))"#,
    )
    .unwrap();
    let mut wasm_state = WasmState::new(
        &module,
        b"hi".to_vec(),
        Box::new(TestLogger::new()),
        ExtensionTable::new(),
        ChannelSwitchboard::new(),
        vec![],
    )
    .expect("the state is made");
    assert!(matches!(wasm_state.invoke(), Err(WasmError::Trap(_))));
    // The guest got as far as its first response and no further.
    assert_eq!(wasm_state.get_response_bytes(), b"x".to_vec());

    let handler = handler(&module, vec![]);
    assert!(matches!(handler.handle_raw_invoke(b"hi".to_vec()), Err(WasmError::Trap(_))));
}

#[test]
fn test_out_of_bounds_access_traps_the_guest() {
    let handler = handler(
        &module(r#"(func (export "main") (drop (i32.load (i32.const 65536))))"#),
        vec![],
    );
    assert!(matches!(handler.handle_raw_invoke(vec![]), Err(WasmError::Trap(_))));
}

#[test]
fn test_write_response_checks_bounds() {
    // One page of memory: 65536 bytes.
    assert_eq!(status_of("(call $write_response (i32.const 65532) (i32.const 4))", b"").0, code(1));
    assert_eq!(status_of("(call $write_response (i32.const 65536) (i32.const 0))", b"").0, code(1));
    assert_eq!(status_of("(call $write_response (i32.const 65533) (i32.const 4))", b"").0, code(3));
    assert_eq!(status_of("(call $write_response (i32.const 65537) (i32.const 0))", b"").0, code(3));
    assert_eq!(status_of("(call $write_response (i32.const -1) (i32.const -1))", b"").0, code(3));
}

#[test]
fn test_rejected_write_response_keeps_earlier_response() {
    let handler = handler(
        &module(
            r#"
  (data (i32.const 16) "kept")
  (func (export "main")
    (drop (call $write_response (i32.const 16) (i32.const 4)))
    (drop (call $write_response (i32.const 65533) (i32.const 4))))
"#,
        ),
        vec![],
    );
    assert_eq!(handler.handle_raw_invoke(vec![]).unwrap(), b"kept".to_vec());
}

#[test]
fn test_read_request_writes_little_endian_location() {
    // The request lands at the first allocated address, 1024 = 0x0400, and the
    // host writes that address and the length 3 as little-endian numbers.
    let handler = handler(
        &module(
            r#"
  (func (export "main")
    (drop (call $read_request (i32.const 0) (i32.const 4)))
    (drop (call $write_response (i32.const 0) (i32.const 8))))
"#,
        ),
        vec![],
    );
    assert_eq!(
        handler.handle_raw_invoke(vec![7, 8, 9]).unwrap(),
        vec![0x00, 0x04, 0, 0, 3, 0, 0, 0]
    );
}

#[test]
fn test_read_request_checks_bounds() {
    assert_eq!(status_of("(call $read_request (i32.const 8) (i32.const 12))", b"abc").0, code(1));
    assert_eq!(status_of("(call $read_request (i32.const 65533) (i32.const 12))", b"abc").0, code(3));
    assert_eq!(status_of("(call $read_request (i32.const 8) (i32.const 65533))", b"abc").0, code(3));
}

#[test]
fn test_write_log_message() {
    let (status, logger) = status_of("(call $write_log_message (i32.const 32) (i32.const 5))", b"");
    assert_eq!(status, code(1));
    assert!(logger.lines().contains(&(Level::Debug, "[Wasm] hello".to_string())));

    // Bytes that are no UTF-8.
    let (status, logger) = status_of("(call $write_log_message (i32.const 48) (i32.const 2))", b"");
    assert_eq!(status, code(3));
    assert!(logger.lines().iter().any(|(level, _)| *level == Level::Warn));
    assert!(!logger.lines().iter().any(|(_, line)| line.starts_with("[Wasm]")));

    // Bytes outside the memory.
    let (status, _) = status_of("(call $write_log_message (i32.const 65535) (i32.const 2))", b"");
    assert_eq!(status, code(3));
}

#[test]
fn test_invoke_logs_how_main_ended() {
    let (_, logger) = status_of("(i32.const 0)", b"");
    assert!(logger.lines().contains(&(
        Level::Info,
        "running Wasm module completed with result: Ok(())".to_string()
    )));
}

/// Makes lookup extensions on the current snapshot of a shared manager.
struct TestLookupFactory {
    manager: Arc<Mutex<LookupDataManager<TestLogger>>>,
}

impl ExtensionFactory for TestLookupFactory {
    fn spec_makes(&self) -> ExtensionKind {
        ExtensionKind::Native(ExtensionHandle::LookupHandle)
    }

    fn create(&self) -> Result<BoxedExtension, ExtensionError> {
        let extension: LookupData<TestLogger> = self.manager.lock().unwrap().create_lookup_data();
        Ok(BoxedExtension::Native(Box::new(extension)))
    }
}

/// A module that hands its request to the extension with the given handle and
/// answers with what the extension gave, or with the status where the call
/// failed.
fn invoke_module(handle: i32) -> Vec<u8> {
    module(&format!(
        r#"
  (func (export "main")
    (drop (call $read_request (i32.const 0) (i32.const 4)))
    (i32.store (i32.const 16)
      (call $invoke (i32.const {}) (i32.load (i32.const 0)) (i32.load (i32.const 4))
        (i32.const 8) (i32.const 12)))
    (if (i32.eq (i32.load (i32.const 16)) (i32.const 1))
      (then (drop (call $write_response (i32.load (i32.const 8)) (i32.load (i32.const 12)))))
      (else (drop (call $write_response (i32.const 16) (i32.const 4))))))
"#,
        handle
    ))
}

#[test]
fn test_lookup_extension_sees_snapshot_of_its_request() {
    let manager = Arc::new(Mutex::new(LookupDataManager::for_test(
        data_from_entries(&[(b"k1".to_vec(), b"v1".to_vec())]),
        TestLogger::new(),
    )));
    let factory = TestLookupFactory { manager: manager.clone() };
    let handler = handler(
        &invoke_module(ExtensionHandle::LookupHandle.code()),
        vec![Box::new(factory)],
    );

    let found = handler.handle_raw_invoke(b"k1".to_vec()).unwrap();
    assert_eq!(
        StorageGetItemResponse::decode(&found),
        Some(StorageGetItemResponse { value: Some(b"v1".to_vec()) })
    );
    let missing = handler.handle_raw_invoke(b"k2".to_vec()).unwrap();
    assert_eq!(
        StorageGetItemResponse::decode(&missing),
        Some(StorageGetItemResponse { value: None })
    );

    // A request that began before the update keeps its snapshot.
    let mut in_flight = manager.lock().unwrap().create_lookup_data();
    manager.lock().unwrap().update_data(
        UpdateAction::StartAndFinish,
        data_from_entries(&[(b"k1".to_vec(), b"v2".to_vec())]),
    );
    let found = handler.handle_raw_invoke(b"k1".to_vec()).unwrap();
    assert_eq!(
        StorageGetItemResponse::decode(&found),
        Some(StorageGetItemResponse { value: Some(b"v2".to_vec()) })
    );
    assert_eq!(in_flight.get(b"k1"), Some(b"v1".to_vec()));
    assert_eq!(
        in_flight.invoke(b"k1".to_vec()),
        Ok(StorageGetItemResponse { value: Some(b"v1".to_vec()) }.encode())
    );
    assert_eq!(in_flight.get_handle(), ExtensionHandle::LookupHandle);
    assert!(in_flight.terminate().is_ok());
}

#[test]
fn test_lookup_extension_logs_key_and_value() {
    let logger = TestLogger::new();
    let manager = LookupDataManager::for_test(
        data_from_entries(&[(b"k1".to_vec(), vec![0, 159, 146, 150])]),
        logger.clone(),
    );
    let mut lookup_data = manager.create_lookup_data();
    lookup_data.invoke(b"k1".to_vec()).unwrap();
    lookup_data.invoke(b"k2".to_vec()).unwrap();
    assert_eq!(
        logger.lines(),
        vec![
            (Level::Debug, "storage_get_item(): key: k1".to_string()),
            (Level::Debug, "storage_get_item(): value: [0, 159, 146, 150]".to_string()),
            (Level::Debug, "storage_get_item(): key: k2".to_string()),
            (Level::Debug, "storage_get_item(): value not found".to_string()),
        ]
    );

    // Long keys are cut to 512 bytes in the log.
    let logger = TestLogger::new();
    let manager = LookupDataManager::new_empty(logger.clone());
    let mut lookup_data = manager.create_lookup_data();
    lookup_data.invoke(vec![b'a'; 600]).unwrap();
    assert_eq!(logger.lines()[0].1.len(), "storage_get_item(): key: ".len() + 512);
    lookup_data.log_error("failed");
    assert_eq!(logger.lines().last().unwrap(), &(Level::Error, "failed".to_string()));
}

#[test]
fn test_invoke_with_unknown_handle() {
    let manager = Arc::new(Mutex::new(LookupDataManager::new_empty(TestLogger::new())));
    // Not the code of any handle.
    let handler_99 = handler(
        &invoke_module(99),
        vec![Box::new(TestLookupFactory { manager: manager.clone() })],
    );
    assert_eq!(
        handler_99.handle_raw_invoke(b"k1".to_vec()).unwrap(),
        code(OakStatus::ErrInvalidHandle.code())
    );
    // The code of a handle without an extension.
    let handler_logging = handler(
        &invoke_module(ExtensionHandle::LoggingHandle.code()),
        vec![Box::new(TestLookupFactory { manager })],
    );
    assert_eq!(handler_logging.handle_raw_invoke(b"k1".to_vec()).unwrap(), code(2));
    // No extension at all.
    let handler_none = handler(&invoke_module(ExtensionHandle::LookupHandle.code()), vec![]);
    assert_eq!(handler_none.handle_raw_invoke(b"k1".to_vec()).unwrap(), code(2));
}

#[test]
fn test_invoke_checks_bounds_of_request() {
    assert_eq!(
        status_of(
            "(call $invoke (i32.const 1) (i32.const 65535) (i32.const 2) (i32.const 8) (i32.const 12))",
            b""
        )
        .0,
        code(3)
    );
}

/// An extension that fails as it is told.
struct FailingExtension {
    status: Option<OakStatus>,
    fail_terminate: bool,
}

impl OakApiNativeExtension for FailingExtension {
    fn spec_handle(&self) -> ExtensionHandle {
        ExtensionHandle::TestingHandle
    }

    fn invoke(&mut self, request: Vec<u8>) -> Result<Vec<u8>, OakStatus> {
        match self.status {
            Some(status) => Err(status),
            None => Ok(request.into_iter().rev().collect()),
        }
    }

    fn terminate(&mut self) -> Result<(), ExtensionError> {
        if self.fail_terminate {
            Err(ExtensionError { message: "terminate failed".to_string() })
        } else {
            Ok(())
        }
    }

    fn get_handle(&self) -> ExtensionHandle {
        ExtensionHandle::TestingHandle
    }
}

struct FailingFactory {
    fail_create: bool,
    status: Option<OakStatus>,
    fail_terminate: bool,
}

impl ExtensionFactory for FailingFactory {
    fn spec_makes(&self) -> ExtensionKind {
        ExtensionKind::Native(ExtensionHandle::TestingHandle)
    }

    fn create(&self) -> Result<BoxedExtension, ExtensionError> {
        if self.fail_create {
            Err(ExtensionError { message: "create failed".to_string() })
        } else {
            Ok(BoxedExtension::Native(Box::new(FailingExtension {
                status: self.status,
                fail_terminate: self.fail_terminate,
            })))
        }
    }
}

#[test]
fn test_extension_outcomes_reach_guest_and_shaper() {
    let module = invoke_module(ExtensionHandle::TestingHandle.code());
    // The answer of the extension reaches the guest.
    let fine = handler(
        &module,
        vec![Box::new(FailingFactory { fail_create: false, status: None, fail_terminate: false })],
    );
    assert_eq!(fine.handle_raw_invoke(b"abc".to_vec()).unwrap(), b"cba".to_vec());

    // A status with which the extension fails is handed to the guest.
    let failing = handler(
        &module,
        vec![Box::new(FailingFactory {
            fail_create: false,
            status: Some(OakStatus::ErrInvalidArgs),
            fail_terminate: false,
        })],
    );
    assert_eq!(failing.handle_raw_invoke(b"abc".to_vec()).unwrap(), code(3));

    // A factory that fails ends the request.
    let no_extension = handler(
        &module,
        vec![Box::new(FailingFactory { fail_create: true, status: None, fail_terminate: false })],
    );
    let handled = no_extension.handle_invoke(Request { body: b"abc".to_vec() });
    assert!(matches!(&handled, Err(WasmError::Extension(error)) if error.message == "create failed"));
    let response = apply_policy(&policy(50, 100), outcome_of(handled));
    assert_eq!(response.status, StatusCode::InternalServerError);
    assert_eq!(response.body, padded(b"create failed", 50));
    assert_eq!(response.length, 13);

    // So does an extension that cannot be terminated.
    let stuck = handler(
        &module,
        vec![Box::new(FailingFactory { fail_create: false, status: None, fail_terminate: true })],
    );
    let handled = stuck.handle_invoke(Request { body: b"abc".to_vec() });
    assert!(matches!(&handled, Err(WasmError::Extension(error)) if error.message == "terminate failed"));
}

fn load_error(module: &str) -> WasmError {
    let bytes = wat::parse_str(module).expect("the test module is valid");
    let handler = handler(&bytes, vec![]);
    handler.handle_raw_invoke(vec![]).unwrap_err()
}

#[test]
fn test_malformed_module_is_rejected() {
    let created = WasmHandler::create(b"not a module", vec![], TestLogger::new());
    assert!(matches!(created, Err(WasmError::ModuleLoad(_))));
    let made = WasmState::new(
        b"not a module",
        vec![],
        Box::new(TestLogger::new()),
        ExtensionTable::new(),
        ChannelSwitchboard::new(),
        vec![],
    );
    assert!(matches!(made, Err(WasmError::ModuleLoad(_))));
}

#[test]
fn test_exports_are_checked() {
    let alloc = r#"(func (export "alloc") (param i32) (result i32) (i32.const 0))"#;
    let main = r#"(func (export "main"))"#;
    let memory = r#"(memory (export "memory") 1)"#;

    assert!(matches!(
        load_error(&format!("(module {} {})", alloc, memory)),
        WasmError::MainExport(ExportError::NotFound)
    ));
    assert!(matches!(
        load_error(&format!(
            r#"(module (func (export "main") (param i32)) {} {})"#,
            alloc, memory
        )),
        WasmError::MainExport(ExportError::InvalidSignature)
    ));
    assert!(matches!(
        load_error(&format!(
            r#"(module (func (export "main") (result i32) (i32.const 0)) {} {})"#,
            alloc, memory
        )),
        WasmError::MainExport(ExportError::InvalidSignature)
    ));
    assert!(matches!(
        load_error(&format!(r#"(module (global (export "main") i32 (i32.const 0)) {} {})"#, alloc, memory)),
        WasmError::MainExport(ExportError::NotAFunction)
    ));
    assert!(matches!(
        load_error(&format!("(module {} {})", main, memory)),
        WasmError::AllocExport(ExportError::NotFound)
    ));
    assert!(matches!(
        load_error(&format!(
            r#"(module {} (func (export "alloc") (param i64) (result i32) (i32.const 0)) {})"#,
            main, memory
        )),
        WasmError::AllocExport(ExportError::InvalidSignature)
    ));
    assert!(matches!(
        load_error(&format!(
            r#"(module {} (func (export "alloc") (param i32 i32) (result i32) (i32.const 0)) {})"#,
            main, memory
        )),
        WasmError::AllocExport(ExportError::InvalidSignature)
    ));
    assert!(matches!(
        load_error(&format!("(module {} {})", main, alloc)),
        WasmError::MemoryExport(ExportError::NotFound)
    ));
    assert!(matches!(
        load_error(&format!(r#"(module {} {} (func (export "memory")))"#, main, alloc)),
        WasmError::MemoryExport(ExportError::NotAMemory)
    ));
}

#[test]
fn test_start_function_is_rejected() {
    let exports = r#"
  (func (export "alloc") (param i32) (result i32) (i32.const 0))
  (func (export "main"))
  (memory (export "memory") 1)"#;
    assert!(matches!(
        load_error(&format!("(module {} (func $init) (start $init))", exports)),
        WasmError::Instantiation(_)
    ));
}

#[test]
fn test_imports_are_resolved_against_host_functions() {
    let exports = r#"
  (func (export "alloc") (param i32) (result i32) (i32.const 0))
  (func (export "main"))
  (memory (export "memory") 1)"#;
    let import_error = |import: &str| -> (String, ImportError) {
        match load_error(&format!("(module {} {})", import, exports)) {
            WasmError::Import(name, error) => (name, error),
            other => panic!("an import error is expected, not {:?}", other),
        }
    };
    assert_eq!(
        import_error(r#"(import "oak_functions" "no_such_function" (func (param i32)))"#),
        ("no_such_function".to_string(), ImportError::NotFound)
    );
    assert_eq!(
        import_error(r#"(import "oak_functions" "read_request" (func (param i32)))"#),
        ("read_request".to_string(), ImportError::SignatureMismatch)
    );
    assert_eq!(
        import_error(r#"(import "oak_functions" "invoke" (func (param i32 i32 i32 i32 i64) (result i32)))"#),
        ("invoke".to_string(), ImportError::SignatureMismatch)
    );
    assert_eq!(
        import_error(r#"(import "other" "read_request" (func (param i32 i32) (result i32)))"#),
        ("read_request".to_string(), ImportError::UnknownModule)
    );
    assert_eq!(
        import_error(r#"(import "oak_functions" "write_response" (global i32))"#),
        ("write_response".to_string(), ImportError::NotAFunction)
    );
    // The first import that fails is reported.
    assert_eq!(
        import_error(
            r#"(import "oak_functions" "channel_read" (func (param i32 i32 i32) (result i32)))
               (import "oak_functions" "channel_write" (func (param i32 i32) (result i32)))
               (import "oak_functions" "nothing" (func))"#
        ),
        ("channel_write".to_string(), ImportError::SignatureMismatch)
    );
}

#[test]
fn test_host_function_table() {
    let i32s = |count: usize| vec![ValueType::I32; count];
    for (name, params) in [
        ("read_request", 2),
        ("write_response", 2),
        ("write_log_message", 2),
        ("invoke", 5),
        ("channel_read", 3),
        ("channel_write", 3),
    ] {
        let signature = oak_functions_resolve_func(name).unwrap();
        assert_eq!(signature.params, i32s(params));
        assert_eq!(signature.results, i32s(1));
        assert_eq!(resolve_func("oak_functions", name, Some(&signature)), Ok(()));
        assert_eq!(
            resolve_func("oak_functions", name, None),
            Err(ImportError::NotAFunction)
        );
        assert_eq!(
            resolve_func("env", name, Some(&signature)),
            Err(ImportError::UnknownModule)
        );
        let other = Signature { params: i32s(params + 1), results: i32s(1) };
        assert_eq!(
            resolve_func("oak_functions", name, Some(&other)),
            Err(ImportError::SignatureMismatch)
        );
        let no_result = Signature { params: i32s(params), results: vec![] };
        assert_eq!(
            resolve_func("oak_functions", name, Some(&no_result)),
            Err(ImportError::SignatureMismatch)
        );
    }
    assert!(oak_functions_resolve_func("main").is_none());
    assert!(oak_functions_resolve_func("").is_none());
    assert!(oak_functions_resolve_func("read_request ").is_none());
    assert_eq!(resolve_func("oak_functions", "alloc", None), Err(ImportError::NotFound));
}

#[test]
fn test_error_messages() {
    assert_eq!(
        WasmError::MainExport(ExportError::NotFound).message(),
        "couldn't validate `main` export: couldn't find Wasm export"
    );
    assert_eq!(
        WasmError::AllocExport(ExportError::InvalidSignature).message(),
        "couldn't validate `alloc` export: invalid signature for export"
    );
    assert_eq!(
        WasmError::MemoryExport(ExportError::NotAMemory).message(),
        "couldn't validate `memory` export: couldn't interpret Wasm export as memory"
    );
    assert_eq!(
        WasmError::MainExport(ExportError::NotAFunction).message(),
        "couldn't validate `main` export: couldn't interpret Wasm export as function"
    );
    assert_eq!(
        WasmError::ModuleLoad("bad".to_string()).message(),
        "couldn't load module from buffer: bad"
    );
    assert_eq!(
        WasmError::Instantiation("bad".to_string()).message(),
        "failed to instantiate Wasm module: bad"
    );
    assert_eq!(WasmError::HostBinding.message(), "couldn't bind the host functions");
    assert_eq!(
        WasmError::Import("no_such_function".to_string(), ImportError::NotFound).message(),
        "Export `no_such_function` not found"
    );
    assert_eq!(
        WasmError::Import("invoke".to_string(), ImportError::SignatureMismatch).message(),
        "Export `invoke` doesn't match expected signature"
    );
    assert_eq!(
        WasmError::Extension(ExtensionError { message: "gone".to_string() }).message(),
        "gone"
    );
    assert_eq!(
        WasmError::Trap("unreachable".to_string()).message(),
        "running Wasm module failed: unreachable"
    );
}

fn channel_state(
    main: &str,
    switchboard: ChannelSwitchboard,
    uwabi_extensions: Vec<Box<dyn UwabiExtension>>,
) -> WasmState {
    let body = format!(
        r#"
  (data (i32.const 32) "\2a\15\00")
  (data (i32.const 40) "\2a\2a")
  (func (export "main") {})
"#,
        main
    );
    WasmState::new(
        &module(&body),
        vec![],
        Box::new(TestLogger::new()),
        ExtensionTable::new(),
        switchboard,
        uwabi_extensions,
    )
    .expect("the state is made")
}

/// `main` that calls one channel function and answers with its status.
fn channel_status(call: &str) -> String {
    format!(
        "(i32.store (i32.const 0) {}) (drop (call $write_response (i32.const 0) (i32.const 4)))",
        call
    )
}

fn run(mut wasm_state: WasmState) -> Vec<u8> {
    assert!(wasm_state.invoke().is_ok());
    assert!(wasm_state.terminate_extensions().is_ok());
    wasm_state.get_response_bytes()
}

#[test]
fn test_channel_round_trip_between_guest_and_host() {
    // The guest writes [42, 21, 0], the host reads it on the other endpoint and
    // sends [1, 2, 3] back, which the guest reads.
    let mut switchboard = ChannelSwitchboard::new();
    let mut peer: Endpoint = switchboard.register(ChannelHandle::Testing);
    assert!(peer.send(vec![1, 2, 3]).is_ok());
    let wasm_state = channel_state(
        r#"
    (drop (call $channel_write (i32.const 1) (i32.const 32) (i32.const 3)))
    (drop (call $channel_read (i32.const 1) (i32.const 8) (i32.const 12)))
    (drop (call $write_response (i32.load (i32.const 8)) (i32.load (i32.const 12))))"#,
        switchboard,
        vec![],
    );
    assert_eq!(wasm_state.get_request_bytes(), Vec::<u8>::new());
    assert_eq!(run(wasm_state), vec![1, 2, 3]);
    assert_eq!(peer.try_recv(), Ok(vec![42, 21, 0]));
    // The host side of the channel went away with the request.
    assert_eq!(peer.try_recv(), Err(ChannelStatus::ChannelEndpointDisconnected));
}

#[test]
fn test_hosted_channel_read_no_message() {
    let mut switchboard = ChannelSwitchboard::new();
    let _peer = switchboard.register(ChannelHandle::Testing);
    let wasm_state = channel_state(
        &channel_status("(call $channel_read (i32.const 1) (i32.const 0) (i32.const 0))"),
        switchboard,
        vec![],
    );
    assert_eq!(run(wasm_state), code(ChannelStatus::ChannelEmpty.code()));
}

#[test]
fn test_hosted_channel_read_channel_closed() {
    let mut switchboard = ChannelSwitchboard::new();
    // Drop the other endpoint of the channel.
    std::mem::drop(switchboard.register(ChannelHandle::Testing));
    let wasm_state = channel_state(
        &channel_status("(call $channel_read (i32.const 1) (i32.const 0) (i32.const 0))"),
        switchboard,
        vec![],
    );
    assert_eq!(run(wasm_state), code(ChannelStatus::ChannelEndpointDisconnected.code()));
}

#[test]
fn test_hosted_channel_read_ok() {
    let mut switchboard = ChannelSwitchboard::new();
    let peer = switchboard.register(ChannelHandle::Testing);
    assert!(peer.send(vec![42, 42, 232]).is_ok());
    let wasm_state = channel_state(
        r#"
    (drop (call $channel_read (i32.const 1) (i32.const 100) (i32.const 150)))
    (drop (call $write_response (i32.load (i32.const 100)) (i32.load (i32.const 150))))"#,
        switchboard,
        vec![],
    );
    assert_eq!(run(wasm_state), vec![42, 42, 232]);
}

#[test]
fn test_hosted_channel_read_checks_bounds() {
    let mut switchboard = ChannelSwitchboard::new();
    let peer = switchboard.register(ChannelHandle::Testing);
    assert!(peer.send(vec![42]).is_ok());
    let wasm_state = channel_state(
        &channel_status("(call $channel_read (i32.const 1) (i32.const 65534) (i32.const 8))"),
        switchboard,
        vec![],
    );
    assert_eq!(run(wasm_state), code(ChannelStatus::ChannelInvalidArgs.code()));
}

#[test]
fn test_hosted_channel_write_ok() {
    let mut switchboard = ChannelSwitchboard::new();
    let mut peer = switchboard.register(ChannelHandle::Testing);
    let wasm_state = channel_state(
        &channel_status("(call $channel_write (i32.const 1) (i32.const 40) (i32.const 2))"),
        switchboard,
        vec![],
    );
    assert_eq!(run(wasm_state), code(ChannelStatus::ChannelOk.code()));
    assert_eq!(peer.try_recv(), Ok(vec![42, 42]));
}

#[test]
fn test_hosted_channel_write_full() {
    let mut switchboard = ChannelSwitchboard::new();
    let mut peer = switchboard.register(ChannelHandle::Testing);
    // The guest writes the message 100 times, then once more.
    let wasm_state = channel_state(
        r#"
    (local $i i32)
    (loop $again
      (i32.store (i32.const 0) (call $channel_write (i32.const 1) (i32.const 40) (i32.const 2)))
      (local.set $i (i32.add (local.get $i) (i32.const 1)))
      (br_if $again (i32.and
        (i32.lt_u (local.get $i) (i32.const 100))
        (i32.eq (i32.load (i32.const 0)) (i32.const 1)))))
    (i32.store (i32.const 4) (local.get $i))
    (i32.store (i32.const 8) (call $channel_write (i32.const 1) (i32.const 40) (i32.const 2)))
    (drop (call $write_response (i32.const 0) (i32.const 12)))"#,
        switchboard,
        vec![],
    );
    let mut expected = code(ChannelStatus::ChannelOk.code());
    expected.extend(code(100));
    expected.extend(code(ChannelStatus::ChannelFull.code()));
    assert_eq!(run(wasm_state), expected);
    for _ in 0..100 {
        assert_eq!(peer.try_recv(), Ok(vec![42, 42]));
    }
    assert_eq!(peer.try_recv(), Err(ChannelStatus::ChannelEndpointDisconnected));
}

#[test]
fn test_hosted_channel_write_channel_closed() {
    let mut switchboard = ChannelSwitchboard::new();
    // Drop the other endpoint of the channel.
    std::mem::drop(switchboard.register(ChannelHandle::Testing));
    let wasm_state = channel_state(
        &channel_status("(call $channel_write (i32.const 1) (i32.const 0) (i32.const 0))"),
        switchboard,
        vec![],
    );
    assert_eq!(run(wasm_state), code(ChannelStatus::ChannelEndpointClosed.code()));
}

#[test]
fn test_hosted_channel_write_checks_bounds() {
    let mut switchboard = ChannelSwitchboard::new();
    let _peer = switchboard.register(ChannelHandle::Testing);
    let wasm_state = channel_state(
        &channel_status("(call $channel_write (i32.const 1) (i32.const 65535) (i32.const 2))"),
        switchboard,
        vec![],
    );
    assert_eq!(run(wasm_state), code(ChannelStatus::ChannelInvalidArgs.code()));
}

#[test]
fn test_get_endpoint_from_channel_handle_out_of_range() {
    let mut switchboard = ChannelSwitchboard::new();
    let _peer = switchboard.register(ChannelHandle::Testing);
    let wasm_state = channel_state(
        &channel_status("(call $channel_read (i32.const -1) (i32.const 0) (i32.const 0))"),
        switchboard,
        vec![],
    );
    assert_eq!(run(wasm_state), code(ChannelStatus::ChannelHandleInvalid.code()));
}

#[test]
fn test_get_endpoint_from_channel_handle_without_endpoint() {
    let mut switchboard = ChannelSwitchboard::new();
    let _peer = switchboard.register(ChannelHandle::Testing);
    // Channel handle 0 never has an endpoint here.
    let reading = channel_state(
        &channel_status("(call $channel_read (i32.const 0) (i32.const 0) (i32.const 0))"),
        switchboard,
        vec![],
    );
    assert_eq!(run(reading), code(ChannelStatus::ChannelHandleInvalid.code()));
    let writing = channel_state(
        &channel_status("(call $channel_write (i32.const 0) (i32.const 0) (i32.const 0))"),
        ChannelSwitchboard::new(),
        vec![],
    );
    assert_eq!(run(writing), code(ChannelStatus::ChannelHandleInvalid.code()));
}

/// A channel-based extension that keeps its endpoint where the test can reach
/// it.
struct TestingExtension {
    endpoint: Option<Endpoint>,
    bound: Arc<Mutex<u32>>,
}

impl UwabiExtension for TestingExtension {
    fn spec_channel_handle(&self) -> ChannelHandle {
        ChannelHandle::Testing
    }

    fn spec_bound(&self) -> bool {
        self.endpoint.is_some()
    }

    fn get_channel_handle(&self) -> ChannelHandle {
        ChannelHandle::Testing
    }

    fn get_endpoint_mut(&mut self) -> Option<&mut Endpoint> {
        self.endpoint.as_mut()
    }

    fn set_endpoint(&mut self, endpoint: Endpoint) {
        if self.endpoint.is_none() {
            // Greets the guest as soon as it is bound.
            assert!(endpoint.send(vec![1, 2, 3]).is_ok());
            self.endpoint = Some(endpoint);
            *self.bound.lock().unwrap() += 1;
        }
    }
}

struct TestingFactory {
    bound: Arc<Mutex<u32>>,
}

impl ExtensionFactory for TestingFactory {
    fn spec_makes(&self) -> ExtensionKind {
        ExtensionKind::Uwabi(ChannelHandle::Testing)
    }

    fn create(&self) -> Result<BoxedExtension, ExtensionError> {
        Ok(BoxedExtension::Uwabi(Box::new(TestingExtension {
            endpoint: None,
            bound: self.bound.clone(),
        })))
    }
}

#[test]
fn test_create_channel_switchboard_in_wasm_state() {
    // The handler binds a channel-based extension to a fresh channel for every
    // request: the guest reaches it under the handle of the extension and
    // under no other.
    let bound = Arc::new(Mutex::new(0));
    let module = module(
        r#"
  (func (export "main")
    (i32.store (i32.const 0) (call $channel_read (i32.const 0) (i32.const 8) (i32.const 12)))
    (i32.store (i32.const 4) (call $channel_read (i32.const 1) (i32.const 8) (i32.const 12)))
    (i32.store (i32.const 16) (i32.load8_u (i32.load (i32.const 8))))
    (drop (call $write_response (i32.const 0) (i32.const 20))))
"#,
    );
    let handler = handler(&module, vec![Box::new(TestingFactory { bound: bound.clone() })]);
    let mut expected = code(ChannelStatus::ChannelHandleInvalid.code());
    expected.extend(code(ChannelStatus::ChannelOk.code()));
    expected.extend(vec![0, 4, 0, 0, 3, 0, 0, 0]);
    expected.extend(code(1));
    assert_eq!(handler.handle_raw_invoke(vec![]).unwrap(), expected);
    assert_eq!(handler.handle_raw_invoke(vec![]).unwrap(), expected);
    assert_eq!(*bound.lock().unwrap(), 2);
}

/// A native extension that counts its terminations and fails them if told to.
struct CountingExtension {
    handle: ExtensionHandle,
    fail: bool,
    terminated: Arc<Mutex<u32>>,
}

impl OakApiNativeExtension for CountingExtension {
    fn spec_handle(&self) -> ExtensionHandle {
        self.handle
    }

    fn invoke(&mut self, request: Vec<u8>) -> Result<Vec<u8>, OakStatus> {
        Ok(request)
    }

    fn terminate(&mut self) -> Result<(), ExtensionError> {
        *self.terminated.lock().unwrap() += 1;
        if self.fail {
            Err(ExtensionError { message: format!("{:?} failed", self.handle) })
        } else {
            Ok(())
        }
    }

    fn get_handle(&self) -> ExtensionHandle {
        self.handle
    }
}

#[test]
fn test_every_extension_is_terminated() {
    let terminated = Arc::new(Mutex::new(0));
    let extension = |handle: ExtensionHandle, fail: bool| -> Box<dyn OakApiNativeExtension> {
        Box::new(CountingExtension { handle, fail, terminated: terminated.clone() })
    };
    // A failure does not keep the later extensions from being terminated, and
    // the first failure is reported.
    let done = oak_functions::state::terminate_all(vec![
        extension(ExtensionHandle::LookupHandle, false),
        extension(ExtensionHandle::LoggingHandle, true),
        extension(ExtensionHandle::TestingHandle, false),
        extension(ExtensionHandle::UserHandle, true),
    ]);
    assert_eq!(done.unwrap_err().message, "LoggingHandle failed");
    assert_eq!(*terminated.lock().unwrap(), 4);

    assert!(oak_functions::state::terminate_all(vec![]).is_ok());
    assert!(oak_functions::state::terminate_all(vec![
        extension(ExtensionHandle::LookupHandle, false),
    ])
    .is_ok());
    assert_eq!(*terminated.lock().unwrap(), 5);

    // A table hands out one extension for each handle that it holds.
    let mut table = ExtensionTable::new();
    table.insert(ExtensionHandle::LookupHandle, extension(ExtensionHandle::LookupHandle, false));
    table.insert(ExtensionHandle::TestingHandle, extension(ExtensionHandle::TestingHandle, true));
    table.insert(ExtensionHandle::LookupHandle, extension(ExtensionHandle::LookupHandle, false));
    let extensions = table.into_extensions();
    assert_eq!(extensions.len(), 2);
    assert!(oak_functions::state::terminate_all(extensions).is_err());
    assert_eq!(*terminated.lock().unwrap(), 7);
}

#[test]
fn test_outcomes_after_the_guest_has_run() {
    let error = |message: &str| ExtensionError { message: message.to_string() };

    assert!(keep_first(None, Ok(())).is_none());
    assert_eq!(keep_first(None, Err(error("a"))).unwrap().message, "a");
    assert_eq!(keep_first(Some(error("a")), Err(error("b"))).unwrap().message, "a");
    assert_eq!(keep_first(Some(error("a")), Ok(())).unwrap().message, "a");

    assert_eq!(invocation_result(Ok(()), Ok(()), vec![1, 2]).unwrap(), vec![1, 2]);
    assert!(matches!(
        invocation_result(Ok(()), Err(error("stuck")), vec![1, 2]),
        Err(WasmError::Extension(found)) if found.message == "stuck"
    ));
    // A trap comes before the failure of an extension.
    assert!(matches!(
        invocation_result(Err(WasmError::Trap("trapped".to_string())), Ok(()), vec![1, 2]),
        Err(WasmError::Trap(text)) if text == "trapped"
    ));
    assert!(matches!(
        invocation_result(
            Err(WasmError::Trap("trapped".to_string())),
            Err(error("stuck")),
            vec![1, 2]
        ),
        Err(WasmError::Trap(_))
    ));

    assert!(main_outcome(Ok(())).is_ok());
    assert!(matches!(
        main_outcome(Err("unreachable".to_string())),
        Err(WasmError::Trap(text)) if text == "unreachable"
    ));
    assert_eq!(
        completion_line(&Ok(())),
        "running Wasm module completed with result: Ok(())"
    );
    assert_eq!(
        completion_line(&Err("trap".to_string())),
        "running Wasm module completed with result: trap"
    );

    let response = invocation_response(Ok(vec![7, 8, 9])).unwrap();
    assert_eq!(response.status, StatusCode::Success);
    assert_eq!(response.body, vec![7, 8, 9]);
    assert_eq!(response.length, 3);
    assert!(matches!(
        invocation_response(Err(WasmError::HostBinding)),
        Err(WasmError::HostBinding)
    ));
}

#[test]
fn test_handler_clone_serves_the_same_module() {
    let handler = handler(&echo_module(), vec![]);
    let copy = handler.clone();
    assert_eq!(copy.handle_raw_invoke(b"hi".to_vec()).unwrap(), b"hi".to_vec());
    assert_eq!(handler.handle_raw_invoke(b"ho".to_vec()).unwrap(), b"ho".to_vec());
}

#[test]
fn test_channel_read_without_message_leaves_the_guest_alone() {
    // The allocator counts its calls at address 64. A read that finds no
    // message, or no channel, does not call it and writes nothing.
    let module = wat::parse_str(
        r#"(module
  (import "oak_functions" "channel_read" (func $channel_read (param i32 i32 i32) (result i32)))
  (import "oak_functions" "write_response" (func $write_response (param i32 i32) (result i32)))
  (memory (export "memory") 1)
  (func (export "alloc") (param $len i32) (result i32)
    (i32.store (i32.const 64) (i32.add (i32.load (i32.const 64)) (i32.const 1)))
    (i32.const 1024))
  (func (export "main")
    (i32.store (i32.const 0) (call $channel_read (i32.const 1) (i32.const 8) (i32.const 12)))
    (i32.store (i32.const 4) (call $channel_read (i32.const 7) (i32.const 8) (i32.const 12)))
    (i32.store (i32.const 16) (i32.load (i32.const 64)))
    (drop (call $write_response (i32.const 0) (i32.const 20)))))"#,
    )
    .unwrap();
    let state = |switchboard: ChannelSwitchboard| {
        WasmState::new(
            &module,
            vec![],
            Box::new(TestLogger::new()),
            ExtensionTable::new(),
            switchboard,
            vec![],
        )
        .expect("the state is made")
    };

    let mut switchboard = ChannelSwitchboard::new();
    let peer = switchboard.register(ChannelHandle::Testing);
    let mut expected = code(ChannelStatus::ChannelEmpty.code());
    expected.extend(code(ChannelStatus::ChannelHandleInvalid.code()));
    expected.extend(vec![0; 12]);
    assert_eq!(run(state(switchboard)), expected);

    // With a message the allocator is called once, and the guest finds the
    // address and the length of the message.
    let mut switchboard = ChannelSwitchboard::new();
    let peer_with_message = switchboard.register(ChannelHandle::Testing);
    assert!(peer_with_message.send(vec![5, 6, 7]).is_ok());
    let mut expected = code(ChannelStatus::ChannelOk.code());
    expected.extend(code(ChannelStatus::ChannelHandleInvalid.code()));
    expected.extend(code(1024));
    expected.extend(code(3));
    expected.extend(code(1));
    assert_eq!(run(state(switchboard)), expected);
    std::mem::drop(peer);
}

#[test]
fn test_wire_extension_puts_a_native_extension_under_its_handle() {
    let terminated = Arc::new(Mutex::new(0));
    let mut table = ExtensionTable::new();
    let mut switchboard = ChannelSwitchboard::new();
    let mut list: Vec<Box<dyn UwabiExtension>> = Vec::new();
    let made = BoxedExtension::Native(Box::new(CountingExtension {
        handle: ExtensionHandle::UserHandle,
        fail: false,
        terminated: terminated.clone(),
    }));
    assert!(wire_extension(Ok(made), &mut table, &mut switchboard, &mut list).is_ok());
    assert!(table.get_mut(ExtensionHandle::UserHandle).is_some());
    assert!(table.get_mut(ExtensionHandle::LookupHandle).is_none());
    assert!(table.get_mut(ExtensionHandle::TestingHandle).is_none());
    assert!(!switchboard.contains(ChannelHandle::Testing));
    assert!(!switchboard.contains(ChannelHandle::Unspecified));
    assert_eq!(list.len(), 0);
}

#[test]
fn test_wire_extension_binds_a_channel_extension_to_a_fresh_channel() {
    let bound = Arc::new(Mutex::new(0));
    let mut table = ExtensionTable::new();
    let mut switchboard = ChannelSwitchboard::new();
    let mut list: Vec<Box<dyn UwabiExtension>> = Vec::new();
    let made = TestingFactory { bound: bound.clone() }.create();
    assert!(wire_extension(made, &mut table, &mut switchboard, &mut list).is_ok());
    assert!(switchboard.contains(ChannelHandle::Testing));
    assert!(!switchboard.contains(ChannelHandle::Unspecified));
    assert!(table.get_mut(ExtensionHandle::TestingHandle).is_none());
    assert_eq!(list.len(), 1);
    assert_eq!(*bound.lock().unwrap(), 1);

    // The extension holds one end of the channel and the switchboard the
    // other: the greeting of the extension is there, and an answer reaches it.
    assert_eq!(switchboard.try_recv(ChannelHandle::Testing), Ok(vec![1, 2, 3]));
    assert_eq!(switchboard.try_recv(ChannelHandle::Testing), Err(ChannelStatus::ChannelEmpty));
    assert!(switchboard.send(ChannelHandle::Testing, vec![7]).is_ok());
    assert_eq!(list[0].get_endpoint_mut().unwrap().try_recv(), Ok(vec![7]));

    // A second extension for the handle joins the list and gets a channel of
    // its own, which takes the place of the first.
    let made = TestingFactory { bound: bound.clone() }.create();
    assert!(wire_extension(made, &mut table, &mut switchboard, &mut list).is_ok());
    assert_eq!(list.len(), 2);
    assert_eq!(switchboard.try_recv(ChannelHandle::Testing), Ok(vec![1, 2, 3]));
    assert!(switchboard.send(ChannelHandle::Testing, vec![8]).is_ok());
    assert_eq!(list[1].get_endpoint_mut().unwrap().try_recv(), Ok(vec![8]));
    assert_eq!(
        list[0].get_endpoint_mut().unwrap().try_recv(),
        Err(ChannelStatus::ChannelEndpointDisconnected)
    );
}

#[test]
fn test_wire_extension_hands_on_the_failure_of_a_factory() {
    let mut table = ExtensionTable::new();
    let mut switchboard = ChannelSwitchboard::new();
    let mut list: Vec<Box<dyn UwabiExtension>> = Vec::new();
    let made = FailingFactory { fail_create: true, status: None, fail_terminate: false }.create();
    match wire_extension(made, &mut table, &mut switchboard, &mut list) {
        Err(WasmError::Extension(error)) => assert_eq!(error.message, "create failed"),
        _ => panic!("the failure of the factory is the error"),
    }
    assert!(table.get_mut(ExtensionHandle::TestingHandle).is_none());
    assert!(!switchboard.contains(ChannelHandle::Testing));
    assert_eq!(list.len(), 0);
    assert_eq!(table.into_extensions().len(), 0);
}

#[test]
fn test_terminate_without_extensions_succeeds() {
    let handler = handler(&echo_module(), vec![]);
    let mut wasm_state = handler.init_wasm_state(b"request".to_vec()).unwrap();
    assert!(wasm_state.terminate_extensions().is_ok());
    assert_eq!(wasm_state.get_request_bytes(), b"request".to_vec());
    assert_eq!(wasm_state.get_response_bytes(), Vec::<u8>::new());

    // With an extension whose termination fails, the failure is reported, and
    // a second termination finds nothing left to terminate.
    let factory = FailingFactory { fail_create: false, status: None, fail_terminate: true };
    let handler = self::handler(&echo_module(), vec![Box::new(factory)]);
    let mut wasm_state = handler.init_wasm_state(vec![]).unwrap();
    assert_eq!(wasm_state.terminate_extensions().unwrap_err().message, "terminate failed");
    assert!(wasm_state.terminate_extensions().is_ok());
}

#[test]
fn test_state_keeps_its_channels_when_the_extensions_are_terminated() {
    let bound = Arc::new(Mutex::new(0));
    let module = module(
        r#"
  (func (export "main")
    (i32.store (i32.const 0) (call $channel_read (i32.const 1) (i32.const 8) (i32.const 12)))
    (drop (call $write_response (i32.const 0) (i32.const 4))))
"#,
    );
    let handler = handler(&module, vec![Box::new(TestingFactory { bound: bound.clone() })]);
    let mut wasm_state = handler.init_wasm_state(vec![]).unwrap();
    assert!(wasm_state.terminate_extensions().is_ok());
    assert!(wasm_state.invoke().is_ok());
    assert_eq!(wasm_state.get_response_bytes(), code(ChannelStatus::ChannelOk.code()));
}
