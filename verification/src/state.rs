//! What the host keeps for one request: the request and response bytes, the
//! extensions and the channel switchboard.

use crate::abi::{ChannelHandle, ChannelStatus, ExtensionHandle, OakStatus};
use crate::channel::{ChannelSwitchboard, UwabiMessage};
use crate::extension::{ExtensionError, OakApiNativeExtension, UwabiExtension};
use crate::logger::{Level, OakLogger};
use vstd::prelude::*;

verus! {

/// The native extensions of a request by the code of their handle. It is a
/// `hashbrown::HashMap`, which Verus does not look into: the codes that it
/// holds are named by `spec_registered`.
#[verifier::external_body]
pub struct ExtensionTable {
    inner: hashbrown::HashMap<i32, Box<dyn OakApiNativeExtension>>,
}

/// The handle codes for which a table holds an extension.
pub uninterp spec fn spec_registered(table: ExtensionTable) -> Set<int>;

/// No handle code.
pub open spec fn spec_no_codes() -> Set<int> {
    Set::empty()
}

/// `HashMap::new`: an empty table.
#[verifier::external_body]
fn table_new() -> (table: ExtensionTable)
    ensures
        spec_registered(table) == spec_no_codes(),
{
    ExtensionTable { inner: hashbrown::HashMap::new() }
}

/// `HashMap::insert`: the table then holds the extension under the code. An
/// extension that it held under the code before is handed back.
#[verifier::external_body]
fn table_insert(
    table: &mut ExtensionTable,
    code: i32,
    extension: Box<dyn OakApiNativeExtension>,
) -> (previous: Option<Box<dyn OakApiNativeExtension>>)
    ensures
        spec_registered(*final(table)) == spec_registered(*old(table)).insert(code as int),
        previous is Some <==> spec_registered(*old(table)).contains(code as int),
{
    table.inner.insert(code, extension)
}

/// `HashMap::get_mut`: the extension held under the code, if any. The table
/// keeps its codes.
#[verifier::external_body]
fn table_get_mut(table: &mut ExtensionTable, code: i32) -> (found: Option<
    &mut Box<dyn OakApiNativeExtension>,
>)
    ensures
        found is Some <==> spec_registered(*old(table)).contains(code as int),
        spec_registered(*final(table)) == spec_registered(*old(table)),
{
    table.inner.get_mut(&code)
}

/// Whether there are finitely many codes, and `count` of them.
pub open spec fn spec_count_is(codes: Set<int>, count: nat) -> bool {
    codes.finite() && codes.len() == count
}

/// `HashMap::into_values`, collected: the extensions of the table, one for each
/// code that the table holds, in no order that could be told beforehand.
#[verifier::external_body]
fn table_into_values(table: ExtensionTable) -> (extensions: Vec<Box<dyn OakApiNativeExtension>>)
    ensures
        spec_count_is(spec_registered(table), extensions@.len()),
{
    table.inner.into_values().collect()
}

impl ExtensionTable {
    /// The handles for which the table holds an extension.
    pub open spec fn spec_handles(&self) -> Set<ExtensionHandle> {
        Set::new(|handle: ExtensionHandle| spec_registered(*self).contains(handle.spec_code()))
    }

    /// An empty table.
    pub fn new() -> (table: ExtensionTable)
        ensures
            table.spec_handles() == Set::<ExtensionHandle>::empty(),
            spec_registered(table) == spec_no_codes(),
    {
        let table = table_new();
        assert(table.spec_handles() =~= Set::<ExtensionHandle>::empty());
        table
    }

    /// Puts an extension under a handle. An extension that was there before is
    /// dropped.
    pub fn insert(&mut self, handle: ExtensionHandle, extension: Box<dyn OakApiNativeExtension>)
        ensures
            final(self).spec_handles() == old(self).spec_handles().insert(handle),
            spec_registered(*final(self)) == spec_registered(*old(self)).insert(handle.spec_code()),
    {
        let _ = table_insert(self, handle.code(), extension);
        proof {
            assert forall|h: ExtensionHandle|
                self.spec_handles().contains(h) == old(self).spec_handles().insert(
                    handle,
                ).contains(h) by {
                crate::abi::lemma_extension_handle_codes_injective(h, handle);
            }
            assert(self.spec_handles() =~= old(self).spec_handles().insert(handle));
        }
    }

    /// The extension under a handle.
    pub fn get_mut(&mut self, handle: ExtensionHandle) -> (found: Option<
        &mut Box<dyn OakApiNativeExtension>,
    >)
        ensures
            found is Some <==> old(self).spec_handles().contains(handle),
            final(self).spec_handles() == old(self).spec_handles(),
            spec_registered(*final(self)) == spec_registered(*old(self)),
    {
        table_get_mut(self, handle.code())
    }

    /// Takes the table apart into its extensions: one for each code that the
    /// table holds.
    pub fn into_extensions(self) -> (extensions: Vec<Box<dyn OakApiNativeExtension>>)
        ensures
            spec_count_is(spec_registered(self), extensions@.len()),
    {
        table_into_values(self)
    }
}

/// What a run of terminations is to report after one more termination, given
/// the failure that it had to report before, if any.
pub open spec fn spec_keep_first(first: Option<ExtensionError>, outcome: Result<(), ExtensionError>) -> Option<
    ExtensionError,
> {
    match first {
        Some(error) => Some(error),
        None => match outcome {
            Ok(()) => None,
            Err(error) => Some(error),
        },
    }
}

/// Takes note of the outcome of one termination: the first failure is kept,
/// later ones are dropped.
pub fn keep_first(first: Option<ExtensionError>, outcome: Result<(), ExtensionError>) -> (kept:
    Option<ExtensionError>)
    ensures
        kept == spec_keep_first(first, outcome),
{
    match first {
        Some(error) => Some(error),
        None => match outcome {
            Ok(()) => None,
            Err(error) => Some(error),
        },
    }
}

/// Terminates every extension, one after the other, and drops them. A failure
/// does not keep the later extensions from being terminated; the first failure
/// is reported, as `keep_first` has it. What a termination gives is the matter
/// of the extension; without extensions there is no failure.
pub fn terminate_all(extensions: Vec<Box<dyn OakApiNativeExtension>>) -> (done: Result<
    (),
    ExtensionError,
>)
    ensures
        extensions@.len() == 0 ==> done is Ok,
{
    let ghost count = extensions@.len();
    let mut extensions = extensions;
    let mut first: Option<ExtensionError> = None;
    let mut i: usize = 0;
    while i < extensions.len()
        invariant
            i <= extensions@.len(),
            extensions@.len() == count,
            i == 0 ==> first is None,
        decreases extensions@.len() - i,
    {
        first = keep_first(first, extensions[i].terminate());
        i = i + 1;
    }
    match first {
        Some(error) => Err(error),
        None => Ok(()),
    }
}

/// The state of one request. It is made when the request is accepted and
/// dropped when the response is shaped: nothing of it outlives the request.
pub struct UserState {
    request_bytes: Vec<u8>,
    response_bytes: Vec<u8>,
    extensions: ExtensionTable,
    channel_switchboard: ChannelSwitchboard,
    uwabi_extensions: Vec<Box<dyn UwabiExtension>>,
    logger: Box<dyn OakLogger>,
}

impl UserState {
    /// The bytes of the request. They never change.
    pub closed spec fn spec_request_bytes(&self) -> Seq<u8> {
        self.request_bytes@
    }

    /// The bytes of the response: what the guest wrote last, or nothing.
    pub closed spec fn spec_response_bytes(&self) -> Seq<u8> {
        self.response_bytes@
    }

    /// The handles under which the guest reaches a native extension.
    pub closed spec fn spec_extension_handles(&self) -> Set<ExtensionHandle> {
        self.extensions.spec_handles()
    }

    /// The handle codes for which the state holds a native extension.
    pub closed spec fn spec_extension_codes(&self) -> Set<int> {
        spec_registered(self.extensions)
    }

    /// The handles under which the guest reaches a channel.
    pub closed spec fn spec_channel_handles(&self) -> Set<ChannelHandle> {
        self.channel_switchboard.spec_handles()
    }

    /// Whether the guest reaches a native extension by this integer.
    pub open spec fn spec_has_extension(&self, handle: int) -> bool {
        match ExtensionHandle::spec_from_i32(handle) {
            Some(h) => self.spec_extension_handles().contains(h),
            None => false,
        }
    }

    /// Whether the guest reaches a channel by this integer.
    pub open spec fn spec_has_channel(&self, channel_handle: int) -> bool {
        match ChannelHandle::spec_from_i32(channel_handle) {
            Some(h) => self.spec_channel_handles().contains(h),
            None => false,
        }
    }

    /// The state at the start of a request: the response is empty.
    pub fn init(
        request_bytes: Vec<u8>,
        extensions: ExtensionTable,
        channel_switchboard: ChannelSwitchboard,
        uwabi_extensions: Vec<Box<dyn UwabiExtension>>,
        logger: Box<dyn OakLogger>,
    ) -> (state: UserState)
        ensures
            state.spec_request_bytes() == request_bytes@,
            state.spec_response_bytes() == Seq::<u8>::empty(),
            state.spec_extension_handles() == extensions.spec_handles(),
            state.spec_extension_codes() == spec_registered(extensions),
            state.spec_channel_handles() == channel_switchboard.spec_handles(),
    {
        UserState {
            request_bytes,
            response_bytes: Vec::new(),
            extensions,
            channel_switchboard,
            uwabi_extensions,
            logger,
        }
    }

    /// The bytes of the request.
    pub fn request_bytes(&self) -> (bytes: &[u8])
        ensures
            bytes@ == self.spec_request_bytes(),
    {
        self.request_bytes.as_slice()
    }

    /// The bytes of the response.
    pub fn response_bytes(&self) -> (bytes: &[u8])
        ensures
            bytes@ == self.spec_response_bytes(),
    {
        self.response_bytes.as_slice()
    }

    /// Replaces the bytes of the response: the last writer wins.
    pub fn set_response_bytes(&mut self, bytes: Vec<u8>)
        ensures
            final(self).spec_response_bytes() == bytes@,
            final(self).spec_request_bytes() == old(self).spec_request_bytes(),
            final(self).spec_extension_handles() == old(self).spec_extension_handles(),
            final(self).spec_extension_codes() == old(self).spec_extension_codes(),
            final(self).spec_channel_handles() == old(self).spec_channel_handles(),
    {
        self.response_bytes = bytes;
    }

    /// The native extension that the guest names by an integer. An integer that
    /// is the code of no handle, or of a handle without an extension, gives
    /// `ErrInvalidHandle`.
    pub fn get_extension(&mut self, handle: i32) -> (found: Result<
        &mut Box<dyn OakApiNativeExtension>,
        OakStatus,
    >)
        ensures
            found is Ok <==> old(self).spec_has_extension(handle as int),
            found matches Err(status) ==> status == OakStatus::ErrInvalidHandle,
            final(self).spec_request_bytes() == old(self).spec_request_bytes(),
            final(self).spec_response_bytes() == old(self).spec_response_bytes(),
            final(self).spec_extension_handles() == old(self).spec_extension_handles(),
            final(self).spec_extension_codes() == old(self).spec_extension_codes(),
            final(self).spec_channel_handles() == old(self).spec_channel_handles(),
    {
        match ExtensionHandle::from_i32(handle) {
            Some(extension_handle) => {
                match self.extensions.get_mut(extension_handle) {
                    Some(extension) => Ok(extension),
                    None => Err(OakStatus::ErrInvalidHandle),
                }
            },
            None => Err(OakStatus::ErrInvalidHandle),
        }
    }

    /// Sends a message on the channel that the guest names by an integer. An
    /// integer that is the code of no handle, or of a handle without a channel,
    /// gives `ChannelHandleInvalid`, and nothing else gives it.
    pub fn channel_send(&self, channel_handle: i32, message: UwabiMessage) -> (sent: Result<
        (),
        ChannelStatus,
    >)
        ensures
            !self.spec_has_channel(channel_handle as int) <==> sent == Err::<(), ChannelStatus>(
                ChannelStatus::ChannelHandleInvalid,
            ),
            sent matches Err(status) ==> status == ChannelStatus::ChannelHandleInvalid || status
                == ChannelStatus::ChannelFull || status == ChannelStatus::ChannelEndpointClosed,
    {
        match ChannelHandle::from_i32(channel_handle) {
            Some(handle) => self.channel_switchboard.send(handle, message),
            None => Err(ChannelStatus::ChannelHandleInvalid),
        }
    }

    /// Takes the next message from the channel that the guest names by an
    /// integer. An integer that is the code of no handle, or of a handle
    /// without a channel, gives `ChannelHandleInvalid`, and nothing else
    /// gives it.
    pub fn channel_try_recv(&mut self, channel_handle: i32) -> (received: Result<
        UwabiMessage,
        ChannelStatus,
    >)
        ensures
            !old(self).spec_has_channel(channel_handle as int) <==> received == Err::<
                UwabiMessage,
                ChannelStatus,
            >(ChannelStatus::ChannelHandleInvalid),
            received matches Err(status) ==> status == ChannelStatus::ChannelHandleInvalid
                || status == ChannelStatus::ChannelEmpty || status
                == ChannelStatus::ChannelEndpointDisconnected,
            final(self).spec_request_bytes() == old(self).spec_request_bytes(),
            final(self).spec_response_bytes() == old(self).spec_response_bytes(),
            final(self).spec_extension_handles() == old(self).spec_extension_handles(),
            final(self).spec_extension_codes() == old(self).spec_extension_codes(),
            final(self).spec_channel_handles() == old(self).spec_channel_handles(),
    {
        match ChannelHandle::from_i32(channel_handle) {
            Some(handle) => self.channel_switchboard.try_recv(handle),
            None => Err(ChannelStatus::ChannelHandleInvalid),
        }
    }

    /// Writes a log line that may hold data of the request.
    pub fn log_sensitive(&self, level: Level, message: &str) {
        self.logger.log_sensitive(level, message)
    }

    /// Terminates the native extensions and drops them. Every extension is
    /// terminated, whether or not another failed before; the first failure is
    /// reported. A state that holds no native extension has nothing to
    /// terminate, and so no failure to report.
    pub fn terminate_extensions(&mut self) -> (done: Result<(), ExtensionError>)
        ensures
            old(self).spec_extension_codes() == spec_no_codes() ==> done is Ok,
            final(self).spec_extension_handles() == Set::<ExtensionHandle>::empty(),
            final(self).spec_extension_codes() == spec_no_codes(),
            final(self).spec_request_bytes() == old(self).spec_request_bytes(),
            final(self).spec_response_bytes() == old(self).spec_response_bytes(),
            final(self).spec_channel_handles() == old(self).spec_channel_handles(),
    {
        let mut table = ExtensionTable::new();
        std::mem::swap(&mut self.extensions, &mut table);
        terminate_all(table.into_extensions())
    }
}

} // verus!
