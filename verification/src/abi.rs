//! Status codes and handles exchanged with the guest as 32-bit integers.

use vstd::prelude::*;

verus! {

/// Status of a request, response, logging or extension call. `Success` is the
/// status that the guest interface calls `OK`.
#[derive(Clone, Copy, Debug, PartialEq, Eq, Structural)]
pub enum OakStatus {
    Success,
    ErrInvalidHandle,
    ErrInvalidArgs,
}

impl OakStatus {
    /// The integer that the guest receives for this status.
    pub open spec fn spec_code(self) -> int {
        match self {
            OakStatus::Success => 1,
            OakStatus::ErrInvalidHandle => 2,
            OakStatus::ErrInvalidArgs => 3,
        }
    }

    pub fn code(self) -> (code: i32)
        ensures
            code == self.spec_code(),
    {
        match self {
            OakStatus::Success => 1,
            OakStatus::ErrInvalidHandle => 2,
            OakStatus::ErrInvalidArgs => 3,
        }
    }
}

/// Status of a channel call.
#[derive(Clone, Copy, Debug, PartialEq, Eq, Structural)]
pub enum ChannelStatus {
    ChannelOk,
    ChannelEmpty,
    ChannelFull,
    ChannelHandleInvalid,
    ChannelEndpointDisconnected,
    ChannelEndpointClosed,
    ChannelInvalidArgs,
}

impl ChannelStatus {
    /// The integer that the guest receives for this status.
    pub open spec fn spec_code(self) -> int {
        match self {
            ChannelStatus::ChannelOk => 1,
            ChannelStatus::ChannelEmpty => 2,
            ChannelStatus::ChannelFull => 3,
            ChannelStatus::ChannelHandleInvalid => 4,
            ChannelStatus::ChannelEndpointDisconnected => 5,
            ChannelStatus::ChannelEndpointClosed => 6,
            ChannelStatus::ChannelInvalidArgs => 7,
        }
    }

    pub fn code(self) -> (code: i32)
        ensures
            code == self.spec_code(),
    {
        match self {
            ChannelStatus::ChannelOk => 1,
            ChannelStatus::ChannelEmpty => 2,
            ChannelStatus::ChannelFull => 3,
            ChannelStatus::ChannelHandleInvalid => 4,
            ChannelStatus::ChannelEndpointDisconnected => 5,
            ChannelStatus::ChannelEndpointClosed => 6,
            ChannelStatus::ChannelInvalidArgs => 7,
        }
    }
}

/// Tag of a native extension, one per extension kind.
#[derive(Clone, Copy, Debug, PartialEq, Eq, Structural)]
pub enum ExtensionHandle {
    InvalidHandle,
    LookupHandle,
    LoggingHandle,
    TestingHandle,
    UserHandle,
}

impl ExtensionHandle {
    pub open spec fn spec_code(self) -> int {
        match self {
            ExtensionHandle::InvalidHandle => 0,
            ExtensionHandle::LookupHandle => 1,
            ExtensionHandle::LoggingHandle => 2,
            ExtensionHandle::TestingHandle => 3,
            ExtensionHandle::UserHandle => 4,
        }
    }

    /// The handle whose code is `value`, if there is one.
    pub open spec fn spec_from_i32(value: int) -> Option<ExtensionHandle> {
        if value == 0 {
            Some(ExtensionHandle::InvalidHandle)
        } else if value == 1 {
            Some(ExtensionHandle::LookupHandle)
        } else if value == 2 {
            Some(ExtensionHandle::LoggingHandle)
        } else if value == 3 {
            Some(ExtensionHandle::TestingHandle)
        } else if value == 4 {
            Some(ExtensionHandle::UserHandle)
        } else {
            None
        }
    }

    pub fn code(self) -> (code: i32)
        ensures
            code == self.spec_code(),
    {
        match self {
            ExtensionHandle::InvalidHandle => 0,
            ExtensionHandle::LookupHandle => 1,
            ExtensionHandle::LoggingHandle => 2,
            ExtensionHandle::TestingHandle => 3,
            ExtensionHandle::UserHandle => 4,
        }
    }

    pub fn from_i32(value: i32) -> (handle: Option<ExtensionHandle>)
        ensures
            handle == Self::spec_from_i32(value as int),
    {
        if value == 0 {
            Some(ExtensionHandle::InvalidHandle)
        } else if value == 1 {
            Some(ExtensionHandle::LookupHandle)
        } else if value == 2 {
            Some(ExtensionHandle::LoggingHandle)
        } else if value == 3 {
            Some(ExtensionHandle::TestingHandle)
        } else if value == 4 {
            Some(ExtensionHandle::UserHandle)
        } else {
            None
        }
    }
}

/// Name of a channel between the guest and a channel-based extension. Channel
/// handles and extension handles are separate namespaces.
#[derive(Clone, Copy, Debug, PartialEq, Eq, Structural)]
pub enum ChannelHandle {
    Unspecified,
    Testing,
}

impl ChannelHandle {
    pub open spec fn spec_code(self) -> int {
        match self {
            ChannelHandle::Unspecified => 0,
            ChannelHandle::Testing => 1,
        }
    }

    /// The handle whose code is `value`, if there is one.
    pub open spec fn spec_from_i32(value: int) -> Option<ChannelHandle> {
        if value == 0 {
            Some(ChannelHandle::Unspecified)
        } else if value == 1 {
            Some(ChannelHandle::Testing)
        } else {
            None
        }
    }

    pub fn code(self) -> (code: i32)
        ensures
            code == self.spec_code(),
    {
        match self {
            ChannelHandle::Unspecified => 0,
            ChannelHandle::Testing => 1,
        }
    }

    pub fn from_i32(value: i32) -> (handle: Option<ChannelHandle>)
        ensures
            handle == Self::spec_from_i32(value as int),
    {
        if value == 0 {
            Some(ChannelHandle::Unspecified)
        } else if value == 1 {
            Some(ChannelHandle::Testing)
        } else {
            None
        }
    }
}

/// The status code that stands for the outcome of a request, response, logging
/// or extension call: that of `Success` on success, else that of the error.
pub open spec fn spec_oak_status_code(result: Result<(), OakStatus>) -> int {
    match result {
        Ok(()) => OakStatus::Success.spec_code(),
        Err(status) => status.spec_code(),
    }
}

/// The status code that stands for the outcome of a channel call.
pub open spec fn spec_channel_status_code(result: Result<(), ChannelStatus>) -> int {
    match result {
        Ok(()) => ChannelStatus::ChannelOk.spec_code(),
        Err(status) => status.spec_code(),
    }
}

/// Turns the outcome of a host function into the integer handed to the guest.
pub fn from_oak_status_result(result: Result<(), OakStatus>) -> (code: i32)
    ensures
        code == spec_oak_status_code(result),
{
    match result {
        Ok(()) => OakStatus::Success.code(),
        Err(status) => status.code(),
    }
}

/// Turns the outcome of a channel function into the integer handed to the guest.
pub fn from_channel_status_result(result: Result<(), ChannelStatus>) -> (code: i32)
    ensures
        code == spec_channel_status_code(result),
{
    match result {
        Ok(()) => ChannelStatus::ChannelOk.code(),
        Err(status) => status.code(),
    }
}

/// Extension handles are told apart by their codes, and a code leads back to
/// its handle.
pub proof fn lemma_extension_handle_codes_injective(a: ExtensionHandle, b: ExtensionHandle)
    ensures
        a.spec_code() == b.spec_code() ==> a == b,
        ExtensionHandle::spec_from_i32(a.spec_code()) == Some(a),
{
}

/// Channel handles are told apart by their codes, and a code leads back to its
/// handle.
pub proof fn lemma_channel_handle_codes_injective(a: ChannelHandle, b: ChannelHandle)
    ensures
        a.spec_code() == b.spec_code() ==> a == b,
        ChannelHandle::spec_from_i32(a.spec_code()) == Some(a),
{
}

/// No error status shares its code with success, so the guest can tell every
/// failure from success.
pub proof fn lemma_status_codes_distinct(a: OakStatus, b: OakStatus, c: ChannelStatus, d: ChannelStatus)
    ensures
        a.spec_code() == b.spec_code() ==> a == b,
        c.spec_code() == d.spec_code() ==> c == d,
{
}

} // verus!
