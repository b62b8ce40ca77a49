//! Extensions: host functionality that a guest reaches by handle or by channel.

use crate::abi::{ChannelHandle, ExtensionHandle, OakStatus};
use crate::channel::Endpoint;
use vstd::prelude::*;

verus! {

/// Failure of an extension outside a guest call: when it is created or when it
/// is terminated.
#[derive(Clone, Debug)]
pub struct ExtensionError {
    pub message: String,
}

/// A native extension: the guest calls it through the `invoke` host function
/// with the extension's handle.
pub trait OakApiNativeExtension {
    /// The handle that the extension is made for.
    spec fn spec_handle(&self) -> ExtensionHandle;

    /// Handles one call of the guest and gives the bytes to hand back, or the
    /// status that the guest receives instead.
    fn invoke(&mut self, request: Vec<u8>) -> Result<Vec<u8>, OakStatus>;

    /// Cleans up before the extension is dropped at the end of the request.
    fn terminate(&mut self) -> Result<(), ExtensionError>;

    /// The handle under which the guest reaches this extension: the one that it
    /// is made for.
    fn get_handle(&self) -> (handle: ExtensionHandle)
        ensures
            handle == self.spec_handle(),
    ;
}

/// A channel-based extension: it holds one endpoint of a channel whose other
/// endpoint the guest reads and writes by channel handle.
pub trait UwabiExtension {
    /// The channel handle that the extension is made for.
    spec fn spec_channel_handle(&self) -> ChannelHandle;

    /// Whether the extension holds an endpoint.
    spec fn spec_bound(&self) -> bool;

    /// The channel handle by which the guest addresses this extension: the one
    /// that it is made for.
    fn get_channel_handle(&self) -> (handle: ChannelHandle)
        ensures
            handle == self.spec_channel_handle(),
    ;

    /// The endpoint of the extension, once it is bound.
    fn get_endpoint_mut(&mut self) -> Option<&mut Endpoint>;

    /// Binds the endpoint, unless one is bound already: the extension holds an
    /// endpoint from then on, and is made for the channel handle that it was
    /// made for.
    fn set_endpoint(&mut self, endpoint: Endpoint)
        ensures
            final(self).spec_bound(),
            final(self).spec_channel_handle() == old(self).spec_channel_handle(),
    ;
}

/// An extension of either kind.
pub enum BoxedExtension {
    Native(Box<dyn OakApiNativeExtension>),
    Uwabi(Box<dyn UwabiExtension>),
}

/// What an extension is made for: a native one for an extension handle, a
/// channel-based one for a channel handle.
#[derive(Clone, Copy, Debug, PartialEq, Eq, Structural)]
pub enum ExtensionKind {
    Native(ExtensionHandle),
    Uwabi(ChannelHandle),
}

impl BoxedExtension {
    /// What the extension is made for.
    pub open spec fn spec_kind(&self) -> ExtensionKind {
        match self {
            BoxedExtension::Native(extension) => ExtensionKind::Native(extension.spec_handle()),
            BoxedExtension::Uwabi(extension) => ExtensionKind::Uwabi(
                extension.spec_channel_handle(),
            ),
        }
    }
}

/// Makes a fresh extension for each request.
pub trait ExtensionFactory: Send + Sync {
    /// What the extensions of the factory are made for.
    spec fn spec_makes(&self) -> ExtensionKind;

    /// Makes a fresh extension. Where it makes one, the extension is made for
    /// what the factory says.
    fn create(&self) -> (made: Result<BoxedExtension, ExtensionError>)
        ensures
            made matches Ok(extension) ==> extension.spec_kind() == self.spec_makes(),
    ;
}

} // verus!
