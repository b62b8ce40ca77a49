//! The workload logging extension: the guest hands it text, and the text goes
//! to the log as a line that may hold sensitive data.

use crate::abi::{ExtensionHandle, OakStatus};
use crate::extension::{
    BoxedExtension, ExtensionError, ExtensionFactory, ExtensionKind, OakApiNativeExtension,
};
use crate::host::guest_log_line;
use crate::logger::{Level, OakLogger};
use crate::text::decode_text;
use vstd::prelude::*;
use vstd::utf8::*;

verus! {

/// Logs what the guest hands it.
pub struct WorkloadLoggingExtension<L: OakLogger> {
    logger: L,
}

impl<L: OakLogger> WorkloadLoggingExtension<L> {
    /// The logger that the extension writes to.
    pub closed spec fn spec_logger(&self) -> L {
        self.logger
    }

    /// An extension that logs to the given logger.
    pub fn new(logger: L) -> (extension: Self)
        ensures
            extension.spec_logger() == logger,
    {
        WorkloadLoggingExtension { logger }
    }
}

impl<L: OakLogger> OakApiNativeExtension for WorkloadLoggingExtension<L> {
    open spec fn spec_handle(&self) -> ExtensionHandle {
        ExtensionHandle::LoggingHandle
    }

    /// Logs the request as one line and answers with nothing. A request that is
    /// not valid UTF-8 gives `ErrInvalidArgs`.
    fn invoke(&mut self, request: Vec<u8>) -> (response: Result<Vec<u8>, OakStatus>)
        ensures
            valid_utf8(request@) ==> (response matches Ok(bytes) && bytes@.len() == 0),
            !valid_utf8(request@) ==> (response matches Err(status) && status
                == OakStatus::ErrInvalidArgs),
    {
        match decode_text(request.as_slice()) {
            Some(message) => {
                self.logger.log_sensitive(
                    Level::Debug,
                    guest_log_line(message.as_str()).as_str(),
                );
                Ok(Vec::new())
            },
            None => {
                self.logger.log_sensitive(
                    Level::Warn,
                    "workload logging: Not a valid UTF-8 encoded string",
                );
                Err(OakStatus::ErrInvalidArgs)
            },
        }
    }

    fn terminate(&mut self) -> (done: Result<(), ExtensionError>)
        ensures
            done is Ok,
    {
        Ok(())
    }

    fn get_handle(&self) -> (handle: ExtensionHandle)
        ensures
            handle == ExtensionHandle::LoggingHandle,
            handle == self.spec_handle(),
    {
        ExtensionHandle::LoggingHandle
    }
}

/// Makes a workload logging extension for each request.
pub struct WorkloadLoggingFactory<L: OakLogger + Clone + Send + Sync + 'static> {
    logger: L,
}

impl<L: OakLogger + Clone + Send + Sync + 'static> WorkloadLoggingFactory<L> {
    /// The logger of which the extensions of the factory get copies.
    pub closed spec fn spec_logger(&self) -> L {
        self.logger
    }

    /// A factory whose extensions log to copies of the given logger.
    pub fn new(logger: L) -> (factory: Self)
        ensures
            factory.spec_logger() == logger,
    {
        WorkloadLoggingFactory { logger }
    }

    /// A factory whose extensions log to copies of the given logger, as the
    /// handler takes it: a factory of extensions for the logging handle. It
    /// never fails.
    pub fn new_boxed_extension_factory(logger: L) -> (factory: Result<
        Box<dyn ExtensionFactory>,
        ExtensionError,
    >)
        ensures
            factory matches Ok(made) && made.spec_makes() == ExtensionKind::Native(
                ExtensionHandle::LoggingHandle,
            ),
    {
        Ok(Box::new(WorkloadLoggingFactory::new(logger)))
    }

    /// A fresh extension that logs to a copy of the logger of the factory.
    pub fn extension(&self) -> (extension: WorkloadLoggingExtension<L>)
        ensures
            cloned(self.spec_logger(), extension.spec_logger()),
    {
        WorkloadLoggingExtension::new(self.logger.clone())
    }
}

impl<L: OakLogger + Clone + Send + Sync + 'static> ExtensionFactory for WorkloadLoggingFactory<L> {
    open spec fn spec_makes(&self) -> ExtensionKind {
        ExtensionKind::Native(ExtensionHandle::LoggingHandle)
    }

    /// Makes a fresh native extension for the logging handle. It never fails.
    fn create(&self) -> (extension: Result<BoxedExtension, ExtensionError>)
        ensures
            extension matches Ok(BoxedExtension::Native(made)) && made.spec_handle()
                == ExtensionHandle::LoggingHandle,
    {
        Ok(BoxedExtension::Native(Box::new(self.extension())))
    }
}

} // verus!
