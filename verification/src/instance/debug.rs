//! Debug callbacks.
//!
//! A debug callback registers a trampoline that the driver calls on
//! validation and diagnostic events. The trampoline itself belongs to the
//! front end; what it answers the driver is decided here.

use vstd::prelude::*;
use crate::capability::Capability;
use crate::error::{Error, Misuse};
use crate::instance::loader::InstanceLoader;
use crate::instance::{completion, Instance, Owned};
use crate::loader::{Bundle, LoaderView};
use crate::native::{Bool32, Created, Teardown, FALSE, TRUE};

verus! {

/// The event is informational.
pub const DEBUG_REPORT_INFORMATION_BIT: u32 = 0x01;

/// The event is a warning.
pub const DEBUG_REPORT_WARNING_BIT: u32 = 0x02;

/// The event is a warning about performance.
pub const DEBUG_REPORT_PERFORMANCE_WARNING_BIT: u32 = 0x04;

/// The event is an error.
pub const DEBUG_REPORT_ERROR_BIT: u32 = 0x08;

/// The event is diagnostic output of a layer.
pub const DEBUG_REPORT_DEBUG_BIT: u32 = 0x10;

/// The events that a debug callback is registered for: errors, warnings
/// and warnings about performance.
pub const DEBUG_REPORT_REGISTERED: u32 = 0x0e;

/// What the trampoline answers the driver for an event with these
/// severity flags: true exactly where the event is an error.
pub open spec fn verdict(flags: u32) -> Bool32 {
    if flags & DEBUG_REPORT_ERROR_BIT != 0 {
        TRUE
    } else {
        FALSE
    }
}

/// Decides what the trampoline answers the driver: whether the event is to
/// be treated as a hard validation failure. That is so for events of error
/// severity only.
pub fn report_verdict(flags: u32) -> (answer: Bool32)
    ensures
        answer == verdict(flags),
{
    if flags & DEBUG_REPORT_ERROR_BIT != 0 {
        TRUE
    } else {
        FALSE
    }
}

/// The law of the trampoline: an event that is a warning, informational or
/// diagnostic, and not an error, is never answered with true; an event that
/// carries the error bit always is.
pub proof fn lemma_verdict(flags: u32)
    ensures
        flags & !(DEBUG_REPORT_INFORMATION_BIT | DEBUG_REPORT_WARNING_BIT
            | DEBUG_REPORT_PERFORMANCE_WARNING_BIT | DEBUG_REPORT_DEBUG_BIT) == 0 ==> verdict(flags)
            == FALSE,
        flags & DEBUG_REPORT_ERROR_BIT == DEBUG_REPORT_ERROR_BIT ==> verdict(flags) == TRUE,
        verdict(flags) == TRUE || verdict(flags) == FALSE,
{
    assert(flags & !(0x01u32 | 0x02u32 | 0x04u32 | 0x10u32) == 0 ==> flags & 0x08u32 == 0)
        by (bit_vector);
    assert(flags & 0x08u32 == 0x08u32 ==> flags & 0x08u32 != 0) by (bit_vector);
}

/// What the native call that registers the callback is handed.
#[derive(Debug, Clone, Copy, PartialEq, Eq, Structural)]
pub struct DebugCallbackRequest {
    /// The instance to register the callback with.
    pub instance: u64,
    /// The severities to be called for.
    pub flags: u32,
}

/// A debug callback that is ready for its native registration call.
#[derive(Debug)]
pub struct PendingDebugCallback {
    loader: InstanceLoader,
    request: DebugCallbackRequest,
}

impl PendingDebugCallback {
    /// The loader that the callback will keep.
    pub closed spec fn loader_view(self) -> LoaderView {
        self.loader@
    }

    /// The request for the native registration call.
    pub closed spec fn request_view(self) -> DebugCallbackRequest {
        self.request
    }

    /// The request for the native registration call.
    pub fn request(&self) -> (request: &DebugCallbackRequest)
        ensures
            *request == self.request_view(),
    {
        &self.request
    }
}

/// What a debug callback is, as a mathematical value.
pub struct DebugCallbackView {
    /// The native handle.
    pub callback: u64,
    /// The handle of the instance that owns the callback.
    pub instance: u64,
    /// The loader through which the callback is removed.
    pub loader: LoaderView,
}

/// A registered debug callback.
#[derive(Debug)]
pub struct DebugCallback {
    loader: InstanceLoader,
    instance: u64,
    callback: u64,
}

impl View for DebugCallback {
    type V = DebugCallbackView;

    closed spec fn view(&self) -> DebugCallbackView {
        DebugCallbackView { callback: self.callback, instance: self.instance, loader: self.loader@ }
    }
}

impl DebugCallback {
    /// Settles what can be settled before the native registration call:
    /// the loader, which the callback will keep, must hold the bundle of
    /// debug reports.
    pub fn prepare(instance: u64, loader: InstanceLoader) -> (res: Result<
        PendingDebugCallback,
        Error,
    >)
        ensures
            match res {
                Ok(pending) => {
                    &&& loader@.require_result(Bundle::Extension(Capability::ExtDebugReport)) is Ok
                    &&& pending.loader_view() == loader@
                    &&& pending.request_view() == (DebugCallbackRequest {
                        instance,
                        flags: DEBUG_REPORT_REGISTERED,
                    })
                },
                Err(e) => loader@.require_result(Bundle::Extension(Capability::ExtDebugReport))
                    == Err::<(), Error>(e),
            },
    {
        match loader.require(Bundle::Extension(Capability::ExtDebugReport)) {
            Ok(()) => Ok(
                PendingDebugCallback {
                    loader,
                    request: DebugCallbackRequest { instance, flags: DEBUG_REPORT_REGISTERED },
                },
            ),
            Err(e) => Err(e),
        }
    }

    /// Completes the registration from the answer of the native call. A
    /// callback is completed only at the instance that it was prepared for:
    /// any other instance refuses it as not owned. A call that failed gives
    /// its code as a native error. Either way the instance stays as it was.
    /// On success the instance takes the callback on record.
    pub fn new(parent: &mut Instance, pending: PendingDebugCallback, reply: Created) -> (res:
        Result<DebugCallback, Error>)
        ensures
            match res {
                Ok(callback) => {
                    &&& completion(pending.request_view().instance, old(parent)@.handle, reply)
                        == Ok::<u64, Error>(callback@.callback)
                    &&& callback@.instance == old(parent)@.handle
                    &&& callback@.loader == pending.loader_view()
                    &&& final(parent)@ == old(parent)@.adopted(
                        Owned::DebugCallback(callback@.callback),
                    )
                },
                Err(e) => completion(pending.request_view().instance, old(parent)@.handle, reply)
                    == Err::<u64, Error>(e) && final(parent)@ == old(parent)@,
            },
    {
        let handle = match parent.completes(pending.request.instance, reply) {
            Ok(handle) => handle,
            Err(e) => {
                return Err(e);
            },
        };
        let PendingDebugCallback { loader, request: _ } = pending;
        parent.adopt(Owned::DebugCallback(handle));
        Ok(DebugCallback { loader, instance: parent.inner(), callback: handle })
    }

    /// The native handle.
    pub fn inner(&self) -> (handle: u64)
        ensures
            handle == self@.callback,
    {
        self.callback
    }

    /// The handle of the instance that owns the callback.
    pub fn instance(&self) -> (handle: u64)
        ensures
            handle == self@.instance,
    {
        self.instance
    }

    /// Removes the callback: takes it off the record of the instance that
    /// owns it and gives the native call to make. Refused where the
    /// instance is not the owner, or no longer has the callback on record;
    /// then no call is to be made.
    pub fn destroy(self, parent: &mut Instance) -> (res: Result<Teardown, Error>)
        ensures
            old(parent)@.handle == self@.instance ==> res == old(parent)@.release_result(
                Owned::DebugCallback(self@.callback),
            ) && final(parent)@ == old(parent)@.released(Owned::DebugCallback(self@.callback)),
            old(parent)@.handle != self@.instance ==> res == Err::<Teardown, Error>(
                Error::Misuse(Misuse::NotOwned),
            ) && final(parent)@ == old(parent)@,
    {
        if parent.inner() == self.instance {
            parent.release(Owned::DebugCallback(self.callback))
        } else {
            Err(Error::Misuse(Misuse::NotOwned))
        }
    }
}

impl Instance {
    /// Settles what can be settled before a debug callback is registered
    /// with this instance.
    pub fn prepare_debug_callback(&self, loader: InstanceLoader) -> (res: Result<
        PendingDebugCallback,
        Error,
    >)
        ensures
            match res {
                Ok(pending) => {
                    &&& loader@.require_result(Bundle::Extension(Capability::ExtDebugReport)) is Ok
                    &&& pending.loader_view() == loader@
                    &&& pending.request_view() == (DebugCallbackRequest {
                        instance: self@.handle,
                        flags: DEBUG_REPORT_REGISTERED,
                    })
                },
                Err(e) => loader@.require_result(Bundle::Extension(Capability::ExtDebugReport))
                    == Err::<(), Error>(e),
            },
    {
        DebugCallback::prepare(self.inner(), loader)
    }

    /// Completes the registration of a debug callback with this instance
    /// from the answer of the native call. A callback that was prepared for
    /// another instance is refused as not owned.
    pub fn get_debug_callback(&mut self, pending: PendingDebugCallback, reply: Created) -> (res:
        Result<DebugCallback, Error>)
        ensures
            match res {
                Ok(callback) => {
                    &&& completion(pending.request_view().instance, old(self)@.handle, reply)
                        == Ok::<u64, Error>(callback@.callback)
                    &&& callback@.instance == old(self)@.handle
                    &&& callback@.loader == pending.loader_view()
                    &&& final(self)@ == old(self)@.adopted(Owned::DebugCallback(callback@.callback))
                },
                Err(e) => completion(pending.request_view().instance, old(self)@.handle, reply)
                    == Err::<u64, Error>(e) && final(self)@ == old(self)@,
            },
    {
        DebugCallback::new(self, pending, reply)
    }
}

} // verus!
