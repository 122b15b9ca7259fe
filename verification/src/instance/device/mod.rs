//! Logical devices.
//!
//! A logical device is created against one adapter, through the
//! instance-scope loader: device creation is itself an instance-scope call.
//! It is made in two steps around that call, like the instance. On success
//! it gets a device-scope loader of its own, populated against the new
//! handle, and is taken into the ownership of the instance that made it.
//! What is created from a device is not on record here: to destroy it
//! first is the caller's obligation.

pub mod loader;

pub use self::loader::DeviceLoader;

use vstd::prelude::*;
use vstd::utf8::*;
use crate::capability::{Capability, Scope};
use crate::error::{Error, Misuse};
use crate::instance::loader::InstanceLoader;
use crate::instance::physical_device::physical_device_features::FEATURE_COUNT;
use crate::instance::physical_device::{PhysicalDevice, PhysicalDeviceFeatures};
use crate::instance::{completion, Instance, Owned};
use crate::loader::{Bundle, LoaderView};
use crate::native::{Bool32, Created, Teardown};
use crate::text::{byte_strings, bytes_of, terminated};

verus! {

/// A queue of a logical device: a view, not owned.
pub type Queue = u64;

/// The bit pattern of the highest queue priority, 1.0.
pub const FULL_PRIORITY: u32 = 0x3f80_0000;

/// What the native device-creation call is handed.
#[derive(Debug, Clone, PartialEq, Eq)]
pub struct DeviceCreateRequest {
    /// The adapter to create the device on.
    pub physical_device: u64,
    /// The queue family to create queues from.
    pub queue_family_index: u32,
    /// One priority for each queue to create, as the bit pattern of a
    /// 32-bit float.
    pub queue_priorities: Vec<u32>,
    /// The names of the device extensions to enable, each ended by a zero
    /// byte.
    pub enabled_extension_names: Vec<Vec<u8>>,
    /// The features to enable, in the order of the native fields.
    pub enabled_features: [Bool32; FEATURE_COUNT],
}

/// The names of the extensions that every logical device is created with.
pub open spec fn device_extension_names() -> Seq<Seq<char>> {
    seq![Capability::KhrSwapchain.name_text()]
}

/// Those names as the bytes that are marshalled.
pub open spec fn device_extension_texts() -> Seq<Seq<u8>> {
    bytes_of(device_extension_names())
}

/// The device-scope loader that a new device starts with: for the same
/// selection of capabilities as the instance, unpopulated, with one owner.
pub open spec fn fresh_device_loader(instance_loader: LoaderView) -> LoaderView {
    LoaderView {
        scope: Scope::Device,
        capabilities: instance_loader.capabilities,
        target: None,
        shared: false,
    }
}

/// Why a device cannot be prepared, if it cannot: the instance-scope
/// loader lacks its core bundle. The names of the extensions come from the
/// menu and never fail to be marshalled.
pub open spec fn prepare_device_failure(loader: LoaderView) -> Option<Error> {
    match loader.require_result(Bundle::Core) {
        Err(e) => Some(e),
        Ok(_) => None,
    }
}

impl DeviceCreateRequest {
    /// The request asks for queues of the given priorities from the given
    /// family, one queue for each priority, on the given adapter, with the
    /// given features and the extensions of every device.
    pub open spec fn asks(
        self,
        physical_device: u64,
        features: PhysicalDeviceFeatures,
        queue_family_index: u32,
        queue_priorities: Seq<u32>,
    ) -> bool {
        &&& self.physical_device == physical_device
        &&& self.queue_family_index == queue_family_index
        &&& self.queue_priorities@ == queue_priorities
        &&& byte_strings(self.enabled_extension_names@) == terminated(device_extension_texts())
        &&& self.enabled_features@ == features.words()
    }
}

/// A logical device that is ready for its native creation call.
#[derive(Debug)]
pub struct PendingDevice {
    instance: u64,
    loader: DeviceLoader,
    request: DeviceCreateRequest,
}

impl PendingDevice {
    #[verifier::type_invariant]
    spec fn ready(self) -> bool {
        self.loader@.load_result() is Ok
    }

    /// The handle of the instance that the device was prepared for.
    pub closed spec fn instance_view(self) -> u64 {
        self.instance
    }

    /// The handle of the instance that the device was prepared for.
    pub fn instance(&self) -> (handle: u64)
        ensures
            handle == self.instance_view(),
    {
        self.instance
    }

    /// The device-scope loader that waits to be populated.
    pub closed spec fn loader_view(self) -> LoaderView {
        self.loader@
    }

    /// The request for the native creation call.
    pub closed spec fn request_view(self) -> DeviceCreateRequest {
        self.request
    }

    /// The request for the native creation call.
    pub fn request(&self) -> (request: &DeviceCreateRequest)
        ensures
            *request == self.request_view(),
    {
        &self.request
    }
}

/// What a logical device is, as a mathematical value.
pub struct DeviceView {
    /// The native handle.
    pub device: u64,
    /// The handle of the instance that owns the device.
    pub instance: u64,
    /// The device-scope loader.
    pub loader: LoaderView,
}

/// A logical device.
#[derive(Debug)]
pub struct Device {
    device: u64,
    instance: u64,
    loader: DeviceLoader,
}

impl View for Device {
    type V = DeviceView;

    closed spec fn view(&self) -> DeviceView {
        DeviceView { device: self.device, instance: self.instance, loader: self.loader@ }
    }
}

impl Device {
    #[verifier::type_invariant]
    spec fn loaded(self) -> bool {
        self.loader@.target == Some(self.device)
    }

    /// The native handle.
    pub fn inner(&self) -> (handle: u64)
        ensures
            handle == self@.device,
    {
        self.device
    }

    /// The handle of the instance that owns the device.
    pub fn instance(&self) -> (handle: u64)
        ensures
            handle == self@.instance,
    {
        self.instance
    }

    /// The device-scope loader, which is populated against this device.
    pub fn loader(&self) -> (loader: &DeviceLoader)
        ensures
            loader@ == self@.loader,
            loader@.target == Some(self@.device),
    {
        proof {
            use_type_invariant(self);
        }
        &self.loader
    }

    /// A queue of the device, from the handle that the native layer gave
    /// for the family and the index. The queue is a view into the device:
    /// it is not owned and never destroyed.
    pub fn get_queue(&self, family_index: u32, queue_index: u32, queue: u64) -> (res: Result<
        Queue,
        Error,
    >)
        ensures
            res == Ok::<Queue, Error>(queue),
    {
        Ok(queue)
    }

    /// Destroys the device: takes it off the record of the instance that
    /// owns it and gives the native call to make. Refused where the
    /// instance is not the owner, or no longer has the device on record;
    /// then no call is to be made.
    pub fn destroy(self, parent: &mut Instance) -> (res: Result<Teardown, Error>)
        ensures
            old(parent)@.handle == self@.instance ==> res == old(parent)@.release_result(
                Owned::Device(self@.device),
            ) && final(parent)@ == old(parent)@.released(Owned::Device(self@.device)),
            old(parent)@.handle != self@.instance ==> res == Err::<Teardown, Error>(
                Error::Misuse(Misuse::NotOwned),
            ) && final(parent)@ == old(parent)@,
    {
        if parent.inner() == self.instance {
            parent.release(Owned::Device(self.device))
        } else {
            Err(Error::Misuse(Misuse::NotOwned))
        }
    }
}

impl Instance {
    /// Settles what can be settled before the native device-creation call,
    /// for a device with one queue of full priority.
    pub fn prepare_device(
        &self,
        instance_loader: &InstanceLoader,
        physical_device: &PhysicalDevice,
        enabled_physical_device_features: PhysicalDeviceFeatures,
        queue_family_index: u32,
    ) -> (res: Result<PendingDevice, Error>)
        ensures
            match res {
                Ok(pending) => {
                    &&& prepare_device_failure(instance_loader@) is None
                    &&& pending.request_view().asks(
                        physical_device.handle(),
                        enabled_physical_device_features,
                        queue_family_index,
                        seq![FULL_PRIORITY],
                    )
                    &&& pending.loader_view() == fresh_device_loader(instance_loader@)
                    &&& pending.instance_view() == self@.handle
                },
                Err(e) => prepare_device_failure(instance_loader@) == Some(e),
            },
    {
        let mut queue_priorities: Vec<u32> = Vec::new();
        queue_priorities.push(FULL_PRIORITY);
        self.prepare_device_with_queues(
            instance_loader,
            physical_device,
            enabled_physical_device_features,
            queue_family_index,
            queue_priorities,
        )
    }

    /// Settles what can be settled before the native device-creation call:
    /// the instance-scope loader must hold its core bundle, through which
    /// the call is made, and the names of the extensions are marshalled.
    /// One queue is asked for each priority of the list; a priority is the
    /// bit pattern of a 32-bit float and is handed on as it is. The
    /// device-scope loader of the new device is made here, for the same
    /// selection of capabilities, and waits to be populated.
    pub fn prepare_device_with_queues(
        &self,
        instance_loader: &InstanceLoader,
        physical_device: &PhysicalDevice,
        enabled_physical_device_features: PhysicalDeviceFeatures,
        queue_family_index: u32,
        queue_priorities: Vec<u32>,
    ) -> (res: Result<PendingDevice, Error>)
        ensures
            match res {
                Ok(pending) => {
                    &&& prepare_device_failure(instance_loader@) is None
                    &&& pending.request_view().asks(
                        physical_device.handle(),
                        enabled_physical_device_features,
                        queue_family_index,
                        queue_priorities@,
                    )
                    &&& pending.loader_view() == fresh_device_loader(instance_loader@)
                    &&& pending.instance_view() == self@.handle
                },
                Err(e) => prepare_device_failure(instance_loader@) == Some(e),
            },
    {
        let mut enabled_extension_names: Vec<Vec<u8>> = Vec::new();
        enabled_extension_names.push(Capability::KhrSwapchain.marshalled_name());
        assert(byte_strings(enabled_extension_names@) =~= terminated(device_extension_texts()));
        match instance_loader.require(Bundle::Core) {
            Ok(()) => {},
            Err(e) => {
                return Err(e);
            },
        }
        let request = DeviceCreateRequest {
            physical_device: physical_device.inner(),
            queue_family_index,
            queue_priorities,
            enabled_extension_names,
            enabled_features: enabled_physical_device_features.into_vk(),
        };
        let loader = DeviceLoader::new(instance_loader.capabilities());
        Ok(PendingDevice { instance: self.inner(), loader, request })
    }

    /// Completes the creation of a logical device from the answer of the
    /// native creation call. A device is completed only at the instance
    /// that prepared it: any other instance refuses it as not owned. A call
    /// that failed gives its code as a native error. Either way the
    /// instance stays as it was. On success the device-scope loader is
    /// populated against the new handle, and the instance takes the device
    /// on record.
    pub fn create_device(&mut self, pending: PendingDevice, reply: Created) -> (res: Result<
        Device,
        Error,
    >)
        ensures
            match res {
                Ok(device) => {
                    &&& completion(pending.instance_view(), old(self)@.handle, reply) == Ok::<
                        u64,
                        Error,
                    >(device@.device)
                    &&& device@.instance == old(self)@.handle
                    &&& device@.loader == pending.loader_view().loaded(device@.device)
                    &&& device@.loader.target == Some(device@.device)
                    &&& final(self)@ == old(self)@.adopted(Owned::Device(device@.device))
                },
                Err(e) => completion(pending.instance_view(), old(self)@.handle, reply) == Err::<
                    u64,
                    Error,
                >(e) && final(self)@ == old(self)@,
            },
    {
        proof {
            use_type_invariant(&pending);
        }
        let handle = match self.completes(pending.instance, reply) {
            Ok(handle) => handle,
            Err(e) => {
                return Err(e);
            },
        };
        let PendingDevice { instance: _, mut loader, request: _ } = pending;
        match loader.load(handle) {
            Ok(()) => {
                self.adopt(Owned::Device(handle));
                Ok(Device { device: handle, instance: self.inner(), loader })
            },
            Err(e) => Err(e),
        }
    }
}

} // verus!
