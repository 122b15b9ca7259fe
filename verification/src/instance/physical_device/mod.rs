//! Adapters: the hardware and driver units that a top-level handle reports.
//!
//! An adapter is a view. It is not owned: nothing destroys it, and it is
//! gone when the top-level handle that reported it is gone. Everything
//! asked of an adapter is a copy of what the native layer wrote at the
//! time, converted field by field.

pub mod extension_properties;
pub mod physical_device_features;
pub mod physical_device_memory_properties;
pub mod physical_device_properties;
pub mod physical_device_sparse_properties;
pub mod physical_device_type;
pub mod queue_family_properties;

pub use self::extension_properties::{ExtensionProperties, NativeExtensionProperties};
pub use self::physical_device_features::PhysicalDeviceFeatures;
pub use self::physical_device_memory_properties::{
    MemoryHeap, MemoryHeapFlags, MemoryPropertyFlags, MemoryType,
    NativePhysicalDeviceMemoryProperties, PhysicalDeviceMemoryProperties,
};
pub use self::physical_device_properties::{
    NativePhysicalDeviceProperties, PhysicalDeviceProperties,
};
pub use self::physical_device_sparse_properties::PhysicalDeviceSparseProperties;
pub use self::physical_device_type::PhysicalDeviceType;
pub use self::queue_family_properties::{
    NativeQueueFamilyProperties, QueueFamilyProperties, QueueFlagBits, QueueFlags,
};

use vstd::prelude::*;
use crate::capability::Capability;
use crate::enumerate::{accept, accepted, Counted, Filled, FromNative};
use crate::error::Error;
use crate::format::{Format, FormatProperties};
use crate::instance::loader::{guarded_enumeration, InstanceLoader};
use crate::instance::surface::{
    NativeSurfaceCapabilities, NativeSurfaceFormat, PresentMode, Surface, SurfaceCapabilities,
    SurfaceFormat,
};
use crate::loader::{Bundle, LoaderView};
use crate::native::{checked, Bool32, SUCCESS};

verus! {

/// An adapter.
#[derive(Debug, Clone, Copy, PartialEq, Eq, Hash, Structural)]
pub struct PhysicalDevice {
    device: u64,
}

/// The bundle through which the properties of an adapter are asked: the
/// extended query where its capability is enabled, else the core query.
/// One selection of capabilities uses one of the two, never both.
pub open spec fn properties_bundle(loader: LoaderView) -> Bundle {
    if loader.capabilities.contains(Capability::KhrGetPhysicalDeviceProperties2) {
        Bundle::Extension(Capability::KhrGetPhysicalDeviceProperties2)
    } else {
        Bundle::Core
    }
}

/// What a query gives that is guarded by a bundle and answered with a
/// result code: the misuse that the loader reports, then the native error
/// of the code, then success.
pub open spec fn guarded(loader: LoaderView, bundle: Bundle, code: i32) -> Result<(), Error> {
    match loader.require_result(bundle) {
        Err(e) => Err(e),
        Ok(_) => checked(code),
    }
}

/// `res` is what the lossy enumeration of extensions gives: the misuse that
/// the loader reports where it lacks its core bundle, then the error that
/// says why the two answers are not accepted, else as many records as the
/// second answer holds, each the lossy reading of the native record at its
/// place.
pub open spec fn lossily_enumerated(
    loader: LoaderView,
    first: Counted,
    second: Filled<NativeExtensionProperties>,
    res: Result<Vec<ExtensionProperties>, Error>,
) -> bool {
    match loader.require_result(Bundle::Core) {
        Err(e) => res == Err::<Vec<ExtensionProperties>, Error>(e),
        Ok(_) => match accepted(first, second) {
            Err(e) => res == Err::<Vec<ExtensionProperties>, Error>(e),
            Ok(_) => res matches Ok(out) && out@.len() == second.records@.len() && forall|
                i: int,
            |
                0 <= i < out@.len() ==> (#[trigger] out@[i]).mirrors_lossily(second.records@[i]),
        },
    }
}

impl PhysicalDevice {
    /// The handle that the adapter stands for.
    pub closed spec fn handle(self) -> u64 {
        self.device
    }

    /// Wraps a native handle. This never fails.
    pub fn from_vk(vk: u64) -> (res: Result<PhysicalDevice, Error>)
        ensures
            res matches Ok(adapter) && adapter.handle() == vk,
    {
        Ok(PhysicalDevice { device: vk })
    }

    /// The native handle.
    pub fn inner(&self) -> (handle: u64)
        ensures
            handle == self.handle(),
    {
        self.device
    }

    /// The bundle through which the properties of an adapter are asked with
    /// this loader.
    pub fn properties_entry(loader: &InstanceLoader) -> (bundle: Bundle)
        ensures
            bundle == properties_bundle(loader@),
    {
        if loader.capabilities().contains(Capability::KhrGetPhysicalDeviceProperties2) {
            Bundle::Extension(Capability::KhrGetPhysicalDeviceProperties2)
        } else {
            Bundle::Core
        }
    }

    /// The properties of the adapter, from the record that the native layer
    /// wrote. Refused as misuse where the loader does not hold the entry
    /// point; fails with an encoding error where the name of the adapter is
    /// not UTF-8.
    pub fn get_properties(
        &self,
        loader: &InstanceLoader,
        vk: &NativePhysicalDeviceProperties,
    ) -> (res: Result<PhysicalDeviceProperties, Error>)
        ensures
            match loader@.require_result(properties_bundle(loader@)) {
                Err(e) => res == Err::<PhysicalDeviceProperties, Error>(e),
                Ok(_) => PhysicalDeviceProperties::converts(*vk, res),
            },
    {
        match loader.require(PhysicalDevice::properties_entry(loader)) {
            Ok(()) => PhysicalDeviceProperties::from_vk(vk),
            Err(e) => Err(e),
        }
    }

    /// The memory types and heaps of the adapter, from the record that the
    /// native layer wrote. Refused as misuse where the loader is not
    /// populated; a record whose counts lie outside its arrays is answered
    /// as an incompatible driver.
    pub fn get_memory_properties(
        &self,
        loader: &InstanceLoader,
        vk: &NativePhysicalDeviceMemoryProperties,
    ) -> (res: Result<PhysicalDeviceMemoryProperties, Error>)
        ensures
            match loader@.require_result(Bundle::Core) {
                Err(e) => res == Err::<PhysicalDeviceMemoryProperties, Error>(e),
                Ok(_) => if vk.within_bounds() {
                    res matches Ok(p) && p.mirrors(*vk)
                } else {
                    res == Err::<PhysicalDeviceMemoryProperties, Error>(
                        Error::Native(crate::native::ERROR_INCOMPATIBLE_DRIVER),
                    )
                },
            },
    {
        match loader.require(Bundle::Core) {
            Ok(()) => match PhysicalDeviceMemoryProperties::try_from_vk(vk) {
                Some(properties) => Ok(properties),
                None => Err(Error::Native(crate::native::ERROR_INCOMPATIBLE_DRIVER)),
            },
            Err(e) => Err(e),
        }
    }

    /// The features of the adapter, from the words that the native layer
    /// wrote.
    pub fn get_features(
        &self,
        loader: &InstanceLoader,
        vk: &[Bool32; physical_device_features::FEATURE_COUNT],
    ) -> (res: Result<PhysicalDeviceFeatures, Error>)
        ensures
            match loader@.require_result(Bundle::Core) {
                Err(e) => res == Err::<PhysicalDeviceFeatures, Error>(e),
                Ok(_) => res matches Ok(features) && features.words() == vk@,
            },
    {
        match loader.require(Bundle::Core) {
            Ok(()) => Ok(PhysicalDeviceFeatures::from_vk(vk)),
            Err(e) => Err(e),
        }
    }

    /// What the adapter can do with a format, from the three masks that the
    /// native layer wrote.
    pub fn get_format_properties(
        &self,
        loader: &InstanceLoader,
        format: Format,
        linear: u32,
        optimal: u32,
        buffer: u32,
    ) -> (res: Result<FormatProperties, Error>)
        ensures
            match loader@.require_result(Bundle::Core) {
                Err(e) => res == Err::<FormatProperties, Error>(e),
                Ok(_) => res matches Ok(p) && p.linear_tiling_features.raw() == linear
                    && p.optimal_tiling_features.raw() == optimal && p.buffer_features.raw()
                    == buffer,
            },
    {
        match loader.require(Bundle::Core) {
            Ok(()) => Ok(FormatProperties::from_vk(linear, optimal, buffer)),
            Err(e) => Err(e),
        }
    }

    /// The queue families of the adapter, from the answers to the two
    /// calls of the enumeration.
    pub fn get_queue_family_properties(
        &self,
        loader: &InstanceLoader,
        first: Counted,
        second: Filled<NativeQueueFamilyProperties>,
    ) -> (res: Result<Vec<QueueFamilyProperties>, Error>)
        ensures
            guarded_enumeration::<QueueFamilyProperties>(
                loader@,
                Bundle::Core,
                first,
                second,
                res,
            ),
    {
        loader.enumerate::<QueueFamilyProperties>(Bundle::Core, first, second)
    }

    /// The extensions of the adapter, from the answers to the two calls of
    /// the enumeration. A name that is not UTF-8 fails the enumeration with
    /// an encoding error; no name comes back with characters replaced.
    pub fn get_extension_properties(
        &self,
        loader: &InstanceLoader,
        first: Counted,
        second: Filled<NativeExtensionProperties>,
    ) -> (res: Result<Vec<ExtensionProperties>, Error>)
        ensures
            guarded_enumeration::<ExtensionProperties>(loader@, Bundle::Core, first, second, res),
    {
        loader.enumerate::<ExtensionProperties>(Bundle::Core, first, second)
    }

    /// The extensions of the adapter for display, for a caller who asks for
    /// lossy decoding: what is not UTF-8 in a name is replaced, and no name
    /// fails the enumeration. A name that is UTF-8 comes back as it is.
    pub fn get_extension_properties_lossy(
        &self,
        loader: &InstanceLoader,
        first: Counted,
        second: Filled<NativeExtensionProperties>,
    ) -> (res: Result<Vec<ExtensionProperties>, Error>)
        ensures
            lossily_enumerated(loader@, first, second, res),
    {
        match loader.require(Bundle::Core) {
            Ok(()) => {},
            Err(e) => {
                return Err(e);
            },
        }
        match accept(first, &second) {
            Ok(()) => {},
            Err(e) => {
                return Err(e);
            },
        }
        let mut out: Vec<ExtensionProperties> = Vec::new();
        let mut i: usize = 0;
        while i < second.records.len()
            invariant
                0 <= i <= second.records@.len(),
                out@.len() == i,
                forall|k: int|
                    0 <= k < i ==> (#[trigger] out@[k]).mirrors_lossily(second.records@[k]),
            decreases second.records@.len() - i,
        {
            out.push(ExtensionProperties::from_vk_lossy(&second.records[i]));
            i += 1;
        }
        Ok(out)
    }

    /// Whether a queue family of the adapter can present to the surface,
    /// from the answer of the native query.
    pub fn get_surface_support(
        &self,
        loader: &InstanceLoader,
        queue_family_index: u32,
        surface: &Surface,
        code: i32,
        supported: Bool32,
    ) -> (res: Result<bool, Error>)
        ensures
            match guarded(loader@, Bundle::Extension(Capability::KhrSurface), code) {
                Err(e) => res == Err::<bool, Error>(e),
                Ok(_) => res == Ok::<bool, Error>(supported != 0),
            },
    {
        match loader.require(Bundle::Extension(Capability::KhrSurface)) {
            Ok(()) => if code == SUCCESS {
                Ok(supported != 0)
            } else {
                Err(Error::Native(code))
            },
            Err(e) => Err(e),
        }
    }

    /// The formats in which the adapter can present to the surface, from
    /// the answers to the two calls of the enumeration.
    pub fn get_surface_formats(
        &self,
        loader: &InstanceLoader,
        surface: &Surface,
        first: Counted,
        second: Filled<NativeSurfaceFormat>,
    ) -> (res: Result<Vec<SurfaceFormat>, Error>)
        ensures
            guarded_enumeration::<SurfaceFormat>(
                loader@,
                Bundle::Extension(Capability::KhrSurface),
                first,
                second,
                res,
            ),
    {
        loader.enumerate::<SurfaceFormat>(
            Bundle::Extension(Capability::KhrSurface),
            first,
            second,
        )
    }

    /// What the adapter can do with the surface, from the answer of the
    /// native query.
    pub fn get_surface_capabilities(
        &self,
        loader: &InstanceLoader,
        surface: &Surface,
        code: i32,
        vk: &NativeSurfaceCapabilities,
    ) -> (res: Result<SurfaceCapabilities, Error>)
        ensures
            match guarded(loader@, Bundle::Extension(Capability::KhrSurface), code) {
                Err(e) => res == Err::<SurfaceCapabilities, Error>(e),
                Ok(_) => res matches Ok(capabilities) && capabilities.mirrors(*vk),
            },
    {
        match loader.require(Bundle::Extension(Capability::KhrSurface)) {
            Ok(()) => if code == SUCCESS {
                Ok(SurfaceCapabilities::from_vk(vk))
            } else {
                Err(Error::Native(code))
            },
            Err(e) => Err(e),
        }
    }

    /// The ways in which the adapter can present to the surface, from the
    /// answers to the two calls of the enumeration.
    pub fn get_surface_present_modes(
        &self,
        loader: &InstanceLoader,
        surface: &Surface,
        first: Counted,
        second: Filled<u32>,
    ) -> (res: Result<Vec<PresentMode>, Error>)
        ensures
            guarded_enumeration::<PresentMode>(
                loader@,
                Bundle::Extension(Capability::KhrSurface),
                first,
                second,
                res,
            ),
    {
        loader.enumerate::<PresentMode>(Bundle::Extension(Capability::KhrSurface), first, second)
    }
}

impl FromNative for PhysicalDevice {
    type Native = u64;

    open spec fn converts(raw: u64, out: Result<Self, Error>) -> bool {
        out matches Ok(adapter) && adapter.handle() == raw
    }

    fn from_native(raw: &u64) -> (out: Result<Self, Error>) {
        PhysicalDevice::from_vk(*raw)
    }
}

} // verus!
