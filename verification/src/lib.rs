//! Verified core of a binding layer for a Vulkan-style native API.
//!
//! The crate holds the decisions of such a layer: the error taxonomy, the
//! packed version codec, text marshalling, the capability menu, the
//! two-call enumeration protocol, the instance- and device-scope loaders
//! and the ownership graph of native handles. It makes no native call
//! itself. A front end performs each call and hands the answer in as plain
//! values; what is decided before and after the call is stated in a
//! contract here and proved.

pub mod capability;
pub mod enumerate;
pub mod error;
pub mod format;
pub mod global;
pub mod image;
pub mod instance;
pub mod loader;
pub mod native;
pub mod text;
pub mod version;

pub use capability::{Capability, CapabilitySet};
pub use error::Error;
pub use format::{Format, FormatFeatureFlags, FormatProperties};
pub use global::{
    enumerate_instance_extension_properties, enumerate_instance_layer_properties,
    ExtensionProperties, LayerProperties,
};
pub use image::ImageUsageFlags;
pub use instance::{Instance, InstanceLoader};
pub use native::{Bool32, DeviceSize, Extent2D, Extent3D, SampleCountFlags};
pub use version::Version;
