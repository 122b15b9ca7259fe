//! What an adapter says of itself.

use vstd::prelude::*;
use vstd::utf8::*;
use crate::error::Error;
use crate::text::{decode_text, strictly_decoded, until_nul};
use crate::version::Version;
use super::physical_device_sparse_properties::PhysicalDeviceSparseProperties;
use super::physical_device_type::PhysicalDeviceType;

verus! {

/// The length of the identifier of a pipeline cache.
pub const UUID_SIZE: usize = 16;

/// The properties of an adapter as the native layer writes them. The name
/// stands in a buffer of fixed size, ended by a zero byte. The limits of
/// the adapter are not part of this record.
#[derive(Debug, Clone, PartialEq, Eq)]
pub struct NativePhysicalDeviceProperties {
    pub api_version: u32,
    pub driver_version: u32,
    pub vendor_id: u32,
    pub device_id: u32,
    pub device_type: u32,
    pub device_name: Vec<u8>,
    pub pipeline_cache_uuid: [u8; UUID_SIZE],
    pub sparse_properties: PhysicalDeviceSparseProperties,
}

/// The properties of an adapter.
#[derive(Debug, Clone, PartialEq, Eq)]
pub struct PhysicalDeviceProperties {
    pub api_version: Version,
    pub driver_version: u32,
    pub vendor_id: u32,
    pub device_id: u32,
    pub device_type: PhysicalDeviceType,
    pub device_name: String,
    pub pipeline_cache_uuid: [u8; UUID_SIZE],
    pub sparse_properties: PhysicalDeviceSparseProperties,
}

impl PhysicalDeviceProperties {
    /// The record holds what the native record holds: the version
    /// unpacked, the kind named, the name decoded, the rest as it is.
    pub open spec fn mirrors(self, vk: NativePhysicalDeviceProperties) -> bool {
        &&& self.api_version == Version::unpacked(vk.api_version)
        &&& self.driver_version == vk.driver_version
        &&& self.vendor_id == vk.vendor_id
        &&& self.device_id == vk.device_id
        &&& self.device_type == PhysicalDeviceType::of(vk.device_type)
        &&& valid_utf8(until_nul(vk.device_name@))
        &&& self.device_name@ == decode_utf8(until_nul(vk.device_name@))
        &&& self.pipeline_cache_uuid == vk.pipeline_cache_uuid
        &&& self.sparse_properties == vk.sparse_properties
    }

    /// `out` is the conversion of `vk`: the record that mirrors it, or the
    /// encoding error that says how far the name is UTF-8.
    pub open spec fn converts(vk: NativePhysicalDeviceProperties, out: Result<Self, Error>) -> bool {
        match out {
            Ok(properties) => properties.mirrors(vk),
            Err(Error::Encoding(e)) => strictly_decoded(until_nul(vk.device_name@), Err(e)),
            Err(_) => false,
        }
    }

    /// Converts a native record. Fails where the name is not UTF-8.
    pub fn from_vk(vk: &NativePhysicalDeviceProperties) -> (out: Result<
        PhysicalDeviceProperties,
        Error,
    >)
        ensures
            PhysicalDeviceProperties::converts(*vk, out),
    {
        match decode_text(vk.device_name.as_slice()) {
            Ok(device_name) => Ok(
                PhysicalDeviceProperties {
                    api_version: Version::from_vk(vk.api_version),
                    driver_version: vk.driver_version,
                    vendor_id: vk.vendor_id,
                    device_id: vk.device_id,
                    device_type: PhysicalDeviceType::from_raw(vk.device_type),
                    device_name,
                    pipeline_cache_uuid: vk.pipeline_cache_uuid,
                    sparse_properties: vk.sparse_properties,
                },
            ),
            Err(e) => Err(Error::Encoding(e)),
        }
    }
}

} // verus!
