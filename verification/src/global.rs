//! What can be asked of the native layer before any handle exists: the
//! instance extensions and the layers that are installed.

use vstd::prelude::*;
use vstd::utf8::*;
use crate::enumerate::{enumerate, enumerated, Counted, Filled, FromNative};
use crate::error::{EncodingError, Error};
pub use crate::instance::physical_device::ExtensionProperties;
use crate::instance::physical_device::NativeExtensionProperties;
use crate::text::{
    c_string, decode_text, strictly_decoded, to_c_string, until_nul,
};

verus! {

/// A layer as the native layer writes it: name and description in buffers
/// of fixed size, each ended by a zero byte.
#[derive(Debug, Clone, PartialEq, Eq)]
pub struct NativeLayerProperties {
    pub layer_name: Vec<u8>,
    pub spec_version: u32,
    pub implementation_version: u32,
    pub description: Vec<u8>,
}

/// An installed layer.
#[derive(Debug, Clone, PartialEq, Eq)]
pub struct LayerProperties {
    pub layer_name: String,
    pub spec_version: u32,
    pub implementation_version: u32,
    pub description: String,
}

impl LayerProperties {
    /// `out` is the conversion of `vk`: name and description decoded and
    /// the versions as they are, or the encoding error of the name, or,
    /// where the name is UTF-8, that of the description.
    pub open spec fn converts(vk: NativeLayerProperties, out: Result<Self, Error>) -> bool {
        match out {
            Ok(properties) => {
                &&& strictly_decoded(until_nul(vk.layer_name@), Ok(properties.layer_name@))
                &&& strictly_decoded(until_nul(vk.description@), Ok(properties.description@))
                &&& properties.spec_version == vk.spec_version
                &&& properties.implementation_version == vk.implementation_version
            },
            Err(Error::Encoding(e)) => {
                ||| strictly_decoded(until_nul(vk.layer_name@), Err(e))
                ||| (valid_utf8(until_nul(vk.layer_name@)) && strictly_decoded(
                    until_nul(vk.description@),
                    Err(e),
                ))
            },
            Err(_) => false,
        }
    }

    /// Converts a native record. Fails where the name or the description
    /// is not UTF-8.
    pub fn from_vk(vk: &NativeLayerProperties) -> (out: Result<LayerProperties, Error>)
        ensures
            LayerProperties::converts(*vk, out),
    {
        let layer_name = match decode_text(vk.layer_name.as_slice()) {
            Ok(text) => text,
            Err(e) => {
                return Err(Error::Encoding(e));
            },
        };
        let description = match decode_text(vk.description.as_slice()) {
            Ok(text) => text,
            Err(e) => {
                return Err(Error::Encoding(e));
            },
        };
        Ok(
            LayerProperties {
                layer_name,
                spec_version: vk.spec_version,
                implementation_version: vk.implementation_version,
                description,
            },
        )
    }
}

impl FromNative for LayerProperties {
    type Native = NativeLayerProperties;

    open spec fn converts(raw: NativeLayerProperties, out: Result<Self, Error>) -> bool {
        LayerProperties::converts(raw, out)
    }

    fn from_native(raw: &NativeLayerProperties) -> (out: Result<Self, Error>) {
        LayerProperties::from_vk(raw)
    }
}

/// What marshalling the name of a layer gives, where one is named.
pub open spec fn layer_name_c_string(layer_name: Option<&str>) -> Result<
    Option<Seq<u8>>,
    EncodingError,
> {
    match layer_name {
        None => Ok(None),
        Some(name) => match c_string(encode_utf8(name@)) {
            Ok(bytes) => Ok(Some(bytes)),
            Err(e) => Err(e),
        },
    }
}

/// Marshals the name of the layer whose extensions are asked for, before
/// any native call is made. No name stands for the extensions of the
/// native layer itself.
pub fn marshal_layer_name(layer_name: Option<&str>) -> (res: Result<Option<Vec<u8>>, Error>)
    ensures
        match res {
            Ok(None) => layer_name_c_string(layer_name) == Ok::<Option<Seq<u8>>, EncodingError>(
                None,
            ),
            Ok(Some(buffer)) => layer_name_c_string(layer_name) == Ok::<
                Option<Seq<u8>>,
                EncodingError,
            >(Some(buffer@)),
            Err(Error::Encoding(e)) => layer_name_c_string(layer_name) == Err::<
                Option<Seq<u8>>,
                EncodingError,
            >(e),
            Err(_) => false,
        },
{
    match layer_name {
        None => Ok(None),
        Some(name) => match to_c_string(name.as_bytes()) {
            Ok(buffer) => Ok(Some(buffer)),
            Err(e) => Err(Error::Encoding(e)),
        },
    }
}

/// The instance extensions, of the native layer itself or of one layer,
/// from the answers to the two calls of the enumeration. A layer name that
/// cannot be marshalled is an encoding error, whatever the answers are:
/// for such a name no native call is made.
pub fn enumerate_instance_extension_properties(
    layer_name: Option<&str>,
    first: Counted,
    second: Filled<NativeExtensionProperties>,
) -> (res: Result<Vec<ExtensionProperties>, Error>)
    ensures
        match layer_name_c_string(layer_name) {
            Err(e) => res == Err::<Vec<ExtensionProperties>, Error>(Error::Encoding(e)),
            Ok(_) => enumerated::<ExtensionProperties>(first, second, res),
        },
{
    match marshal_layer_name(layer_name) {
        Ok(_) => enumerate::<ExtensionProperties>(first, second),
        Err(e) => Err(e),
    }
}

/// The installed layers, from the answers to the two calls of the
/// enumeration.
pub fn enumerate_instance_layer_properties(
    first: Counted,
    second: Filled<NativeLayerProperties>,
) -> (res: Result<Vec<LayerProperties>, Error>)
    ensures
        enumerated::<LayerProperties>(first, second, res),
{
    enumerate::<LayerProperties>(first, second)
}

} // verus!
