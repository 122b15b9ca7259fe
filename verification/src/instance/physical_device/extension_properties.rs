//! Extensions, as the native layer reports them of itself, of a layer or of
//! an adapter.

use vstd::prelude::*;
use vstd::utf8::*;
use crate::enumerate::FromNative;
use crate::error::Error;
use crate::text::{decode_text, decode_text_lossy, lossy_utf8, strictly_decoded, until_nul};

verus! {

/// An extension as the native layer writes it: the name in a buffer of
/// fixed size, ended by a zero byte, and the revision.
#[derive(Debug, Clone, PartialEq, Eq)]
pub struct NativeExtensionProperties {
    pub extension_name: Vec<u8>,
    pub spec_version: u32,
}

/// An extension that the native layer, a layer or an adapter offers.
#[derive(Debug, Clone, PartialEq, Eq)]
pub struct ExtensionProperties {
    pub extension_name: String,
    pub spec_version: u32,
}

impl ExtensionProperties {
    /// `out` is the strict conversion of `vk`: the name decoded and the
    /// revision as it is, or the encoding error that says how far the name
    /// is UTF-8.
    pub open spec fn converts(vk: NativeExtensionProperties, out: Result<Self, Error>) -> bool {
        match out {
            Ok(properties) => {
                &&& strictly_decoded(
                    until_nul(vk.extension_name@),
                    Ok(properties.extension_name@),
                )
                &&& properties.spec_version == vk.spec_version
            },
            Err(Error::Encoding(e)) => strictly_decoded(until_nul(vk.extension_name@), Err(e)),
            Err(_) => false,
        }
    }

    /// The record is the lossy reading of `vk`, for display: it holds the
    /// revision of the native record, and as its name the bytes before the
    /// first zero byte with what is not UTF-8 replaced. A name that is
    /// UTF-8 is the name decoded, nothing replaced.
    pub open spec fn mirrors_lossily(self, vk: NativeExtensionProperties) -> bool {
        &&& self.extension_name@ == lossy_utf8(until_nul(vk.extension_name@))
        &&& valid_utf8(until_nul(vk.extension_name@)) ==> self.extension_name@ == decode_utf8(
            until_nul(vk.extension_name@),
        )
        &&& self.spec_version == vk.spec_version
    }

    /// Converts a native record. Fails where the name is not UTF-8: such a
    /// name is rejected, never replaced.
    pub fn from_vk(vk: &NativeExtensionProperties) -> (out: Result<ExtensionProperties, Error>)
        ensures
            ExtensionProperties::converts(*vk, out),
    {
        match decode_text(vk.extension_name.as_slice()) {
            Ok(extension_name) => Ok(
                ExtensionProperties { extension_name, spec_version: vk.spec_version },
            ),
            Err(e) => Err(Error::Encoding(e)),
        }
    }

    /// Converts a native record for display, at the caller's wish: what is
    /// not UTF-8 in the name is replaced. This never fails.
    pub fn from_vk_lossy(vk: &NativeExtensionProperties) -> (properties: ExtensionProperties)
        ensures
            properties.mirrors_lossily(*vk),
    {
        ExtensionProperties {
            extension_name: decode_text_lossy(vk.extension_name.as_slice()),
            spec_version: vk.spec_version,
        }
    }
}

impl FromNative for ExtensionProperties {
    type Native = NativeExtensionProperties;

    open spec fn converts(raw: NativeExtensionProperties, out: Result<Self, Error>) -> bool {
        ExtensionProperties::converts(raw, out)
    }

    fn from_native(raw: &NativeExtensionProperties) -> (out: Result<Self, Error>) {
        ExtensionProperties::from_vk(raw)
    }
}

} // verus!
