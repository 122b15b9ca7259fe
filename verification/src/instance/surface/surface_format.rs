//! The formats of a surface.

use vstd::prelude::*;
use vstd::string::*;
use crate::enumerate::FromNative;
use crate::error::Error;
use crate::format::Format;
use crate::text::{decimal, push_decimal};
use super::ColorSpace;

verus! {

/// A surface format as the native layer writes it.
#[derive(Debug, Clone, Copy, PartialEq, Eq, Structural)]
pub struct NativeSurfaceFormat {
    pub format: u32,
    pub color_space: u32,
}

/// A pixel format together with the colour space in which a surface shows
/// it.
#[derive(Debug, Clone, Copy, PartialEq, Eq, Structural)]
pub struct SurfaceFormat {
    pub format: Format,
    pub color_space: ColorSpace,
}

/// `e` is the diagnostic for a number that names no format.
pub open spec fn unknown_format(raw: u32, e: Error) -> bool {
    e matches Error::General(text) && text@ == "format is not known: "@ + decimal(raw as nat)
}

impl SurfaceFormat {
    /// `out` is the conversion of `vk`: the format named and the colour
    /// space as it is, or a diagnostic where no format has the number.
    pub open spec fn converts(vk: NativeSurfaceFormat, out: Result<Self, Error>) -> bool {
        match out {
            Ok(surface_format) => surface_format.format.number() == vk.format
                && surface_format.color_space == vk.color_space,
            Err(e) => !Format::is_known(vk.format) && unknown_format(vk.format, e),
        }
    }

    /// Converts a native record.
    pub fn from_vk(vk: &NativeSurfaceFormat) -> (out: Result<SurfaceFormat, Error>)
        ensures
            SurfaceFormat::converts(*vk, out),
    {
        match Format::from_raw(vk.format) {
            Some(format) => Ok(SurfaceFormat { format, color_space: vk.color_space }),
            None => {
                let mut text = String::from_str("format is not known: ");
                push_decimal(&mut text, vk.format as u64);
                Err(Error::General(text))
            },
        }
    }
}

impl FromNative for SurfaceFormat {
    type Native = NativeSurfaceFormat;

    open spec fn converts(raw: NativeSurfaceFormat, out: Result<Self, Error>) -> bool {
        SurfaceFormat::converts(raw, out)
    }

    fn from_native(raw: &NativeSurfaceFormat) -> (out: Result<Self, Error>) {
        SurfaceFormat::from_vk(raw)
    }
}

} // verus!
