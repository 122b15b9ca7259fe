//! The transforms of a surface.

use vstd::prelude::*;

verus! {

/// How a surface may be turned and mirrored, as a bit mask.
#[derive(Debug, Clone, Copy, PartialEq, Eq, Hash, Structural)]
pub struct SurfaceTransformFlags {
    bits: u32,
}

/// As it is.
pub const SURFACE_TRANSFORM_IDENTITY_BIT: u32 = 0x00000001;

/// Turned by 90 degrees.
pub const SURFACE_TRANSFORM_ROTATE_90_BIT: u32 = 0x00000002;

/// Turned by 180 degrees.
pub const SURFACE_TRANSFORM_ROTATE_180_BIT: u32 = 0x00000004;

/// Turned by 270 degrees.
pub const SURFACE_TRANSFORM_ROTATE_270_BIT: u32 = 0x00000008;

/// Mirrored.
pub const SURFACE_TRANSFORM_HORIZONTAL_MIRROR_BIT: u32 = 0x00000010;

/// Mirrored, then turned by 90 degrees.
pub const SURFACE_TRANSFORM_HORIZONTAL_MIRROR_ROTATE_90_BIT: u32 = 0x00000020;

/// Mirrored, then turned by 180 degrees.
pub const SURFACE_TRANSFORM_HORIZONTAL_MIRROR_ROTATE_180_BIT: u32 = 0x00000040;

/// Mirrored, then turned by 270 degrees.
pub const SURFACE_TRANSFORM_HORIZONTAL_MIRROR_ROTATE_270_BIT: u32 = 0x00000080;

/// As the platform sets it.
pub const SURFACE_TRANSFORM_INHERIT_BIT_KHR: u32 = 0x00000100;

impl SurfaceTransformFlags {
    /// Every bit that has a name.
    pub open spec fn known() -> u32 {
        0x000001ffu32
    }

    /// The bits of the mask.
    pub closed spec fn raw(self) -> u32 {
        self.bits
    }

    /// The mask with no bit set.
    pub fn empty() -> (flags: Self)
        ensures
            flags.raw() == 0,
    {
        SurfaceTransformFlags { bits: 0 }
    }

    /// The mask with every named bit set.
    pub fn all() -> (flags: Self)
        ensures
            flags.raw() == Self::known(),
    {
        SurfaceTransformFlags { bits: 0x000001ff }
    }

    /// The mask as the native layer gave it, unnamed bits included.
    pub fn from_raw(bits: u32) -> (flags: Self)
        ensures
            flags.raw() == bits,
    {
        SurfaceTransformFlags { bits }
    }

    /// The mask with these bits, unless one of them has no name.
    pub fn from_bits(bits: u32) -> (flags: Option<Self>)
        ensures
            bits & !Self::known() == 0 ==> (flags matches Some(f) && f.raw() == bits),
            bits & !Self::known() != 0 ==> flags is None,
    {
        if bits & !0x000001ffu32 == 0 {
            Some(SurfaceTransformFlags { bits })
        } else {
            None
        }
    }

    /// The mask with those of these bits that have a name.
    pub fn from_bits_truncate(bits: u32) -> (flags: Self)
        ensures
            flags.raw() == bits & Self::known(),
    {
        SurfaceTransformFlags { bits: bits & 0x000001ffu32 }
    }

    /// The bits of the mask, for the native layer.
    pub fn bits(&self) -> (bits: u32)
        ensures
            bits == self.raw(),
    {
        self.bits
    }

    /// Whether no bit is set.
    pub fn is_empty(&self) -> (empty: bool)
        ensures
            empty == (self.raw() == 0),
    {
        self.bits == 0
    }

    /// Whether every bit of `other` is set.
    pub fn contains(&self, other: Self) -> (held: bool)
        ensures
            held == (self.raw() & other.raw() == other.raw()),
    {
        self.bits & other.bits == other.bits
    }

    /// Whether some bit of `other` is set.
    pub fn intersects(&self, other: Self) -> (met: bool)
        ensures
            met == (self.raw() & other.raw() != 0),
    {
        self.bits & other.bits != 0
    }

    /// The mask with the bits of both.
    pub fn union(self, other: Self) -> (flags: Self)
        ensures
            flags.raw() == self.raw() | other.raw(),
    {
        SurfaceTransformFlags { bits: self.bits | other.bits }
    }
}

impl Default for SurfaceTransformFlags {
    fn default() -> (flags: SurfaceTransformFlags)
        ensures
            flags.raw() == 0,
    {
        SurfaceTransformFlags::empty()
    }
}

} // verus!
