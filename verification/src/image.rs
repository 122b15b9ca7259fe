//! Images.

use vstd::prelude::*;

verus! {

/// How an image may be used, as a bit mask.
#[derive(Debug, Clone, Copy, PartialEq, Eq, Hash, Structural)]
pub struct ImageUsageFlags {
    bits: u32,
}

/// The image can be the source of a transfer.
pub const IMAGE_USAGE_TRANSFER_SRC_BIT: u32 = 0x00000001;

/// The image can be the destination of a transfer.
pub const IMAGE_USAGE_TRANSFER_DST_BIT: u32 = 0x00000002;

/// The image can be sampled.
pub const IMAGE_USAGE_SAMPLED_BIT: u32 = 0x00000004;

/// The image can be a storage image.
pub const IMAGE_USAGE_STORAGE_BIT: u32 = 0x00000008;

/// The image can be a colour attachment.
pub const IMAGE_USAGE_COLOR_ATTACHMENT_BIT: u32 = 0x00000010;

/// The image can be a depth/stencil attachment.
pub const IMAGE_USAGE_DEPTH_STENCIL_ATTACHMENT_BIT: u32 = 0x00000020;

/// The image can be a transient attachment.
pub const IMAGE_USAGE_TRANSIENT_ATTACHMENT_BIT: u32 = 0x00000040;

/// The image can be an input attachment.
pub const IMAGE_USAGE_INPUT_ATTACHMENT_BIT: u32 = 0x00000080;

impl ImageUsageFlags {
    /// Every bit that has a name.
    pub open spec fn known() -> u32 {
        0x000000ffu32
    }

    /// The bits of the mask.
    pub closed spec fn raw(self) -> u32 {
        self.bits
    }

    /// The mask with no bit set.
    pub fn empty() -> (flags: Self)
        ensures
            flags.raw() == 0,
    {
        ImageUsageFlags { bits: 0 }
    }

    /// The mask with every named bit set.
    pub fn all() -> (flags: Self)
        ensures
            flags.raw() == Self::known(),
    {
        ImageUsageFlags { bits: 0x000000ff }
    }

    /// The mask as the native layer gave it, unnamed bits included.
    pub fn from_raw(bits: u32) -> (flags: Self)
        ensures
            flags.raw() == bits,
    {
        ImageUsageFlags { bits }
    }

    /// The mask with these bits, unless one of them has no name.
    pub fn from_bits(bits: u32) -> (flags: Option<Self>)
        ensures
            bits & !Self::known() == 0 ==> (flags matches Some(f) && f.raw() == bits),
            bits & !Self::known() != 0 ==> flags is None,
    {
        if bits & !0x000000ffu32 == 0 {
            Some(ImageUsageFlags { bits })
        } else {
            None
        }
    }

    /// The mask with those of these bits that have a name.
    pub fn from_bits_truncate(bits: u32) -> (flags: Self)
        ensures
            flags.raw() == bits & Self::known(),
    {
        ImageUsageFlags { bits: bits & 0x000000ffu32 }
    }

    /// The bits of the mask, for the native layer.
    pub fn bits(&self) -> (bits: u32)
        ensures
            bits == self.raw(),
    {
        self.bits
    }

    /// Whether no bit is set.
    pub fn is_empty(&self) -> (empty: bool)
        ensures
            empty == (self.raw() == 0),
    {
        self.bits == 0
    }

    /// Whether every bit of `other` is set.
    pub fn contains(&self, other: Self) -> (held: bool)
        ensures
            held == (self.raw() & other.raw() == other.raw()),
    {
        self.bits & other.bits == other.bits
    }

    /// Whether some bit of `other` is set.
    pub fn intersects(&self, other: Self) -> (met: bool)
        ensures
            met == (self.raw() & other.raw() != 0),
    {
        self.bits & other.bits != 0
    }

    /// The mask with the bits of both.
    pub fn union(self, other: Self) -> (flags: Self)
        ensures
            flags.raw() == self.raw() | other.raw(),
    {
        ImageUsageFlags { bits: self.bits | other.bits }
    }
}

impl Default for ImageUsageFlags {
    fn default() -> (flags: ImageUsageFlags)
        ensures
            flags.raw() == 0,
    {
        ImageUsageFlags::empty()
    }
}

} // verus!
