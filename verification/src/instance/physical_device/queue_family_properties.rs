//! Queue families.

use vstd::prelude::*;
use crate::enumerate::FromNative;
use crate::error::Error;
use crate::native::Extent3D;

verus! {

/// What the queues of a family can do, as a bit mask.
#[derive(Debug, Clone, Copy, PartialEq, Eq, Hash, Structural)]
pub struct QueueFlags {
    bits: u32,
}

/// Queues of the family take graphics work.
pub const QUEUE_FLAGS_GRAPHICS_BIT: u32 = 0x00000001;

/// Queues of the family take compute work.
pub const QUEUE_FLAGS_COMPUTE_BIT: u32 = 0x00000002;

/// Queues of the family take transfers.
pub const QUEUE_FLAGS_TRANSFER_BIT: u32 = 0x00000004;

/// Queues of the family take sparse memory bindings.
pub const QUEUE_FLAGS_SPARSE_BINDING_BIT: u32 = 0x00000008;

impl QueueFlags {
    /// Every bit that has a name.
    pub open spec fn known() -> u32 {
        0x0000000fu32
    }

    /// The bits of the mask.
    pub closed spec fn raw(self) -> u32 {
        self.bits
    }

    /// The mask with no bit set.
    pub fn empty() -> (flags: Self)
        ensures
            flags.raw() == 0,
    {
        QueueFlags { bits: 0 }
    }

    /// The mask with every named bit set.
    pub fn all() -> (flags: Self)
        ensures
            flags.raw() == Self::known(),
    {
        QueueFlags { bits: 0x0000000f }
    }

    /// The mask as the native layer gave it, unnamed bits included.
    pub fn from_raw(bits: u32) -> (flags: Self)
        ensures
            flags.raw() == bits,
    {
        QueueFlags { bits }
    }

    /// The mask with these bits, unless one of them has no name.
    pub fn from_bits(bits: u32) -> (flags: Option<Self>)
        ensures
            bits & !Self::known() == 0 ==> (flags matches Some(f) && f.raw() == bits),
            bits & !Self::known() != 0 ==> flags is None,
    {
        if bits & !0x0000000fu32 == 0 {
            Some(QueueFlags { bits })
        } else {
            None
        }
    }

    /// The mask with those of these bits that have a name.
    pub fn from_bits_truncate(bits: u32) -> (flags: Self)
        ensures
            flags.raw() == bits & Self::known(),
    {
        QueueFlags { bits: bits & 0x0000000fu32 }
    }

    /// The bits of the mask, for the native layer.
    pub fn bits(&self) -> (bits: u32)
        ensures
            bits == self.raw(),
    {
        self.bits
    }

    /// Whether no bit is set.
    pub fn is_empty(&self) -> (empty: bool)
        ensures
            empty == (self.raw() == 0),
    {
        self.bits == 0
    }

    /// Whether every bit of `other` is set.
    pub fn contains(&self, other: Self) -> (held: bool)
        ensures
            held == (self.raw() & other.raw() == other.raw()),
    {
        self.bits & other.bits == other.bits
    }

    /// Whether some bit of `other` is set.
    pub fn intersects(&self, other: Self) -> (met: bool)
        ensures
            met == (self.raw() & other.raw() != 0),
    {
        self.bits & other.bits != 0
    }

    /// The mask with the bits of both.
    pub fn union(self, other: Self) -> (flags: Self)
        ensures
            flags.raw() == self.raw() | other.raw(),
    {
        QueueFlags { bits: self.bits | other.bits }
    }
}

impl Default for QueueFlags {
    fn default() -> (flags: QueueFlags)
        ensures
            flags.raw() == 0,
    {
        QueueFlags::empty()
    }
}

/// One ability of a queue family.
#[derive(Debug, Clone, Copy, PartialEq, Eq, Hash, Structural)]
pub enum QueueFlagBits {
    GraphicsBit,
    ComputeBit,
    TransferBit,
    SparseBindingBit,
}

impl QueueFlagBits {
    /// The bit of the mask that stands for this ability.
    pub open spec fn mask(self) -> u32 {
        match self {
            QueueFlagBits::GraphicsBit => QUEUE_FLAGS_GRAPHICS_BIT,
            QueueFlagBits::ComputeBit => QUEUE_FLAGS_COMPUTE_BIT,
            QueueFlagBits::TransferBit => QUEUE_FLAGS_TRANSFER_BIT,
            QueueFlagBits::SparseBindingBit => QUEUE_FLAGS_SPARSE_BINDING_BIT,
        }
    }

    /// The bit of the mask that stands for this ability.
    pub fn bit(self) -> (bit: u32)
        ensures
            bit == self.mask(),
    {
        match self {
            QueueFlagBits::GraphicsBit => QUEUE_FLAGS_GRAPHICS_BIT,
            QueueFlagBits::ComputeBit => QUEUE_FLAGS_COMPUTE_BIT,
            QueueFlagBits::TransferBit => QUEUE_FLAGS_TRANSFER_BIT,
            QueueFlagBits::SparseBindingBit => QUEUE_FLAGS_SPARSE_BINDING_BIT,
        }
    }
}

/// A queue family as the native layer writes it.
#[derive(Debug, Clone, Copy, PartialEq, Eq, Structural)]
pub struct NativeQueueFamilyProperties {
    pub queue_flags: u32,
    pub queue_count: u32,
    pub timestamp_valid_bits: u32,
    pub min_image_transfer_granularity: Extent3D,
}

/// A queue family of an adapter.
#[derive(Debug, Clone, Copy, PartialEq, Eq, Structural)]
pub struct QueueFamilyProperties {
    pub queue_flags: QueueFlags,
    pub queue_count: u32,
    pub timestamp_valid_bits: u32,
    pub min_image_transfer_granularity: Extent3D,
}

impl QueueFamilyProperties {
    /// The record that holds what the native record holds, field by field.
    pub open spec fn mirrors(self, vk: NativeQueueFamilyProperties) -> bool {
        &&& self.queue_flags.raw() == vk.queue_flags
        &&& self.queue_count == vk.queue_count
        &&& self.timestamp_valid_bits == vk.timestamp_valid_bits
        &&& self.min_image_transfer_granularity == vk.min_image_transfer_granularity
    }

    /// Copies a native record, field by field. Every bit of the mask is
    /// kept.
    pub fn from_vk(vk: &NativeQueueFamilyProperties) -> (properties: QueueFamilyProperties)
        ensures
            properties.mirrors(*vk),
    {
        QueueFamilyProperties {
            queue_flags: QueueFlags::from_raw(vk.queue_flags),
            queue_count: vk.queue_count,
            timestamp_valid_bits: vk.timestamp_valid_bits,
            min_image_transfer_granularity: vk.min_image_transfer_granularity,
        }
    }
}

impl FromNative for QueueFamilyProperties {
    type Native = NativeQueueFamilyProperties;

    open spec fn converts(raw: NativeQueueFamilyProperties, out: Result<Self, Error>) -> bool {
        out matches Ok(properties) && properties.mirrors(raw)
    }

    fn from_native(raw: &NativeQueueFamilyProperties) -> (out: Result<Self, Error>) {
        Ok(QueueFamilyProperties::from_vk(raw))
    }
}

} // verus!
