//! The memory of an adapter.

use vstd::prelude::*;
use crate::native::DeviceSize;

verus! {

/// How many memory types the native record has room for.
pub const MAX_MEMORY_TYPES: usize = 32;

/// How many memory heaps the native record has room for.
pub const MAX_MEMORY_HEAPS: usize = 16;

/// The properties of a memory type, as a bit mask.
#[derive(Debug, Clone, Copy, PartialEq, Eq, Hash, Structural)]
pub struct MemoryPropertyFlags {
    bits: u32,
}

/// The memory is local to the device.
pub const MEMORY_PROPERTY_DEVICE_LOCAL_BIT: u32 = 0x00000001;

/// The host can map the memory.
pub const MEMORY_PROPERTY_HOST_VISIBLE_BIT: u32 = 0x00000002;

/// Host and device see each other's writes without a flush.
pub const MEMORY_PROPERTY_HOST_COHERENT_BIT: u32 = 0x00000004;

/// The memory is cached on the host.
pub const MEMORY_PROPERTY_HOST_CACHED_BIT: u32 = 0x00000008;

/// The memory is committed only when it is used.
pub const MEMORY_PROPERTY_LAZILY_ALLOCATED_BIT: u32 = 0x00000010;

impl MemoryPropertyFlags {
    /// Every bit that has a name.
    pub open spec fn known() -> u32 {
        0x0000001fu32
    }

    /// The bits of the mask.
    pub closed spec fn raw(self) -> u32 {
        self.bits
    }

    /// The mask with no bit set.
    pub fn empty() -> (flags: Self)
        ensures
            flags.raw() == 0,
    {
        MemoryPropertyFlags { bits: 0 }
    }

    /// The mask with every named bit set.
    pub fn all() -> (flags: Self)
        ensures
            flags.raw() == Self::known(),
    {
        MemoryPropertyFlags { bits: 0x0000001f }
    }

    /// The mask as the native layer gave it, unnamed bits included.
    pub fn from_raw(bits: u32) -> (flags: Self)
        ensures
            flags.raw() == bits,
    {
        MemoryPropertyFlags { bits }
    }

    /// The mask with these bits, unless one of them has no name.
    pub fn from_bits(bits: u32) -> (flags: Option<Self>)
        ensures
            bits & !Self::known() == 0 ==> (flags matches Some(f) && f.raw() == bits),
            bits & !Self::known() != 0 ==> flags is None,
    {
        if bits & !0x0000001fu32 == 0 {
            Some(MemoryPropertyFlags { bits })
        } else {
            None
        }
    }

    /// The mask with those of these bits that have a name.
    pub fn from_bits_truncate(bits: u32) -> (flags: Self)
        ensures
            flags.raw() == bits & Self::known(),
    {
        MemoryPropertyFlags { bits: bits & 0x0000001fu32 }
    }

    /// The bits of the mask, for the native layer.
    pub fn bits(&self) -> (bits: u32)
        ensures
            bits == self.raw(),
    {
        self.bits
    }

    /// Whether no bit is set.
    pub fn is_empty(&self) -> (empty: bool)
        ensures
            empty == (self.raw() == 0),
    {
        self.bits == 0
    }

    /// Whether every bit of `other` is set.
    pub fn contains(&self, other: Self) -> (held: bool)
        ensures
            held == (self.raw() & other.raw() == other.raw()),
    {
        self.bits & other.bits == other.bits
    }

    /// Whether some bit of `other` is set.
    pub fn intersects(&self, other: Self) -> (met: bool)
        ensures
            met == (self.raw() & other.raw() != 0),
    {
        self.bits & other.bits != 0
    }

    /// The mask with the bits of both.
    pub fn union(self, other: Self) -> (flags: Self)
        ensures
            flags.raw() == self.raw() | other.raw(),
    {
        MemoryPropertyFlags { bits: self.bits | other.bits }
    }
}

impl Default for MemoryPropertyFlags {
    fn default() -> (flags: MemoryPropertyFlags)
        ensures
            flags.raw() == 0,
    {
        MemoryPropertyFlags::empty()
    }
}

/// The properties of a memory heap, as a bit mask.
#[derive(Debug, Clone, Copy, PartialEq, Eq, Hash, Structural)]
pub struct MemoryHeapFlags {
    bits: u32,
}

/// The heap is local to the device.
pub const MEMORY_HEAP_DEVICE_LOCAL_BIT: u32 = 0x00000001;

/// Each device of a group has its own instance of the heap.
pub const MEMORY_HEAP_MULTI_INSTANCE_BIT_KHX: u32 = 0x00000002;

impl MemoryHeapFlags {
    /// Every bit that has a name.
    pub open spec fn known() -> u32 {
        0x00000003u32
    }

    /// The bits of the mask.
    pub closed spec fn raw(self) -> u32 {
        self.bits
    }

    /// The mask with no bit set.
    pub fn empty() -> (flags: Self)
        ensures
            flags.raw() == 0,
    {
        MemoryHeapFlags { bits: 0 }
    }

    /// The mask with every named bit set.
    pub fn all() -> (flags: Self)
        ensures
            flags.raw() == Self::known(),
    {
        MemoryHeapFlags { bits: 0x00000003 }
    }

    /// The mask as the native layer gave it, unnamed bits included.
    pub fn from_raw(bits: u32) -> (flags: Self)
        ensures
            flags.raw() == bits,
    {
        MemoryHeapFlags { bits }
    }

    /// The mask with these bits, unless one of them has no name.
    pub fn from_bits(bits: u32) -> (flags: Option<Self>)
        ensures
            bits & !Self::known() == 0 ==> (flags matches Some(f) && f.raw() == bits),
            bits & !Self::known() != 0 ==> flags is None,
    {
        if bits & !0x00000003u32 == 0 {
            Some(MemoryHeapFlags { bits })
        } else {
            None
        }
    }

    /// The mask with those of these bits that have a name.
    pub fn from_bits_truncate(bits: u32) -> (flags: Self)
        ensures
            flags.raw() == bits & Self::known(),
    {
        MemoryHeapFlags { bits: bits & 0x00000003u32 }
    }

    /// The bits of the mask, for the native layer.
    pub fn bits(&self) -> (bits: u32)
        ensures
            bits == self.raw(),
    {
        self.bits
    }

    /// Whether no bit is set.
    pub fn is_empty(&self) -> (empty: bool)
        ensures
            empty == (self.raw() == 0),
    {
        self.bits == 0
    }

    /// Whether every bit of `other` is set.
    pub fn contains(&self, other: Self) -> (held: bool)
        ensures
            held == (self.raw() & other.raw() == other.raw()),
    {
        self.bits & other.bits == other.bits
    }

    /// Whether some bit of `other` is set.
    pub fn intersects(&self, other: Self) -> (met: bool)
        ensures
            met == (self.raw() & other.raw() != 0),
    {
        self.bits & other.bits != 0
    }

    /// The mask with the bits of both.
    pub fn union(self, other: Self) -> (flags: Self)
        ensures
            flags.raw() == self.raw() | other.raw(),
    {
        MemoryHeapFlags { bits: self.bits | other.bits }
    }
}

impl Default for MemoryHeapFlags {
    fn default() -> (flags: MemoryHeapFlags)
        ensures
            flags.raw() == 0,
    {
        MemoryHeapFlags::empty()
    }
}

/// A type of memory, and the heap it comes from.
#[derive(Debug, Clone, Copy, PartialEq, Eq, Structural)]
pub struct MemoryType {
    pub property_flags: MemoryPropertyFlags,
    pub heap_index: u32,
}

/// A heap of memory.
#[derive(Debug, Clone, Copy, PartialEq, Eq, Structural)]
pub struct MemoryHeap {
    pub size: DeviceSize,
    pub flags: MemoryHeapFlags,
}

impl MemoryType {
    /// The record that the native layer wrote as these two words.
    pub fn from_vk(property_flags: u32, heap_index: u32) -> (memory_type: MemoryType)
        ensures
            memory_type.property_flags.raw() == property_flags,
            memory_type.heap_index == heap_index,
    {
        MemoryType { property_flags: MemoryPropertyFlags::from_raw(property_flags), heap_index }
    }

    /// The two words of the record, in the order of the native fields.
    pub fn into_vk(self) -> (words: (u32, u32))
        ensures
            words.0 == self.property_flags.raw(),
            words.1 == self.heap_index,
    {
        (self.property_flags.bits(), self.heap_index)
    }
}

impl MemoryHeap {
    /// The record that the native layer wrote as this size and this mask.
    pub fn from_vk(size: DeviceSize, flags: u32) -> (heap: MemoryHeap)
        ensures
            heap.size == size,
            heap.flags.raw() == flags,
    {
        MemoryHeap { size, flags: MemoryHeapFlags::from_raw(flags) }
    }

    /// The size and the mask of the record, in the order of the native
    /// fields.
    pub fn into_vk(self) -> (words: (DeviceSize, u32))
        ensures
            words.0 == self.size,
            words.1 == self.flags.raw(),
    {
        (self.size, self.flags.bits())
    }
}

/// The memory of an adapter as the native layer writes it: two arrays of
/// fixed size, and for each the number of slots that are in use.
#[derive(Debug, Clone, Copy, PartialEq, Eq)]
pub struct NativePhysicalDeviceMemoryProperties {
    pub memory_type_count: u32,
    pub memory_types: [MemoryType; MAX_MEMORY_TYPES],
    pub memory_heap_count: u32,
    pub memory_heaps: [MemoryHeap; MAX_MEMORY_HEAPS],
}

/// The memory types and heaps of an adapter.
#[derive(Debug, Clone, PartialEq, Eq)]
pub struct PhysicalDeviceMemoryProperties {
    pub memory_types: Vec<MemoryType>,
    pub memory_heaps: Vec<MemoryHeap>,
}

impl NativePhysicalDeviceMemoryProperties {
    /// Both counts are within the arrays.
    pub open spec fn within_bounds(self) -> bool {
        self.memory_type_count <= MAX_MEMORY_TYPES && self.memory_heap_count <= MAX_MEMORY_HEAPS
    }

    /// Whether both counts are within the arrays.
    pub fn is_within_bounds(&self) -> (within: bool)
        ensures
            within == self.within_bounds(),
    {
        self.memory_type_count as usize <= MAX_MEMORY_TYPES && self.memory_heap_count as usize
            <= MAX_MEMORY_HEAPS
    }
}

impl PhysicalDeviceMemoryProperties {
    /// The record holds the slots that are in use, in order, and no others.
    pub open spec fn mirrors(self, vk: NativePhysicalDeviceMemoryProperties) -> bool {
        &&& self.memory_types@ == vk.memory_types@.take(vk.memory_type_count as int)
        &&& self.memory_heaps@ == vk.memory_heaps@.take(vk.memory_heap_count as int)
    }

    /// Copies the slots that are in use out of a native record. The counts
    /// must be within the arrays.
    pub fn from_vk(vk: &NativePhysicalDeviceMemoryProperties) -> (properties:
        PhysicalDeviceMemoryProperties)
        requires
            vk.within_bounds(),
        ensures
            properties.mirrors(*vk),
    {
        let mut memory_types: Vec<MemoryType> = Vec::new();
        let mut i: usize = 0;
        while i < vk.memory_type_count as usize
            invariant
                0 <= i <= vk.memory_type_count <= MAX_MEMORY_TYPES,
                memory_types@ == vk.memory_types@.take(i as int),
            decreases vk.memory_type_count - i,
        {
            memory_types.push(vk.memory_types[i]);
            assert(memory_types@ =~= vk.memory_types@.take(i + 1));
            i += 1;
        }
        let mut memory_heaps: Vec<MemoryHeap> = Vec::new();
        let mut j: usize = 0;
        while j < vk.memory_heap_count as usize
            invariant
                0 <= j <= vk.memory_heap_count <= MAX_MEMORY_HEAPS,
                memory_heaps@ == vk.memory_heaps@.take(j as int),
            decreases vk.memory_heap_count - j,
        {
            memory_heaps.push(vk.memory_heaps[j]);
            assert(memory_heaps@ =~= vk.memory_heaps@.take(j + 1));
            j += 1;
        }
        PhysicalDeviceMemoryProperties { memory_types, memory_heaps }
    }

    /// Copies the slots that are in use out of a native record, unless a
    /// count lies outside its array.
    pub fn try_from_vk(vk: &NativePhysicalDeviceMemoryProperties) -> (properties: Option<
        PhysicalDeviceMemoryProperties,
    >)
        ensures
            vk.within_bounds() ==> (properties matches Some(p) && p.mirrors(*vk)),
            !vk.within_bounds() ==> properties is None,
    {
        if vk.is_within_bounds() {
            Some(PhysicalDeviceMemoryProperties::from_vk(vk))
        } else {
            None
        }
    }
}

} // verus!
