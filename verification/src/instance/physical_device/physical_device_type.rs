//! The kinds of adapter.

use vstd::prelude::*;

verus! {

/// The kind of an adapter.
#[derive(Debug, Clone, Copy, PartialEq, Eq, Hash, Structural)]
pub enum PhysicalDeviceType {
    /// None of the other kinds.
    Other,
    /// A graphics processor that is part of the host processor.
    IntegratedGPU,
    /// A graphics processor of its own.
    DiscreteGPU,
    /// A virtual graphics processor.
    VirtualGPU,
    /// The host processor itself.
    CPU,
}

impl PhysicalDeviceType {
    /// The number by which the native layer knows this kind.
    pub open spec fn number(self) -> u32 {
        match self {
            PhysicalDeviceType::Other => 0,
            PhysicalDeviceType::IntegratedGPU => 1,
            PhysicalDeviceType::DiscreteGPU => 2,
            PhysicalDeviceType::VirtualGPU => 3,
            PhysicalDeviceType::CPU => 4,
        }
    }

    /// The kind that a native number stands for. A number that names no
    /// kind stands for `Other`.
    pub open spec fn of(raw: u32) -> PhysicalDeviceType {
        if raw == 1 {
            PhysicalDeviceType::IntegratedGPU
        } else if raw == 2 {
            PhysicalDeviceType::DiscreteGPU
        } else if raw == 3 {
            PhysicalDeviceType::VirtualGPU
        } else if raw == 4 {
            PhysicalDeviceType::CPU
        } else {
            PhysicalDeviceType::Other
        }
    }

    /// The number by which the native layer knows this kind.
    pub fn as_raw(self) -> (raw: u32)
        ensures
            raw == self.number(),
            PhysicalDeviceType::of(raw) == self,
    {
        match self {
            PhysicalDeviceType::Other => 0,
            PhysicalDeviceType::IntegratedGPU => 1,
            PhysicalDeviceType::DiscreteGPU => 2,
            PhysicalDeviceType::VirtualGPU => 3,
            PhysicalDeviceType::CPU => 4,
        }
    }

    /// The kind that a native number stands for.
    pub fn from_raw(raw: u32) -> (kind: PhysicalDeviceType)
        ensures
            kind == PhysicalDeviceType::of(raw),
    {
        match raw {
            1 => PhysicalDeviceType::IntegratedGPU,
            2 => PhysicalDeviceType::DiscreteGPU,
            3 => PhysicalDeviceType::VirtualGPU,
            4 => PhysicalDeviceType::CPU,
            _ => PhysicalDeviceType::Other,
        }
    }
}

} // verus!
