//! What an adapter promises of sparse resources.

use vstd::prelude::*;
use crate::native::Bool32;

verus! {

/// What an adapter promises of sparse resources, as native booleans.
#[derive(Debug, Clone, Copy, PartialEq, Eq, Structural)]
pub struct PhysicalDeviceSparseProperties {
    pub residency_standard_2d_block_shape: Bool32,
    pub residency_standard_2d_multisample_block_shape: Bool32,
    pub residency_standard_3d_block_shape: Bool32,
    pub residency_aligned_mip_size: Bool32,
    pub residency_non_resident_strict: Bool32,
}

impl PhysicalDeviceSparseProperties {
    /// The record that the native layer wrote as these five words, in the
    /// order of its fields.
    pub fn from_vk(words: [Bool32; 5]) -> (properties: PhysicalDeviceSparseProperties)
        ensures
            properties.into_words() == words@,
    {
        let properties = PhysicalDeviceSparseProperties {
            residency_standard_2d_block_shape: words[0],
            residency_standard_2d_multisample_block_shape: words[1],
            residency_standard_3d_block_shape: words[2],
            residency_aligned_mip_size: words[3],
            residency_non_resident_strict: words[4],
        };
        assert(properties.into_words() =~= words@);
        properties
    }

    /// The five words of the record, in the order of the native fields.
    pub open spec fn into_words(self) -> Seq<Bool32> {
        seq![
            self.residency_standard_2d_block_shape,
            self.residency_standard_2d_multisample_block_shape,
            self.residency_standard_3d_block_shape,
            self.residency_aligned_mip_size,
            self.residency_non_resident_strict,
        ]
    }
}

} // verus!
