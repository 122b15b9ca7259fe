//! The packed version codec.
//!
//! A version is a `(major, minor, patch)` triple. The native API carries it
//! in one 32-bit word: ten bits of major, ten bits of minor and twelve bits
//! of patch, most significant first.

use vstd::prelude::*;
use vstd::string::*;
use crate::text::{decimal, push_decimal};

verus! {

/// Mask of the bits that hold the major component.
pub const MAJOR_MASK: u32 = 0xffc0_0000;

/// Mask of the bits that hold the minor component.
pub const MINOR_MASK: u32 = 0x003f_f000;

/// Mask of the bits that hold the patch component.
pub const PATCH_MASK: u32 = 0x0000_0fff;

/// A `(major, minor, patch)` version.
#[derive(Debug, Clone, Copy, PartialEq, Eq, Structural)]
pub struct Version(pub u32, pub u32, pub u32);

impl Version {
    /// Each component fits in the bits that the packed word gives it.
    pub open spec fn in_range(self) -> bool {
        self.0 < 0x400 && self.1 < 0x400 && self.2 < 0x1000
    }

    /// The packed word of this version. Bits of a component that do not fit
    /// are not masked off: bits shifted past the top are lost, the others
    /// are or-ed into the neighbouring component, as the native macro does.
    pub open spec fn packed(self) -> u32 {
        (self.0 << 22u32) | (self.1 << 12u32) | self.2
    }

    /// The version that a packed word holds.
    pub open spec fn unpacked(vk: u32) -> Version {
        Version((vk & MAJOR_MASK) >> 22u32, (vk & MINOR_MASK) >> 12u32, vk & PATCH_MASK)
    }

    /// Packs the version into the word that the native API expects.
    #[inline]
    pub fn to_vk(&self) -> (vk: u32)
        ensures
            vk == self.packed(),
    {
        (self.0 << 22u32) | (self.1 << 12u32) | self.2
    }

    /// The version as it is written: the three components in decimal,
    /// with a dot between them.
    pub open spec fn text(self) -> Seq<char> {
        decimal(self.0 as nat) + seq!['.'] + decimal(self.1 as nat) + seq!['.'] + decimal(
            self.2 as nat,
        )
    }

    /// Writes the version as `major.minor.patch`.
    pub fn to_string(&self) -> (text: String)
        ensures
            text@ == self.text(),
    {
        proof {
            reveal_strlit("");
            reveal_strlit(".");
        }
        let mut out = String::from_str("");
        push_decimal(&mut out, self.0 as u64);
        out.append(".");
        push_decimal(&mut out, self.1 as u64);
        out.append(".");
        push_decimal(&mut out, self.2 as u64);
        assert(out@ =~= self.text());
        out
    }

    /// Unpacks a native version word.
    #[inline]
    pub fn from_vk(vk: u32) -> (version: Version)
        ensures
            version == Version::unpacked(vk),
            version.in_range(),
    {
        proof {
            lemma_unpacked_in_range(vk);
        }
        Version((vk & MAJOR_MASK) >> 22u32, (vk & MINOR_MASK) >> 12u32, vk & PATCH_MASK)
    }
}

/// Unpacking a word always gives components within range.
pub proof fn lemma_unpacked_in_range(vk: u32)
    ensures
        Version::unpacked(vk).in_range(),
{
    assert((vk & 0xffc0_0000u32) >> 22u32 < 0x400u32) by (bit_vector);
    assert((vk & 0x003f_f000u32) >> 12u32 < 0x400u32) by (bit_vector);
    assert(vk & 0x0000_0fffu32 < 0x1000u32) by (bit_vector);
}

/// Round trip: unpacking the packed word of a version within range gives
/// the version back.
pub proof fn lemma_unpack_packed(version: Version)
    requires
        version.in_range(),
    ensures
        Version::unpacked(version.packed()) == version,
{
    let a = version.0;
    let b = version.1;
    let c = version.2;
    assert((((a << 22u32) | (b << 12u32) | c) & 0xffc0_0000u32) >> 22u32 == a) by (bit_vector)
        requires
            a < 0x400u32,
            b < 0x400u32,
            c < 0x1000u32,
    ;
    assert((((a << 22u32) | (b << 12u32) | c) & 0x003f_f000u32) >> 12u32 == b) by (bit_vector)
        requires
            a < 0x400u32,
            b < 0x400u32,
            c < 0x1000u32,
    ;
    assert(((a << 22u32) | (b << 12u32) | c) & 0x0000_0fffu32 == c) by (bit_vector)
        requires
            a < 0x400u32,
            b < 0x400u32,
            c < 0x1000u32,
    ;
}

/// The converse round trip: packing what a word unpacks to gives the word
/// back, for every word.
pub proof fn lemma_pack_unpacked(vk: u32)
    ensures
        Version::unpacked(vk).packed() == vk,
{
    assert(((((vk & 0xffc0_0000u32) >> 22u32) << 22u32) | (((vk & 0x003f_f000u32) >> 12u32)
        << 12u32) | (vk & 0x0000_0fffu32)) == vk) by (bit_vector);
}

/// Within range the packed word is the weighted sum of the components.
pub proof fn lemma_packed_is_sum(version: Version)
    requires
        version.in_range(),
    ensures
        version.packed() == version.0 * 0x40_0000 + version.1 * 0x1000 + version.2,
{
    let a = version.0;
    let b = version.1;
    let c = version.2;
    assert(((a << 22u32) | (b << 12u32) | c) == a * 0x40_0000u32 + b * 0x1000u32 + c)
        by (bit_vector)
        requires
            a < 0x400u32,
            b < 0x400u32,
            c < 0x1000u32,
    ;
}

} // verus!
