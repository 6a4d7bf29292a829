//! Per-instance behavioral flags.
//!
//! The flag values are an ABI contract with the GPU driver: each named flag
//! must carry exactly the numeric value of the driver's own enumeration and
//! may never be renumbered independently of it.

use vstd::prelude::*;

verus! {

/// A bit-set of per-instance behavioral modifiers (face culling, any-hit
/// control, transform disable). A value is a bitwise OR of the named flags
/// and nothing else; no validation beyond that is performed here, and the
/// driver decides the behavior of contradictory combinations.
#[derive(Clone, Copy, Debug, PartialEq, Eq, Structural)]
pub struct InstanceFlags {
    pub bits: u32,
}

impl InstanceFlags {
    /// True when every set bit belongs to a named flag.
    pub open spec fn valid(self) -> bool {
        self.bits & !0x4Fu32 == 0
    }

    /// The empty flag set (driver value 0).
    pub fn none() -> (r: InstanceFlags)
        ensures
            r.bits == 0,
            r.valid(),
    {
        proof {
            lemma_named_flag_bits_valid();
        }
        InstanceFlags { bits: 0 }
    }

    /// Disables backface culling of triangles (driver value 0x1).
    pub fn disable_triangle_face_culling() -> (r: InstanceFlags)
        ensures
            r.bits == 0x1,
            r.valid(),
    {
        proof {
            lemma_named_flag_bits_valid();
        }
        InstanceFlags { bits: 0x1 }
    }

    /// Flips the facing of triangles (driver value 0x2).
    pub fn flip_triangle_facing() -> (r: InstanceFlags)
        ensures
            r.bits == 0x2,
            r.valid(),
    {
        proof {
            lemma_named_flag_bits_valid();
        }
        InstanceFlags { bits: 0x2 }
    }

    /// Disables any-hit programs for the instance (driver value 0x4).
    pub fn disable_anyhit() -> (r: InstanceFlags)
        ensures
            r.bits == 0x4,
            r.valid(),
    {
        proof {
            lemma_named_flag_bits_valid();
        }
        InstanceFlags { bits: 0x4 }
    }

    /// Forces any-hit programs to run for the instance (driver value 0x8).
    pub fn enforce_anyhit() -> (r: InstanceFlags)
        ensures
            r.bits == 0x8,
            r.valid(),
    {
        proof {
            lemma_named_flag_bits_valid();
        }
        InstanceFlags { bits: 0x8 }
    }

    /// Disables the instance transform (driver value 0x40).
    pub fn disable_transform() -> (r: InstanceFlags)
        ensures
            r.bits == 0x40,
            r.valid(),
    {
        proof {
            lemma_named_flag_bits_valid();
        }
        InstanceFlags { bits: 0x40 }
    }

    /// The flag set holding every flag of `self` and every flag of `other`.
    pub open spec fn spec_union(self, other: InstanceFlags) -> InstanceFlags {
        InstanceFlags { bits: self.bits | other.bits }
    }

    /// Bitwise union of two flag sets.
    pub fn union(self, other: InstanceFlags) -> (r: InstanceFlags)
        ensures
            r == self.spec_union(other),
            self.valid() && other.valid() ==> r.valid(),
    {
        proof {
            lemma_flag_set_algebra(self.bits, other.bits);
        }
        InstanceFlags { bits: self.bits | other.bits }
    }

    /// The flag set holding exactly the flags present in both arguments.
    pub open spec fn spec_intersection(self, other: InstanceFlags) -> InstanceFlags {
        InstanceFlags { bits: self.bits & other.bits }
    }

    /// Bitwise intersection of two flag sets.
    pub fn intersection(self, other: InstanceFlags) -> (r: InstanceFlags)
        ensures
            r == self.spec_intersection(other),
            self.valid() && other.valid() ==> r.valid(),
    {
        proof {
            lemma_flag_set_algebra(self.bits, other.bits);
        }
        InstanceFlags { bits: self.bits & other.bits }
    }

    /// True when every flag of `other` is present in `self`.
    pub open spec fn spec_contains(self, other: InstanceFlags) -> bool {
        self.bits & other.bits == other.bits
    }

    /// Membership test: does `self` hold every flag of `other`?
    pub fn contains(self, other: InstanceFlags) -> (r: bool)
        ensures
            r == self.spec_contains(other),
    {
        self.bits & other.bits == other.bits
    }
}

/// Every named flag value sits inside the driver's flag mask.
proof fn lemma_named_flag_bits_valid()
    by (bit_vector)
    ensures
        0u32 & !0x4Fu32 == 0,
        0x1u32 & !0x4Fu32 == 0,
        0x2u32 & !0x4Fu32 == 0,
        0x4u32 & !0x4Fu32 == 0,
        0x8u32 & !0x4Fu32 == 0,
        0x40u32 & !0x4Fu32 == 0,
{
}

/// Union and intersection stay inside the driver's flag mask, and a union
/// keeps each operand as a subset.
proof fn lemma_flag_set_algebra(a: u32, b: u32)
    by (bit_vector)
    ensures
        a & !0x4Fu32 == 0 && b & !0x4Fu32 == 0 ==> (a | b) & !0x4Fu32 == 0,
        a & !0x4Fu32 == 0 && b & !0x4Fu32 == 0 ==> (a & b) & !0x4Fu32 == 0,
        (a | b) & a == a,
        (a | b) & b == b,
{
}

/// Law: a union holds both of its operands, and the membership test recovers
/// each of them individually from the combined set.
pub proof fn lemma_union_membership(a: InstanceFlags, b: InstanceFlags)
    ensures
        a.spec_union(b).spec_contains(a),
        a.spec_union(b).spec_contains(b),
{
    lemma_flag_set_algebra(a.bits, b.bits);
}

} // verus!
