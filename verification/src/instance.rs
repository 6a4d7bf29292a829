//! The per-instance record and its fluent configuration API.
//!
//! An [`Instance`] places one bottom-level acceleration structure into a
//! scene. Its in-memory shape mirrors the driver's fixed 80-byte record
//! (see [`crate::layout`]); matrix entries are carried as the raw bit
//! patterns of their 32-bit IEEE-754 values, since this crate never does
//! arithmetic on them — it only stores and copies them.

use vstd::prelude::*;

use core::marker::PhantomData;

use crate::accel::{Accel, TraversableHandle};
use crate::flags::InstanceFlags;

verus! {

/// The twelve row-major entries of the identity 3x4 object-to-world
/// transform, as raw 32-bit IEEE-754 bit patterns (1.0 is 0x3F80_0000).
pub open spec fn spec_identity_transform() -> Seq<u32> {
    seq![
        0x3F80_0000u32, 0u32, 0u32, 0u32,
        0u32, 0x3F80_0000u32, 0u32, 0u32,
        0u32, 0u32, 0x3F80_0000u32, 0u32,
    ]
}

/// The identity transform as a row-major 3x4 entry array.
pub fn identity_transform() -> (r: [u32; 12])
    ensures
        r@ == spec_identity_transform(),
{
    let r = [
        0x3F80_0000u32, 0u32, 0u32, 0u32,
        0u32, 0x3F80_0000u32, 0u32, 0u32,
        0u32, 0u32, 0x3F80_0000u32, 0u32,
    ];
    proof {
        assert(r@ =~= spec_identity_transform());
    }
    r
}

/// One placement of a bottom-level acceleration structure in a scene.
///
/// The field order, widths and padding mirror the driver's instance record
/// exactly; the caller copies configured values verbatim into device
/// memory. The lifetime ties an instance to the structure whose handle it
/// captured, so the instance cannot outlive that structure.
#[derive(Clone, Copy, Debug)]
pub struct Instance<'a> {
    /// Row-major 3x4 object-to-world transform, each entry the raw bit
    /// pattern of a 32-bit IEEE-754 value.
    pub transform: [u32; 12],
    /// User-defined identifier surfaced in hit results.
    pub instance_id: u32,
    /// Offset into the shader binding table for this instance.
    pub sbt_offset: u32,
    /// Visibility mask; only the low 8 bits are meaningful to the driver.
    pub visibility_mask: u32,
    /// Behavioral flags, pinned to the driver's enumeration.
    pub flags: InstanceFlags,
    /// Handle of the referenced bottom-level structure.
    pub traversable_handle: TraversableHandle,
    /// Reserved words demanded by the driver record; always zero.
    pub pad: [u32; 2],
    /// Marker tying the instance's lifetime to the structure it references.
    pub accel: PhantomData<&'a ()>,
}

impl<'a> Instance<'a> {
    /// Invariant every constructed instance keeps: only named flag bits,
    /// a mask within its meaningful 8 bits, and zeroed reserved words.
    pub open spec fn wf(self) -> bool {
        &&& self.flags.valid()
        &&& self.visibility_mask < 256
        &&& self.pad[0] == 0
        &&& self.pad[1] == 0
    }

    /// A fresh instance referencing `accel`, with the documented defaults:
    /// identity transform, id 0, table offset 0, full visibility, no flags,
    /// and the traversable handle captured from `accel`.
    pub fn new(accel: &'a Accel) -> (r: Instance<'a>)
        ensures
            r.transform@ == spec_identity_transform(),
            r.instance_id == 0,
            r.sbt_offset == 0,
            r.visibility_mask == 255,
            r.flags.bits == 0,
            r.traversable_handle == accel.spec_handle(),
            r.wf(),
    {
        Instance {
            transform: identity_transform(),
            instance_id: 0,
            sbt_offset: 0,
            visibility_mask: 255,
            flags: InstanceFlags::none(),
            traversable_handle: accel.handle(),
            pad: [0, 0],
            accel: PhantomData,
        }
    }

    /// `self` with its transform replaced.
    pub open spec fn spec_with_transform(self, transform: [u32; 12]) -> Instance<'a> {
        Instance { transform, ..self }
    }

    /// Replaces the object-to-world transform (row-major 3x4 entries as raw
    /// 32-bit IEEE-754 bit patterns). Value semantics: returns the updated
    /// instance, mutating no shared state.
    pub fn transform(self, transform: [u32; 12]) -> (r: Instance<'a>)
        ensures
            r == self.spec_with_transform(transform),
    {
        let mut r = self;
        r.transform = transform;
        r
    }

    /// `self` with its user identifier replaced.
    pub open spec fn spec_with_instance_id(self, instance_id: u32) -> Instance<'a> {
        Instance { instance_id, ..self }
    }

    /// Sets the user-defined identifier verbatim.
    pub fn instance_id(self, instance_id: u32) -> (r: Instance<'a>)
        ensures
            r == self.spec_with_instance_id(instance_id),
    {
        let mut r = self;
        r.instance_id = instance_id;
        r
    }

    /// `self` with its shader-binding-table offset replaced.
    pub open spec fn spec_with_sbt_offset(self, sbt_offset: u32) -> Instance<'a> {
        Instance { sbt_offset, ..self }
    }

    /// Sets the shader-binding-table offset verbatim.
    pub fn sbt_offset(self, sbt_offset: u32) -> (r: Instance<'a>)
        ensures
            r == self.spec_with_sbt_offset(sbt_offset),
    {
        let mut r = self;
        r.sbt_offset = sbt_offset;
        r
    }

    /// `self` with its visibility mask replaced by the widened 8-bit value.
    pub open spec fn spec_with_visibility_mask(self, visibility_mask: u8) -> Instance<'a> {
        Instance { visibility_mask: visibility_mask as u32, ..self }
    }

    /// Sets the visibility mask. The 8-bit argument is widened into the
    /// 32-bit storage field, so the upper 24 bits are always zero.
    pub fn visibility_mask(self, visibility_mask: u8) -> (r: Instance<'a>)
        ensures
            r == self.spec_with_visibility_mask(visibility_mask),
            r.visibility_mask == visibility_mask,
            r.visibility_mask < 256,
    {
        let mut r = self;
        r.visibility_mask = visibility_mask as u32;
        r
    }

    /// `self` with its flag set replaced.
    pub open spec fn spec_with_flags(self, flags: InstanceFlags) -> Instance<'a> {
        Instance { flags, ..self }
    }

    /// Replaces the flag set outright — not additive, the last call wins.
    pub fn flags(self, flags: InstanceFlags) -> (r: Instance<'a>)
        ensures
            r == self.spec_with_flags(flags),
    {
        let mut r = self;
        r.flags = flags;
        r
    }
}

/// Law: chained configuration is last-write-wins — for every field, a later
/// setter fully overrides an earlier setter of the same field, with no
/// merging of the two values.
pub proof fn lemma_configuration_overrides(
    i: Instance,
    t1: [u32; 12],
    t2: [u32; 12],
    id1: u32,
    id2: u32,
    off1: u32,
    off2: u32,
    m1: u8,
    m2: u8,
    f1: InstanceFlags,
    f2: InstanceFlags,
)
    ensures
        i.spec_with_transform(t1).spec_with_transform(t2) == i.spec_with_transform(t2),
        i.spec_with_instance_id(id1).spec_with_instance_id(id2) == i.spec_with_instance_id(id2),
        i.spec_with_sbt_offset(off1).spec_with_sbt_offset(off2) == i.spec_with_sbt_offset(off2),
        i.spec_with_visibility_mask(m1).spec_with_visibility_mask(m2)
            == i.spec_with_visibility_mask(m2),
        i.spec_with_flags(f1).spec_with_flags(f2) == i.spec_with_flags(f2),
{
}

/// Law: the reserved padding words stay zero along every configuration
/// path — no setter touches them, and construction zeroes them.
pub proof fn lemma_configuration_preserves_reserved(
    i: Instance,
    t: [u32; 12],
    id: u32,
    off: u32,
    m: u8,
    f: InstanceFlags,
)
    requires
        i.pad[0] == 0,
        i.pad[1] == 0,
    ensures
        i.spec_with_transform(t).pad[0] == 0 && i.spec_with_transform(t).pad[1] == 0,
        i.spec_with_instance_id(id).pad[0] == 0 && i.spec_with_instance_id(id).pad[1] == 0,
        i.spec_with_sbt_offset(off).pad[0] == 0 && i.spec_with_sbt_offset(off).pad[1] == 0,
        i.spec_with_visibility_mask(m).pad[0] == 0 && i.spec_with_visibility_mask(m).pad[1] == 0,
        i.spec_with_flags(f).pad[0] == 0 && i.spec_with_flags(f).pad[1] == 0,
{
}

} // verus!
