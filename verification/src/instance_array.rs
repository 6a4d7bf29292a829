//! Build-input descriptors over device-resident instance sequences.
//!
//! Both variants here are stateless, non-owning descriptor factories: they
//! borrow a device-resident sequence somebody else allocated and populated,
//! and translate its (device address, length) pair into the tagged
//! descriptor the driver's acceleration-structure builder consumes. Two
//! driver generations are supported, as two descriptor shapes: the current
//! one carries just the pointer/count payload, while older generations
//! demand two additional reserved bounding-box fields that are always zero
//! here. A build links against one driver generation at a time and calls
//! the conversion for that generation alone.

use vstd::prelude::*;

use core::marker::PhantomData;

use crate::instance::Instance;

verus! {

/// A borrowed, non-owning view of device memory holding `len` values of
/// type `T`, starting at raw device address `ptr`. Device memory is not
/// addressable from the host, so the view carries exactly what the driver
/// descriptor needs: the address and the element count. Caller obligations
/// this crate cannot check: the address really designates at least `len`
/// device-resident values of `T`, and the backing allocation stays live
/// and unmodified for `'m`.
#[derive(Debug)]
pub struct DeviceView<'m, T> {
    /// Raw device address of the first element.
    pub ptr: u64,
    /// Number of elements in the viewed sequence.
    pub len: usize,
    /// Marker borrowing the viewed memory for `'m`.
    pub mem: PhantomData<&'m [T]>,
}

impl<'m, T> DeviceView<'m, T> {
    /// Describes a device-resident sequence by its raw address and length.
    pub fn from_raw_parts(ptr: u64, len: usize) -> (r: DeviceView<'m, T>)
        ensures
            r.ptr == ptr,
            r.len == len,
    {
        DeviceView { ptr, len, mem: PhantomData }
    }
}

/// The type tag of a build-input descriptor, selecting how the driver
/// interprets the payload's device pointer.
#[derive(Clone, Copy, Debug, PartialEq, Eq, Structural)]
pub enum BuildInputKind {
    /// The pointer addresses a contiguous array of instance records.
    Instances,
    /// The pointer addresses an array of raw device pointers, each of
    /// which addresses one independently stored instance record.
    InstancePointers,
}

/// The tagged build-input descriptor of the current driver generation:
/// a type tag plus a device pointer and a 32-bit element count.
#[derive(Clone, Copy, Debug, PartialEq, Eq, Structural)]
pub struct BuildInputDescriptor {
    /// Selects the interpretation of `instances`.
    pub kind: BuildInputKind,
    /// Device address of the instance (or pointer) array.
    pub instances: u64,
    /// Number of elements behind `instances`.
    pub num_instances: u32,
}

/// The build-input descriptor of older driver generations: the same tag
/// and payload, plus two reserved fields for a legacy per-instance
/// bounding-box feature that is not exercised, so they are always zero.
#[derive(Clone, Copy, Debug, PartialEq, Eq, Structural)]
pub struct LegacyBuildInputDescriptor {
    /// Selects the interpretation of `instances`.
    pub kind: BuildInputKind,
    /// Device address of the instance (or pointer) array.
    pub instances: u64,
    /// Number of elements behind `instances`.
    pub num_instances: u32,
    /// Reserved bounding-box device pointer; always zero.
    pub aabbs: u64,
    /// Reserved bounding-box count; always zero.
    pub num_aabbs: u32,
}

/// A build input wrapping a device-resident contiguous sequence of
/// instance records. Owns nothing and copies nothing; its descriptor is
/// valid only as long as the borrowed sequence's backing memory is.
#[derive(Debug)]
pub struct InstanceArray<'i, 'a> {
    /// The borrowed device sequence of instance records.
    pub instances: DeviceView<'i, Instance<'a>>,
}

impl<'i, 'a> InstanceArray<'i, 'a> {
    /// Wraps a borrowed device sequence of instance records. A zero-length
    /// sequence is legal and describes zero instances.
    pub fn new(instances: DeviceView<'i, Instance<'a>>) -> (r: InstanceArray<'i, 'a>)
        ensures
            r.instances == instances,
    {
        InstanceArray { instances }
    }

    /// The descriptor this array translates to on the current generation.
    pub open spec fn spec_to_sys(self) -> BuildInputDescriptor {
        BuildInputDescriptor {
            kind: BuildInputKind::Instances,
            instances: self.instances.ptr,
            num_instances: self.instances.len as u32,
        }
    }

    /// The descriptor this array translates to on older generations.
    pub open spec fn spec_to_sys_legacy(self) -> LegacyBuildInputDescriptor {
        LegacyBuildInputDescriptor {
            kind: BuildInputKind::Instances,
            instances: self.instances.ptr,
            num_instances: self.instances.len as u32,
            aabbs: 0,
            num_aabbs: 0,
        }
    }

    /// Produces the current generation's build-input descriptor: the
    /// instance-array tag over the borrowed sequence's device address and
    /// count. Counts above the 32-bit field are truncated by storage
    /// width, as the driver record demands.
    pub fn to_sys(&self) -> (r: BuildInputDescriptor)
        ensures
            r == self.spec_to_sys(),
            r.kind == BuildInputKind::Instances,
            r.instances == self.instances.ptr,
            self.instances.len <= u32::MAX ==> r.num_instances == self.instances.len,
    {
        BuildInputDescriptor {
            kind: BuildInputKind::Instances,
            instances: self.instances.ptr,
            num_instances: #[verifier::truncate] (self.instances.len as u32),
        }
    }

    /// Produces the older generations' build-input descriptor: the same
    /// tag and payload as [`Self::to_sys`], with the reserved bounding-box
    /// fields zeroed.
    pub fn to_sys_legacy(&self) -> (r: LegacyBuildInputDescriptor)
        ensures
            r == self.spec_to_sys_legacy(),
            r.kind == BuildInputKind::Instances,
            r.instances == self.instances.ptr,
            self.instances.len <= u32::MAX ==> r.num_instances == self.instances.len,
            r.aabbs == 0,
            r.num_aabbs == 0,
    {
        LegacyBuildInputDescriptor {
            kind: BuildInputKind::Instances,
            instances: self.instances.ptr,
            num_instances: #[verifier::truncate] (self.instances.len as u32),
            aabbs: 0,
            num_aabbs: 0,
        }
    }
}

/// A build input wrapping a device-resident sequence of raw device
/// pointers, each addressing one instance record stored elsewhere in
/// device memory and kept alive by the caller. Same descriptor shape as
/// [`InstanceArray`], different type tag.
#[derive(Debug)]
pub struct InstancePointerArray<'i> {
    /// The borrowed device sequence of raw instance-record addresses.
    pub instances: DeviceView<'i, u64>,
}

impl<'i> InstancePointerArray<'i> {
    /// Wraps a borrowed device sequence of raw instance-record addresses.
    /// A zero-length sequence is legal and describes zero instances.
    pub fn new(instances: DeviceView<'i, u64>) -> (r: InstancePointerArray<'i>)
        ensures
            r.instances == instances,
    {
        InstancePointerArray { instances }
    }

    /// The descriptor this array translates to on the current generation.
    pub open spec fn spec_to_sys(self) -> BuildInputDescriptor {
        BuildInputDescriptor {
            kind: BuildInputKind::InstancePointers,
            instances: self.instances.ptr,
            num_instances: self.instances.len as u32,
        }
    }

    /// The descriptor this array translates to on older generations.
    pub open spec fn spec_to_sys_legacy(self) -> LegacyBuildInputDescriptor {
        LegacyBuildInputDescriptor {
            kind: BuildInputKind::InstancePointers,
            instances: self.instances.ptr,
            num_instances: self.instances.len as u32,
            aabbs: 0,
            num_aabbs: 0,
        }
    }

    /// Produces the current generation's build-input descriptor: the
    /// instance-pointer tag over the borrowed sequence's device address
    /// and count, truncated to the 32-bit count field.
    pub fn to_sys(&self) -> (r: BuildInputDescriptor)
        ensures
            r == self.spec_to_sys(),
            r.kind == BuildInputKind::InstancePointers,
            r.instances == self.instances.ptr,
            self.instances.len <= u32::MAX ==> r.num_instances == self.instances.len,
    {
        BuildInputDescriptor {
            kind: BuildInputKind::InstancePointers,
            instances: self.instances.ptr,
            num_instances: #[verifier::truncate] (self.instances.len as u32),
        }
    }

    /// Produces the older generations' build-input descriptor: the same
    /// tag and payload as [`Self::to_sys`], with the reserved bounding-box
    /// fields zeroed.
    pub fn to_sys_legacy(&self) -> (r: LegacyBuildInputDescriptor)
        ensures
            r == self.spec_to_sys_legacy(),
            r.kind == BuildInputKind::InstancePointers,
            r.instances == self.instances.ptr,
            self.instances.len <= u32::MAX ==> r.num_instances == self.instances.len,
            r.aabbs == 0,
            r.num_aabbs == 0,
    {
        LegacyBuildInputDescriptor {
            kind: BuildInputKind::InstancePointers,
            instances: self.instances.ptr,
            num_instances: #[verifier::truncate] (self.instances.len as u32),
            aabbs: 0,
            num_aabbs: 0,
        }
    }
}

/// Law: both driver generations receive the same logical content — for any
/// array, the legacy descriptor carries exactly the tag, device pointer and
/// count of the current one, and adds nothing but its zeroed reserved
/// fields.
pub proof fn lemma_generations_agree(ia: InstanceArray, pa: InstancePointerArray)
    ensures
        ia.spec_to_sys_legacy().kind == ia.spec_to_sys().kind,
        ia.spec_to_sys_legacy().instances == ia.spec_to_sys().instances,
        ia.spec_to_sys_legacy().num_instances == ia.spec_to_sys().num_instances,
        ia.spec_to_sys_legacy().aabbs == 0,
        ia.spec_to_sys_legacy().num_aabbs == 0,
        pa.spec_to_sys_legacy().kind == pa.spec_to_sys().kind,
        pa.spec_to_sys_legacy().instances == pa.spec_to_sys().instances,
        pa.spec_to_sys_legacy().num_instances == pa.spec_to_sys().num_instances,
        pa.spec_to_sys_legacy().aabbs == 0,
        pa.spec_to_sys_legacy().num_aabbs == 0,
{
}

/// Law: for equivalent device pointer/count pairs, the two build-input
/// variants produce descriptors with identical payloads but different
/// type tags, on either driver generation.
pub proof fn lemma_variant_tags_differ(ia: InstanceArray, pa: InstancePointerArray)
    requires
        ia.instances.ptr == pa.instances.ptr,
        ia.instances.len == pa.instances.len,
    ensures
        ia.spec_to_sys().kind != pa.spec_to_sys().kind,
        ia.spec_to_sys().instances == pa.spec_to_sys().instances,
        ia.spec_to_sys().num_instances == pa.spec_to_sys().num_instances,
        ia.spec_to_sys_legacy().kind != pa.spec_to_sys_legacy().kind,
        ia.spec_to_sys_legacy().instances == pa.spec_to_sys_legacy().instances,
        ia.spec_to_sys_legacy().num_instances == pa.spec_to_sys_legacy().num_instances,
{
}

} // verus!
