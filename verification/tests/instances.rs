use optix::accel::{Accel, TraversableHandle};
use optix::flags::InstanceFlags;
use optix::instance::{identity_transform, Instance};
use optix::instance_array::{BuildInputKind, DeviceView, InstanceArray, InstancePointerArray};

#[test]
fn new_instance_has_documented_defaults() {
    let accel = Accel::from_handle(TraversableHandle { value: 0xDEAD_BEEF });
    let i = Instance::new(&accel);
    assert_eq!(i.instance_id, 0);
    assert_eq!(i.sbt_offset, 0);
    assert_eq!(i.visibility_mask, 255);
    assert_eq!(i.flags, InstanceFlags::none());
    assert_eq!(i.traversable_handle.value, 0xDEAD_BEEF);
    assert_eq!(i.transform, identity_transform());
    assert_eq!(i.pad, [0, 0]);
}

#[test]
fn identity_transform_is_row_major_ones_on_the_diagonal() {
    let t = identity_transform();
    let one = 1.0f32.to_bits();
    assert_eq!(t, [one, 0, 0, 0, 0, one, 0, 0, 0, 0, one, 0]);
}

#[test]
fn later_setter_overrides_earlier_one() {
    let accel = Accel::from_handle(TraversableHandle { value: 1 });
    let i = Instance::new(&accel).instance_id(5).instance_id(9);
    assert_eq!(i.instance_id, 9);
    let i = i.sbt_offset(3).sbt_offset(11);
    assert_eq!(i.sbt_offset, 11);
    let i = i.flags(InstanceFlags::disable_anyhit()).flags(InstanceFlags::enforce_anyhit());
    assert_eq!(i.flags, InstanceFlags::enforce_anyhit());
}

#[test]
fn visibility_mask_widens_with_zero_upper_bits() {
    let accel = Accel::from_handle(TraversableHandle { value: 1 });
    let i = Instance::new(&accel).visibility_mask(200);
    assert_eq!(i.visibility_mask, 200);
    assert_eq!(i.visibility_mask & 0xFFFF_FF00, 0);
}

#[test]
fn configuration_keeps_reserved_padding_zero() {
    let accel = Accel::from_handle(TraversableHandle { value: 42 });
    let i = Instance::new(&accel)
        .transform([7; 12])
        .instance_id(1)
        .sbt_offset(2)
        .visibility_mask(3)
        .flags(InstanceFlags::disable_transform());
    assert_eq!(i.pad, [0, 0]);
}

#[test]
fn named_flags_match_the_driver_enumeration() {
    assert_eq!(InstanceFlags::none().bits, 0);
    assert_eq!(InstanceFlags::disable_triangle_face_culling().bits, 0x1);
    assert_eq!(InstanceFlags::flip_triangle_facing().bits, 0x2);
    assert_eq!(InstanceFlags::disable_anyhit().bits, 0x4);
    assert_eq!(InstanceFlags::enforce_anyhit().bits, 0x8);
    assert_eq!(InstanceFlags::disable_transform().bits, 0x40);
}

#[test]
fn flag_union_stores_both_bits_and_membership_recovers_them() {
    let both = InstanceFlags::disable_anyhit().union(InstanceFlags::enforce_anyhit());
    assert_eq!(both.bits, 0xC);
    assert!(both.contains(InstanceFlags::disable_anyhit()));
    assert!(both.contains(InstanceFlags::enforce_anyhit()));
    assert!(!both.contains(InstanceFlags::disable_transform()));
}

#[test]
fn flag_intersection_keeps_common_bits_only() {
    let a = InstanceFlags::disable_anyhit().union(InstanceFlags::flip_triangle_facing());
    let b = InstanceFlags::disable_anyhit().union(InstanceFlags::disable_transform());
    assert_eq!(a.intersection(b), InstanceFlags::disable_anyhit());
    assert_eq!(
        InstanceFlags::none().intersection(a),
        InstanceFlags::none()
    );
}

#[test]
fn instance_array_descriptor_carries_pointer_and_count() {
    let view = DeviceView::<Instance>::from_raw_parts(0x1000, 3);
    let array = InstanceArray::new(view);
    let d = array.to_sys();
    assert_eq!(d.kind, BuildInputKind::Instances);
    assert_eq!(d.instances, 0x1000);
    assert_eq!(d.num_instances, 3);
}

#[test]
fn empty_instance_array_yields_zero_count() {
    let view = DeviceView::<Instance>::from_raw_parts(0x2000, 0);
    let array = InstanceArray::new(view);
    let d = array.to_sys();
    assert_eq!(d.num_instances, 0);
    let l = array.to_sys_legacy();
    assert_eq!(l.num_instances, 0);
}

#[test]
fn legacy_descriptor_zeroes_reserved_bounding_box_fields() {
    let view = DeviceView::<Instance>::from_raw_parts(0x3000, 7);
    let l = InstanceArray::new(view).to_sys_legacy();
    assert_eq!(l.kind, BuildInputKind::Instances);
    assert_eq!(l.instances, 0x3000);
    assert_eq!(l.num_instances, 7);
    assert_eq!(l.aabbs, 0);
    assert_eq!(l.num_aabbs, 0);
}

#[test]
fn pointer_array_tag_differs_from_instance_array_tag() {
    let iv = DeviceView::<Instance>::from_raw_parts(0x4000, 5);
    let pv = DeviceView::<u64>::from_raw_parts(0x4000, 5);
    let di = InstanceArray::new(iv).to_sys();
    let dp = InstancePointerArray::new(pv).to_sys();
    assert_eq!(dp.kind, BuildInputKind::InstancePointers);
    assert_ne!(di.kind, dp.kind);
    assert_eq!(di.instances, dp.instances);
    assert_eq!(di.num_instances, dp.num_instances);
}

#[test]
fn oversized_count_truncates_to_storage_width() {
    let view = DeviceView::<u64>::from_raw_parts(0x5000, 0x1_0000_0001);
    let d = InstancePointerArray::new(view).to_sys();
    assert_eq!(d.num_instances, 1);
}
