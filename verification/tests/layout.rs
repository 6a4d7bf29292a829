use optix::accel::{Accel, TraversableHandle};
use optix::flags::InstanceFlags;
use optix::instance::Instance;

#[test]
fn driver_bytes_place_every_field_at_its_offset() {
    let accel = Accel::from_handle(TraversableHandle {
        value: 0x1122_3344_5566_7788,
    });
    let i = Instance::new(&accel)
        .instance_id(0x0A0B_0C0D)
        .sbt_offset(0x0102_0304)
        .visibility_mask(200)
        .flags(InstanceFlags::disable_anyhit().union(InstanceFlags::enforce_anyhit()));
    let b = i.to_driver_bytes();
    assert_eq!(b.len(), 80);
    let one = 1.0f32.to_bits().to_le_bytes();
    assert_eq!(&b[0..4], &one[..]);
    assert_eq!(&b[4..8], &[0, 0, 0, 0]);
    assert_eq!(&b[20..24], &one[..]);
    assert_eq!(&b[40..44], &one[..]);
    assert_eq!(&b[48..52], &0x0A0B_0C0Du32.to_le_bytes()[..]);
    assert_eq!(&b[52..56], &0x0102_0304u32.to_le_bytes()[..]);
    assert_eq!(&b[56..60], &200u32.to_le_bytes()[..]);
    assert_eq!(&b[60..64], &0xCu32.to_le_bytes()[..]);
    assert_eq!(&b[64..72], &0x1122_3344_5566_7788u64.to_le_bytes()[..]);
    assert_eq!(&b[72..80], &[0u8; 8][..]);
}

#[test]
fn driver_bytes_match_an_expected_record_exactly() {
    let accel = Accel::from_handle(TraversableHandle { value: 0x0100_0000_0000_00FF });
    let words: [u32; 12] = [
        0x0403_0201, 0x0807_0605, 0x0C0B_0A09, 0x100F_0E0D, 0x1413_1211, 0x1817_1615,
        0x1C1B_1A19, 0x201F_1E1D, 0x2423_2221, 0x2827_2625, 0x2C2B_2A29, 0x302F_2E2D,
    ];
    let i = Instance::new(&accel)
        .transform(words)
        .instance_id(7)
        .sbt_offset(8)
        .visibility_mask(9)
        .flags(InstanceFlags::flip_triangle_facing());
    let b = i.to_driver_bytes();
    let mut expected: Vec<u8> = Vec::new();
    for w in words {
        expected.extend_from_slice(&w.to_le_bytes());
    }
    expected.extend_from_slice(&7u32.to_le_bytes());
    expected.extend_from_slice(&8u32.to_le_bytes());
    expected.extend_from_slice(&9u32.to_le_bytes());
    expected.extend_from_slice(&2u32.to_le_bytes());
    expected.extend_from_slice(&0x0100_0000_0000_00FFu64.to_le_bytes());
    expected.extend_from_slice(&[0u8; 8]);
    assert_eq!(b, expected);
}
