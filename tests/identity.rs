use hmac::Mac;
use mctp_usb_bridge::identity::{device_uuid, uuid_from_tag};
use mctp_usb_bridge::loader::{plan_segment, SegmentPlan, PT_LOAD};

#[test]
fn uuid_from_tag_sets_version_and_variant() {
    let tag: [u8; 32] = core::array::from_fn(|i| i as u8);
    let u = uuid_from_tag(&tag);
    assert_eq!(u, [0, 1, 2, 3, 4, 5, 0x46, 7, 0x88, 9, 10, 11, 12, 13, 14, 15]);
    let tag = [0xffu8; 32];
    let u = uuid_from_tag(&tag);
    assert_eq!(u[6], 0x4f);
    assert_eq!(u[8], 0xbf);
    assert_eq!(u[0], 0xff);
}

#[test]
fn device_uuid_is_hmac_of_label() {
    let devid = [0x12u8, 0x34, 0x56, 0x78, 0x9a, 0xbc, 0xde, 0xf0, 1, 2, 3, 4];
    let mut mac = hmac::Hmac::<sha2::Sha256>::new_from_slice(&devid).unwrap();
    mac.update(b"deviceid");
    let tag: [u8; 32] = mac.finalize().into_bytes().into();
    let u = device_uuid(&devid);
    assert_eq!(&u[..6], &tag[..6]);
    assert_eq!(u[6], (tag[6] & 0x0f) | 0x40);
    assert_eq!(u[7], tag[7]);
    assert_eq!(u[8], (tag[8] & 0x3f) | 0x80);
    assert_eq!(&u[9..], &tag[9..16]);
    assert_eq!(uuid::Uuid::from_bytes(u).get_version_num(), 4);
}

#[test]
fn device_uuid_is_stable_and_distinct() {
    let a = device_uuid(&[1u8; 12]);
    assert_eq!(a, device_uuid(&[1u8; 12]));
    assert_ne!(a, device_uuid(&[2u8; 12]));
}

#[test]
fn segment_plans() {
    assert_eq!(plan_segment(2, 0x2400_0000, 16, 0x100), SegmentPlan::Skip);
    assert_eq!(plan_segment(PT_LOAD, 0x2402_0000, 16, 0x100), SegmentPlan::Invalid);
    assert_eq!(plan_segment(PT_LOAD, 0x2402_0000, 0, 0x100), SegmentPlan::Empty);
    assert_eq!(
        plan_segment(PT_LOAD, 0x2400_0000, 16, 0x100),
        SegmentPlan::Load { offset: 0x100, addr: 0x2400_0000, size: 16 }
    );
    assert_eq!(
        plan_segment(PT_LOAD, 0, 0x400, 0x200),
        SegmentPlan::LoadAtZero { first: 0x200, offset: 0x201, size: 0x3ff }
    );
    assert_eq!(
        plan_segment(PT_LOAD, 0, 1, 0x200),
        SegmentPlan::LoadAtZero { first: 0x200, offset: 0x201, size: 0 }
    );
    assert_eq!(plan_segment(PT_LOAD, 0, 1, u32::MAX), SegmentPlan::Invalid);
}
