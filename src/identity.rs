//! The device's persistent UUID, derived from its hardware device ID.
use vstd::prelude::*;

use hmac::Mac;

verus! {

/// The HMAC-SHA256 tag of `msg` under `key`.
pub uninterp spec fn hmac_sha256(key: Seq<u8>, msg: Seq<u8>) -> Seq<u8>;

/// The message whose tag under the device ID gives the UUID: "deviceid".
pub open spec fn uuid_label() -> Seq<u8> {
    seq![0x64u8, 0x65, 0x76, 0x69, 0x63, 0x65, 0x69, 0x64]
}

/// The bytes of the random (version 4, RFC 4122 variant) UUID made from
/// `b`: the version nibble of byte 6 set to 4, the top two bits of byte 8
/// set to `10`.
pub open spec fn random_uuid_bytes(b: Seq<u8>) -> Seq<u8> {
    b.update(6, (b[6] & 0x0f) | 0x40).update(8, (b[8] & 0x3f) | 0x80)
}

/// Relies on `hmac::Hmac<sha2::Sha256>`: `new_from_slice` accepts a key of
/// any length, and `finalize` gives the 32 byte HMAC-SHA256 tag of the
/// bytes passed to `update`, which depends on key and message alone.
#[verifier::external_body]
fn hmac_sha256_tag(key: &[u8], msg: &[u8]) -> (r: [u8; 32])
    ensures
        r@ == hmac_sha256(key@, msg@),
{
    let mut mac = hmac::Hmac::<sha2::Sha256>::new_from_slice(key).unwrap();
    mac.update(msg);
    mac.finalize().into_bytes().into()
}

/// Relies on `uuid::Builder::from_random_bytes`: it keeps the bytes but
/// for the version (byte 6) and variant (byte 8) bits of a random UUID.
#[verifier::external_body]
fn random_uuid(b: [u8; 16]) -> (r: [u8; 16])
    ensures
        r@ == random_uuid_bytes(b@),
{
    uuid::Builder::from_random_bytes(b).into_uuid().into_bytes()
}

/// The UUID made from the tag of "deviceid" under the device ID: its
/// first sixteen bytes, marked as a random UUID.
pub fn uuid_from_tag(tag: &[u8; 32]) -> (r: [u8; 16])
    ensures
        r@ == random_uuid_bytes(tag@.subrange(0, 16)),
{
    let mut b = [0u8; 16];
    let mut i: usize = 0;
    while i < 16
        invariant
            i <= 16,
            forall|j: int| 0 <= j < i ==> b@[j] == tag@[j],
        decreases 16 - i,
    {
        b[i] = tag[i];
        i = i + 1;
    }
    assert(b@ =~= tag@.subrange(0, 16));
    random_uuid(b)
}

/// The persistent UUID of the device with hardware ID `device_id`.
pub fn device_uuid(device_id: &[u8]) -> (r: [u8; 16])
    ensures
        r@ == random_uuid_bytes(hmac_sha256(device_id@, uuid_label()).subrange(0, 16)),
{
    let label: [u8; 8] = [0x64, 0x65, 0x76, 0x69, 0x63, 0x65, 0x69, 0x64];
    assert(label@ =~= uuid_label());
    let tag = hmac_sha256_tag(device_id, label.as_slice());
    uuid_from_tag(&tag)
}

} // verus!
