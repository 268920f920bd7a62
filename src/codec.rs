//! The MCTP-over-USB framing header, as produced and parsed by
//! `mctp_estack::usb::MctpUsbHandler`.
//!
//! A framed packet is a four byte header `1a b4 00 L` followed by the
//! packet, where `L` is the length of header and packet together.
use vstd::prelude::*;

use crate::error::BridgeError;

use mctp_estack::usb::MctpUsbHandler;

verus! {

/// Largest USB bulk transfer, and the capacity of each bridge buffer.
pub const MCTP_USB_MAX_PACKET: usize = 512;

/// Length of the framing header.
pub const HEADER_LEN: usize = 4;

/// Longest packet that the one-byte length field of the header can describe.
pub const MAX_PAYLOAD: usize = 251;

#[verifier::external_type_specification]
#[verifier::external_body]
pub struct ExMctpError(mctp::Error);

/// The header that announces a packet of `len` bytes.
pub open spec fn header_bytes(len: nat) -> Seq<u8> {
    seq![0x1au8, 0xb4u8, 0u8, (len + 4) as u8]
}

/// A packet behind its header.
pub open spec fn frame(pkt: Seq<u8>) -> Seq<u8> {
    header_bytes(pkt.len()) + pkt
}

/// Whether `x` starts with a header whose packet lies wholly within `x`.
pub open spec fn is_framed(x: Seq<u8>) -> bool {
    &&& x.len() >= 4
    &&& x[0] == 0x1a
    &&& x[1] == 0xb4
    &&& x[3] >= 4
    &&& x[3] as int <= x.len()
}

/// The packet of a framed byte range.
pub open spec fn frame_body(x: Seq<u8>) -> Seq<u8> {
    x.subrange(4, x[3] as int)
}

/// What follows the first framed packet of a byte range.
pub open spec fn frame_rest(x: Seq<u8>) -> Seq<u8> {
    x.subrange(x[3] as int, x.len() as int)
}

/// The framed forms of `pkts`, back to back, in order.
pub open spec fn packed(pkts: Seq<Seq<u8>>) -> Seq<u8>
    decreases pkts.len(),
{
    if pkts.len() == 0 {
        Seq::<u8>::empty()
    } else {
        packed(pkts.drop_last()) + frame(pkts.last())
    }
}

/// Splitting the first framed form off a concatenation of framed forms.
proof fn lemma_packed_first(pkts: Seq<Seq<u8>>)
    requires
        pkts.len() > 0,
    ensures
        packed(pkts) == frame(pkts[0]) + packed(pkts.drop_first()),
    decreases pkts.len(),
{
    if pkts.len() > 1 {
        let init = pkts.drop_last();
        lemma_packed_first(init);
        assert(init.drop_first() =~= pkts.drop_first().drop_last());
        assert(pkts.drop_first().last() == pkts.last());
        assert(packed(pkts) =~= frame(pkts[0]) + packed(pkts.drop_first()));
    } else {
        assert(pkts.drop_first() =~= Seq::<Seq<u8>>::empty());
        assert(pkts.drop_last() =~= Seq::<Seq<u8>>::empty());
        assert(packed(pkts) =~= frame(pkts[0]) + packed(pkts.drop_first()));
    }
}

/// Packets framed and concatenated in one transfer decode back one at a
/// time, in order: while packets `k..` remain, the remaining bytes are not
/// empty, start with a well-formed header, the next decode yields packet
/// `k` and leaves exactly the framed packets after it.
pub proof fn lemma_multi_packet_decode(pkts: Seq<Seq<u8>>, k: int)
    requires
        forall|i: int| 0 <= i < pkts.len() ==> (#[trigger] pkts[i]).len() <= MAX_PAYLOAD,
        0 <= k < pkts.len(),
    ensures
        packed(pkts.subrange(k, pkts.len() as int)).len() > 0,
        is_framed(packed(pkts.subrange(k, pkts.len() as int))),
        frame_body(packed(pkts.subrange(k, pkts.len() as int))) == pkts[k],
        frame_rest(packed(pkts.subrange(k, pkts.len() as int))) == packed(
            pkts.subrange(k + 1, pkts.len() as int),
        ),
        packed(pkts.subrange(pkts.len() as int, pkts.len() as int)) == Seq::<u8>::empty(),
{
    let tail = pkts.subrange(k, pkts.len() as int);
    lemma_packed_first(tail);
    assert(tail[0] == pkts[k]);
    assert(tail.drop_first() =~= pkts.subrange(k + 1, pkts.len() as int));
    lemma_round_trip(pkts[k], packed(tail.drop_first()));
    assert(pkts.subrange(pkts.len() as int, pkts.len() as int) =~= Seq::<Seq<u8>>::empty());
}

/// Relies on `MctpUsbHandler::header`: for a four byte buffer it writes
/// `1a b4 00 (len + 4)` and succeeds exactly when `len + 4` fits in a byte.
#[verifier::external_body]
fn usb_header(len: usize) -> (r: Result<[u8; 4], mctp::Error>)
    ensures
        r is Ok <==> len + 4 <= 255,
        r is Ok ==> r->Ok_0@ == header_bytes(len as nat),
{
    let mut hdr = [0u8; 4];
    MctpUsbHandler::header(len, &mut hdr).map(|()| hdr)
}

/// Relies on `MctpUsbHandler::decode`: it splits off the four byte header,
/// checks the signature bytes and the length byte, and returns the packet
/// and the bytes after it.
#[verifier::external_body]
fn usb_decode<'a>(xfer: &'a [u8]) -> (r: Result<(&'a [u8], &'a [u8]), mctp::Error>)
    ensures
        r is Ok <==> is_framed(xfer@),
        r is Ok ==> r->Ok_0.0@ == frame_body(xfer@) && r->Ok_0.1@ == frame_rest(xfer@),
{
    MctpUsbHandler::decode(xfer)
}

/// The header for a packet of `len` bytes.
///
/// Fails with [`BridgeError::BadArgument`] when the packet is too long for the
/// header's length byte.
pub fn header(len: usize) -> (r: Result<[u8; 4], BridgeError>)
    ensures
        r is Ok <==> len <= MAX_PAYLOAD,
        r is Ok ==> r->Ok_0@ == header_bytes(len as nat),
        r is Err ==> r->Err_0 == BridgeError::BadArgument,
{
    match usb_header(len) {
        Ok(h) => Ok(h),
        Err(_) => Err(BridgeError::BadArgument),
    }
}

/// Splits the first framed packet off `xfer`: returns the packet and the
/// bytes after it.
///
/// Fails with [`BridgeError::RxFailure`] when `xfer` does not start with a
/// well-formed header, or is shorter than the header announces.
pub fn decode<'a>(xfer: &'a [u8]) -> (r: Result<(&'a [u8], &'a [u8]), BridgeError>)
    ensures
        r is Ok <==> is_framed(xfer@),
        r is Ok ==> r->Ok_0.0@ == frame_body(xfer@) && r->Ok_0.1@ == frame_rest(xfer@),
        r is Err ==> r->Err_0 == BridgeError::RxFailure,
{
    match usb_decode(xfer) {
        Ok(parts) => Ok(parts),
        Err(_) => Err(BridgeError::RxFailure),
    }
}

/// Decoding a framed packet gives back the packet, and leaves exactly
/// the bytes that followed it, for every packet length the header can
/// describe.
pub proof fn lemma_round_trip(pkt: Seq<u8>, rest: Seq<u8>)
    requires
        pkt.len() <= MAX_PAYLOAD,
    ensures
        is_framed(frame(pkt) + rest),
        frame_body(frame(pkt) + rest) == pkt,
        frame_rest(frame(pkt) + rest) == rest,
{
    let x = frame(pkt) + rest;
    assert(x[3] as int == pkt.len() + 4);
    assert(frame_body(x) =~= pkt);
    assert(frame_rest(x) =~= rest);
}

} // verus!
