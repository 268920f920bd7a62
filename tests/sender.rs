use mctp_usb_bridge::{BridgeError, Sender};

fn framed(pkt: &[u8]) -> Vec<u8> {
    let mut v = vec![0x1a, 0xb4, 0x00, (pkt.len() + 4) as u8];
    v.extend_from_slice(pkt);
    v
}

#[test]
fn feed_appends_header_and_packet() {
    let mut s = Sender::new();
    assert!(s.is_empty());
    assert_eq!(s.feed(&[1, 2, 3]), Ok(()));
    assert_eq!(s.len(), 7);
    assert_eq!(s.transfer().unwrap(), &[0x1a, 0xb4, 0x00, 0x07, 1, 2, 3][..]);
}

#[test]
fn feed_empty_packet_queues_header_only() {
    let mut s = Sender::new();
    assert_eq!(s.feed(&[]), Ok(()));
    assert_eq!(s.transfer().unwrap(), &[0x1a, 0xb4, 0x00, 0x04][..]);
}

#[test]
fn packed_transfer_is_concatenation_in_order() {
    let a: Vec<u8> = (0..10).collect();
    let b: Vec<u8> = (100..200).collect();
    let c: Vec<u8> = vec![0xee; 251];
    let mut s = Sender::new();
    assert_eq!(s.feed(&a), Ok(()));
    assert_eq!(s.feed(&b), Ok(()));
    assert_eq!(s.feed(&c), Ok(()));
    let mut expected = framed(&a);
    expected.extend(framed(&b));
    expected.extend(framed(&c));
    assert_eq!(s.transfer().unwrap(), &expected[..]);
    assert_eq!(s.complete_flush(true), Ok(()));
    assert!(s.is_empty());
}

#[test]
fn overflow_leaves_buffer_unchanged() {
    let mut s = Sender::new();
    assert_eq!(s.feed(&[7u8; 250]), Ok(()));
    assert_eq!(s.feed(&[8u8; 250]), Ok(()));
    let before = s.transfer().unwrap().to_vec();
    assert_eq!(before.len(), 508);
    assert_eq!(s.feed(&[9u8; 1]), Err(BridgeError::NoSpace));
    assert_eq!(s.transfer().unwrap(), &before[..]);
}

#[test]
fn packet_fills_transfer_exactly() {
    let mut s = Sender::new();
    assert_eq!(s.feed(&[1u8; 251]), Ok(()));
    assert_eq!(s.feed(&[2u8; 249]), Ok(()));
    assert_eq!(s.len(), 508);
    assert_eq!(s.feed(&[]), Ok(()));
    assert_eq!(s.len(), 512);
    assert_eq!(s.feed(&[]), Err(BridgeError::NoSpace));
    assert_eq!(s.len(), 512);
}

#[test]
fn packet_too_long_for_header_is_bad_argument() {
    let mut s = Sender::new();
    assert_eq!(s.feed(&[0u8; 252]), Err(BridgeError::BadArgument));
    assert!(s.is_empty());
    assert_eq!(s.feed(&[0u8; 509]), Err(BridgeError::NoSpace));
    assert!(s.is_empty());
}

#[test]
fn flush_clears_after_success() {
    let mut s = Sender::new();
    s.feed(&[1, 2]).unwrap();
    assert_eq!(s.complete_flush(true), Ok(()));
    assert_eq!(s.len(), 0);
}

#[test]
fn flush_clears_after_transport_failure() {
    let mut s = Sender::new();
    s.feed(&[1, 2]).unwrap();
    assert_eq!(s.transfer().unwrap().len(), 6);
    assert_eq!(s.complete_flush(false), Err(BridgeError::TxFailure));
    assert_eq!(s.len(), 0);
    assert_eq!(s.transfer(), Err(BridgeError::BadArgument));
}

#[test]
fn empty_flush_is_bad_argument() {
    let s = Sender::new();
    assert_eq!(s.transfer(), Err(BridgeError::BadArgument));
}

#[test]
fn packing_scenario_capacity_steps() {
    let mut s = Sender::new();
    assert_eq!(s.feed(&[1u8; 100]), Ok(()));
    assert_eq!(s.len(), 104);
    // 104 + 404 fits in the transfer, but 400 bytes exceed what the
    // header's length byte can describe.
    assert_eq!(s.feed(&[2u8; 400]), Err(BridgeError::BadArgument));
    assert_eq!(s.len(), 104);
    assert_eq!(s.feed(&[3u8; 251]), Ok(()));
    assert_eq!(s.len(), 359);
    assert_eq!(s.feed(&[4u8; 145]), Ok(()));
    assert_eq!(s.len(), 508);
    assert_eq!(s.feed(&[5u8; 8]), Err(BridgeError::NoSpace));
    assert_eq!(s.len(), 508);
    assert_eq!(s.transfer().unwrap().len(), 508);
    assert_eq!(s.complete_flush(true), Ok(()));
    assert_eq!(s.len(), 0);
}

#[test]
fn sender_reusable_after_flush() {
    let mut s = Sender::new();
    s.feed(&[1]).unwrap();
    s.complete_flush(false).unwrap_err();
    s.feed(&[2, 3]).unwrap();
    assert_eq!(s.transfer().unwrap(), &framed(&[2, 3])[..]);
}
