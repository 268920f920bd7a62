use mctp_usb_bridge::routes::{by_eid, USB_MTU, USB_PORT};
use mctp_usb_bridge::link::{
    flush_event, reception, recv_step, send_step, LinkState, Reception, RecvAction, RecvEvent,
    SendAction, SendEvent,
};
use mctp_usb_bridge::loader::valid_dest;
use mctp_usb_bridge::BridgeError;

#[test]
fn send_task_packs_once_enabled() {
    assert_eq!(
        send_step(LinkState::Disconnected, SendEvent::Enabled),
        (LinkState::Connected, SendAction::Pack)
    );
    assert_eq!(
        send_step(LinkState::Connected, SendEvent::Flushed),
        (LinkState::Connected, SendAction::Pack)
    );
}

#[test]
fn send_task_waits_after_flush_failure() {
    let ev = flush_event(&Err(BridgeError::TxFailure));
    assert_eq!(ev, SendEvent::FlushFailed);
    assert_eq!(
        send_step(LinkState::Connected, ev),
        (LinkState::Disconnected, SendAction::AwaitConnection)
    );
    assert_eq!(flush_event(&Ok(())), SendEvent::Flushed);
}

#[test]
fn send_task_keeps_link_when_nothing_queued() {
    let ev = flush_event(&Err(BridgeError::BadArgument));
    assert_eq!(ev, SendEvent::NothingQueued);
    assert_eq!(
        send_step(LinkState::Connected, ev),
        (LinkState::Connected, SendAction::Pack)
    );
}

#[test]
fn recv_task_transitions() {
    let ok: Option<Result<&[u8], BridgeError>> = Some(Ok(&[1u8][..]));
    let bad: Option<Result<&[u8], BridgeError>> = Some(Err(BridgeError::RxFailure));
    let down: Option<Result<&[u8], BridgeError>> = None;
    assert_eq!(reception(&ok), Reception::Packet);
    assert_eq!(reception(&bad), Reception::Malformed);
    assert_eq!(reception(&down), Reception::LinkDown);
    assert_eq!(
        recv_step(LinkState::Disconnected, RecvEvent::Enabled),
        (LinkState::Connected, RecvAction::Receive)
    );
    assert_eq!(
        recv_step(LinkState::Connected, RecvEvent::Received(Reception::Packet)),
        (LinkState::Connected, RecvAction::Deliver)
    );
    assert_eq!(
        recv_step(LinkState::Connected, RecvEvent::Received(Reception::Malformed)),
        (LinkState::Connected, RecvAction::Receive)
    );
    assert_eq!(
        recv_step(LinkState::Connected, RecvEvent::Received(Reception::LinkDown)),
        (LinkState::Disconnected, RecvAction::AwaitConnection)
    );
}

#[test]
fn load_destinations() {
    assert!(valid_dest(0x1234_5678, 0));
    assert!(valid_dest(0, 0x3_0000));
    assert!(!valid_dest(0, 0x3_0001));
    assert!(valid_dest(0x2400_0000, 0x100));
    assert!(valid_dest(0x2401_ff00, 0x100));
    assert!(!valid_dest(0x2401_ff00, 0x101));
    assert!(valid_dest(0x2000_0000, 0x3_0000));
    assert!(valid_dest(0x2404_0010, 0x10));
    // SRAM2 holds the loader.
    assert!(!valid_dest(0x2402_0000, 0x10));
    // Spans two regions.
    assert!(!valid_dest(0x2401_fff0, 0x4_0000));
    assert!(!valid_dest(0xffff_fff0, 0x20));
    assert!(!valid_dest(0xffff_ffff, 1));
}

#[test]
fn routes_everything_out_usb_but_not_back() {
    assert_eq!(by_eid(None), Some(USB_PORT));
    assert_eq!(by_eid(Some(3)), Some(USB_PORT));
    assert_eq!(by_eid(Some(USB_PORT)), None);
    assert_eq!(USB_MTU, mctp_usb_bridge::MAX_PAYLOAD);
}
