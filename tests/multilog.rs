use mctp_usb_bridge::multilog::is_truncated;
use mctp_usb_bridge::multilog::needs_zero_length_packet;
use mctp_usb_bridge::init;
use mctp_usb_bridge::multilog::{Enqueue, LostLine, Severity};

const NOTHING: Enqueue = Enqueue { notice: false, line: false };
const LINE: Enqueue = Enqueue { notice: false, line: true };

#[test]
fn starts_with_nothing_lost() {
    assert_eq!(init().lost(), LostLine::No);
}

#[test]
fn debug_and_trace_not_forwarded() {
    let mut log = init();
    assert_eq!(log.plan(Severity::Debug, 10), NOTHING);
    assert_eq!(log.plan(Severity::Trace, 0), NOTHING);
    assert_eq!(log.lost(), LostLine::No);
}

#[test]
fn line_queued_while_room() {
    let mut log = init();
    assert_eq!(log.plan(Severity::Info, 3), LINE);
    assert_eq!(log.plan(Severity::Error, 1), LINE);
    assert_eq!(log.lost(), LostLine::No);
}

#[test]
fn one_notice_per_run_of_lost_lines() {
    let mut log = init();
    assert_eq!(log.plan(Severity::Warn, 0), NOTHING);
    assert_eq!(log.lost(), LostLine::Lost);
    assert_eq!(log.plan(Severity::Warn, 0), NOTHING);
    assert_eq!(log.lost(), LostLine::Lost);
    // Room for the notice only.
    assert_eq!(log.plan(Severity::Info, 1), Enqueue { notice: true, line: false });
    assert_eq!(log.lost(), LostLine::Warned);
    // Still full: no second notice.
    assert_eq!(log.plan(Severity::Info, 0), NOTHING);
    assert_eq!(log.lost(), LostLine::Warned);
    assert_eq!(log.plan(Severity::Info, 4), LINE);
    assert_eq!(log.lost(), LostLine::No);
}

#[test]
fn notice_and_line_together() {
    let mut log = init();
    log.plan(Severity::Error, 0);
    assert_eq!(log.plan(Severity::Error, 2), Enqueue { notice: true, line: true });
    assert_eq!(log.lost(), LostLine::No);
}

#[test]
fn zero_length_packet_after_full_packet() {
    assert!(needs_zero_length_packet(0));
    assert!(needs_zero_length_packet(64));
    assert!(needs_zero_length_packet(128));
    assert!(!needs_zero_length_packet(63));
    assert!(!needs_zero_length_packet(65));
}

#[test]
fn truncated_lines_lack_carriage_return() {
    assert!(!is_truncated(b"0000000012 INFO  hello \r"));
    assert!(is_truncated(b"0000000012 INFO  hel"));
    assert!(is_truncated(b""));
    assert!(is_truncated(b"\r\n"));
}
