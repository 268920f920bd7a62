//! The routing table: every packet leaves through the USB port.
use vstd::prelude::*;

verus! {

/// The router's index of the USB port.
pub const USB_PORT: u8 = 0;

/// MTU of the USB port: the longest packet a framing header can describe.
pub const USB_MTU: usize = 251;

/// The port through which to send a packet that arrived on
/// `source_port`, or was sent from this device when that is `None`.
///
/// Packets that came in over USB are never sent back out of it, which
/// would make a routing loop; they are dropped.
pub fn by_eid(source_port: Option<u8>) -> (r: Option<u8>)
    ensures
        source_port == Some(USB_PORT) ==> r is None,
        source_port != Some(USB_PORT) ==> r == Some(USB_PORT),
{
    match source_port {
        Some(p) if p == USB_PORT => None,
        _ => Some(USB_PORT),
    }
}

} // verus!
