//! Packet bridge between an MCTP router port and a USB bulk transport.
//!
//! Variable-length MCTP packets travel over fixed-size USB bulk transfers,
//! each packet behind a four byte MCTP-over-USB header. The outbound
//! [`Sender`] packs as many framed packets as fit into one transfer; the
//! inbound [`Receiver`] keeps one received transfer and hands out the
//! packets in it one at a time. [`link`] holds the connection decisions
//! of the two tasks that drive them.
//!
//! Around the bridge stand the device's own protocol and housekeeping
//! logic: the vendor echo and bench protocols ([`bench`]), the routing
//! table ([`routes`]), the serial log backlog policy ([`multilog`]), the
//! device UUID ([`identity`]) and the placement of firmware segments by
//! the loader ([`loader`]).
pub mod bench;
mod buffer;
pub mod codec;
pub mod error;
pub mod identity;
pub mod link;
pub mod loader;
pub mod multilog;
pub mod port;
pub mod receiver;
pub mod routes;
pub mod sender;

pub use codec::{HEADER_LEN, MAX_PAYLOAD, MCTP_USB_MAX_PACKET};
pub use error::BridgeError;
pub use multilog::init;
pub use receiver::Receiver;
pub use sender::Sender;
