//! The inbound unpacker: hands out the framed packets of a received USB
//! bulk transfer one at a time.
use vstd::prelude::*;
use vstd::slice::slice_subrange;

use crate::codec::{decode, frame_body, frame_rest, is_framed, MCTP_USB_MAX_PACKET};
use crate::error::BridgeError;

verus! {

/// The receive side of the bridge.
///
/// It keeps the last transfer received in a buffer of fixed capacity,
/// and a cursor `[start, end)` over the bytes of it not yet decoded.
pub struct Receiver {
    buf: [u8; 512],
    start: usize,
    end: usize,
}

impl Receiver {
    /// The buffer has its fixed capacity and the cursor lies within it.
    pub closed spec fn wf(&self) -> bool {
        &&& self.buf.len() == MCTP_USB_MAX_PACKET
        &&& self.start <= self.end <= self.buf.len()
    }

    /// The received bytes not yet decoded.
    pub closed spec fn pending(&self) -> Seq<u8> {
        self.buf@.subrange(self.start as int, self.end as int)
    }

    /// The whole receive buffer, received or not.
    pub closed spec fn contents(&self) -> Seq<u8> {
        self.buf@
    }

    /// A receiver with nothing pending.
    pub fn new() -> (r: Receiver)
        ensures
            r.wf(),
            r.pending() == Seq::<u8>::empty(),
    {
        Receiver { buf: [0u8; 512], start: 0, end: 0 }
    }

    /// The number of received bytes not yet decoded.
    pub fn pending_len(&self) -> (r: usize)
        requires
            self.wf(),
        ensures
            r == self.pending().len(),
    {
        self.end - self.start
    }

    /// Whether every received byte has been decoded, so that the next
    /// step is a read from the transport.
    pub fn needs_refill(&self) -> (r: bool)
        requires
            self.wf(),
        ensures
            r == (self.pending().len() == 0),
    {
        self.start == self.end
    }

    /// Takes in a transfer just read from the transport: its bytes become
    /// the pending bytes.
    pub fn refill(&mut self, xfer: &[u8])
        requires
            old(self).wf(),
            xfer@.len() <= MCTP_USB_MAX_PACKET,
        ensures
            final(self).wf(),
            final(self).pending() == xfer@,
    {
        let n = xfer.len();
        let mut i: usize = 0;
        while i < n
            invariant
                n == xfer@.len(),
                n <= MCTP_USB_MAX_PACKET,
                i <= n,
                self.buf.len() == MCTP_USB_MAX_PACKET,
                forall|j: int| 0 <= j < i ==> self.buf@[j] == xfer@[j],
            decreases n - i,
        {
            self.buf[i] = xfer[i];
            i = i + 1;
        }
        self.start = 0;
        self.end = n;
        assert(self.pending() =~= xfer@);
    }

    /// Hands out the receive buffer for the transport to read the next
    /// transfer into, in place. Whatever was pending is dropped; what the
    /// transport writes is taken in by [`Receiver::filled`].
    pub fn read_buffer(&mut self) -> (r: &mut [u8; 512])
        requires
            old(self).wf(),
        ensures
            final(self).wf(),
            final(self).pending() == Seq::<u8>::empty(),
            final(self).contents() == final(r)@,
    {
        self.start = 0;
        self.end = 0;
        &mut self.buf
    }

    /// Takes in the first `len` bytes of the buffer, which the transport
    /// has just read into: they become the pending bytes.
    pub fn filled(&mut self, len: usize)
        requires
            old(self).wf(),
            len <= MCTP_USB_MAX_PACKET,
        ensures
            final(self).wf(),
            final(self).contents() == old(self).contents(),
            final(self).pending() == old(self).contents().subrange(0, len as int),
    {
        self.start = 0;
        self.end = len;
    }

    /// Drops the pending bytes, so that nothing of an earlier connection
    /// is decoded on the next one.
    pub fn discard(&mut self)
        requires
            old(self).wf(),
        ensures
            final(self).wf(),
            final(self).contents() == old(self).contents(),
            final(self).pending() == Seq::<u8>::empty(),
    {
        self.start = self.end;
    }

    /// Decodes the next packet from the pending bytes.
    ///
    /// On success the cursor moves past the packet, so that the packets
    /// after it in the same transfer come out of later calls without
    /// another read. When the pending bytes do not start with a
    /// well-formed framed packet it fails with [`BridgeError::RxFailure`]
    /// and drops them: nothing in them can be framed reliably any more.
    pub fn receive(&mut self) -> (r: Result<&[u8], BridgeError>)
        requires
            old(self).wf(),
        ensures
            final(self).wf(),
            final(self).contents() == old(self).contents(),
            is_framed(old(self).pending()) ==> r is Ok
                && r->Ok_0@ == frame_body(old(self).pending())
                && final(self).pending() == frame_rest(old(self).pending()),
            !is_framed(old(self).pending()) ==> r == Err::<&[u8], BridgeError>(BridgeError::RxFailure)
                && final(self).pending() == Seq::<u8>::empty(),
    {
        let pending = slice_subrange(self.buf.as_slice(), self.start, self.end);
        match decode(pending) {
            Ok((pkt, rest)) => {
                self.start = self.end - rest.len();
                assert(self.pending() =~= frame_rest(old(self).pending()));
                Ok(pkt)
            },
            Err(e) => {
                self.start = self.end;
                Err(e)
            },
        }
    }

    /// Completes a receive call that had to read from the transport
    /// first, given what the read into [`Receiver::read_buffer`] returned:
    /// the number of bytes received, or a failure.
    ///
    /// A read is made only once every received byte has been decoded. A
    /// failed read is the sign that the link is down: the result is then
    /// `None`, once for that failure, and nothing is left pending, so the
    /// next call reads again. [`Receiver::receive`], which reads nothing,
    /// never reports the link down.
    /// Otherwise the bytes read are taken in and the first packet of them
    /// is decoded, as by [`Receiver::filled`] then [`Receiver::receive`].
    pub fn receive_after_read(&mut self, read: Result<usize, ()>) -> (r: Option<
        Result<&[u8], BridgeError>,
    >)
        requires
            old(self).wf(),
            old(self).pending().len() == 0,
            read is Ok ==> read->Ok_0 <= MCTP_USB_MAX_PACKET,
        ensures
            final(self).wf(),
            final(self).contents() == old(self).contents(),
            read is Err ==> r is None && final(self).pending() == Seq::<u8>::empty(),
            read is Ok ==> r is Some,
            read is Ok && is_framed(old(self).contents().subrange(0, read->Ok_0 as int)) ==> r is Some
                && r->Some_0 is Ok && r->Some_0->Ok_0@ == frame_body(
                old(self).contents().subrange(0, read->Ok_0 as int),
            ) && final(self).pending() == frame_rest(
                old(self).contents().subrange(0, read->Ok_0 as int),
            ),
            read is Ok && !is_framed(old(self).contents().subrange(0, read->Ok_0 as int)) ==> r
                == Some(Err::<&[u8], BridgeError>(BridgeError::RxFailure)) && final(self).pending()
                == Seq::<u8>::empty(),
    {
        match read {
            Err(()) => None,
            Ok(len) => {
                self.filled(len);
                Some(self.receive())
            },
        }
    }
}

} // verus!
