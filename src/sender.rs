//! The outbound packer: frames packets into one USB bulk transfer.
use vstd::prelude::*;

use crate::buffer::{
    buffer_as_slice, buffer_bytes, buffer_clear, buffer_extend, buffer_len, buffer_new,
};
use crate::codec::{frame, header, packed, HEADER_LEN, MAX_PAYLOAD, MCTP_USB_MAX_PACKET};
use crate::error::BridgeError;
use crate::port::{
    consume_outbound, lemma_prefix_after, lemma_prefix_trans, outbound_queue, peek_outbound,
};
use mctp_estack::router::PortBottom;

verus! {

/// Whether a packet of `pkt_len` bytes, with its header, fits behind
/// `queued_len` bytes already queued in one transfer.
pub open spec fn fits(queued_len: nat, pkt_len: nat) -> bool {
    queued_len + HEADER_LEN + pkt_len <= MCTP_USB_MAX_PACKET
}

/// What feeding `pkt` to a transfer that holds `queued` does: the new
/// contents of the transfer, or the error.
pub open spec fn feed_outcome(queued: Seq<u8>, pkt: Seq<u8>) -> Result<Seq<u8>, BridgeError> {
    if !fits(queued.len(), pkt.len()) {
        Err(BridgeError::NoSpace)
    } else if pkt.len() > MAX_PAYLOAD {
        Err(BridgeError::BadArgument)
    } else {
        Ok(queued + frame(pkt))
    }
}

/// Feeding `pkts` one after the other, in order, to a transfer that holds
/// `queued`: the final contents, or the first error.
pub open spec fn feed_all(queued: Seq<u8>, pkts: Seq<Seq<u8>>) -> Result<Seq<u8>, BridgeError>
    decreases pkts.len(),
{
    if pkts.len() == 0 {
        Ok(queued)
    } else {
        match feed_all(queued, pkts.drop_last()) {
            Ok(q) => feed_outcome(q, pkts.last()),
            Err(e) => Err(e),
        }
    }
}

/// Packets whose framed forms together fit in one transfer are all
/// accepted when fed in order to an empty sender, and the transfer then
/// holds exactly their framed forms, concatenated in the order fed.
pub proof fn lemma_packing_capacity(pkts: Seq<Seq<u8>>)
    requires
        forall|i: int| 0 <= i < pkts.len() ==> (#[trigger] pkts[i]).len() <= MAX_PAYLOAD,
        packed(pkts).len() <= MCTP_USB_MAX_PACKET,
    ensures
        feed_all(Seq::<u8>::empty(), pkts) == Ok::<Seq<u8>, BridgeError>(packed(pkts)),
    decreases pkts.len(),
{
    if pkts.len() > 0 {
        let init = pkts.drop_last();
        assert forall|i: int| 0 <= i < init.len() implies (#[trigger] init[i]).len()
            <= MAX_PAYLOAD by {
            assert(init[i] == pkts[i]);
        }
        assert(pkts.last() == pkts[pkts.len() - 1]);
        lemma_packing_capacity(init);
    }
}

/// A packet whose framed form does not fit in what is left of the
/// transfer is refused with `NoSpace`, and the queued bytes stay as they
/// were.
pub proof fn lemma_overflow_rejected(queued: Seq<u8>, pkt: Seq<u8>)
    requires
        queued.len() + HEADER_LEN + pkt.len() > MCTP_USB_MAX_PACKET,
    ensures
        feed_outcome(queued, pkt) == Err::<Seq<u8>, BridgeError>(BridgeError::NoSpace),
{
}

/// The send side of the bridge.
///
/// It holds the transfer being assembled: the framed packets fed since
/// the last flush, back to back.
pub struct Sender {
    buf: heapless::Vec<u8, 512>,
}

impl View for Sender {
    type V = Seq<u8>;

    closed spec fn view(&self) -> Seq<u8> {
        buffer_bytes(self.buf)
    }
}

impl Sender {
    /// A sender with nothing queued.
    pub fn new() -> (r: Sender)
        ensures
            r@ == Seq::<u8>::empty(),
    {
        Sender { buf: buffer_new() }
    }

    /// The number of bytes queued for the next transfer.
    pub fn len(&self) -> (r: usize)
        ensures
            r == self@.len(),
            r <= MCTP_USB_MAX_PACKET,
    {
        buffer_len(&self.buf)
    }

    /// Whether nothing is queued.
    pub fn is_empty(&self) -> (r: bool)
        ensures
            r == (self@.len() == 0),
    {
        buffer_len(&self.buf) == 0
    }

    /// Appends `pkt`, behind its header, to the transfer being assembled.
    ///
    /// Nothing is sent until [`Sender::transfer`] hands the transfer out.
    /// Fails with [`BridgeError::NoSpace`] when the framed packet does not
    /// fit in what is left of the transfer, and with
    /// [`BridgeError::BadArgument`] when the packet is too long for the
    /// header; either way the queued bytes are left as they were.
    pub fn feed(&mut self, pkt: &[u8]) -> (r: Result<(), BridgeError>)
        ensures
            feed_outcome(old(self)@, pkt@) is Ok ==> r is Ok
                && final(self)@ == feed_outcome(old(self)@, pkt@)->Ok_0,
            feed_outcome(old(self)@, pkt@) is Err ==> r == Err::<(), BridgeError>(
                feed_outcome(old(self)@, pkt@)->Err_0,
            ) && final(self)@ == old(self)@,
    {
        let used = buffer_len(&self.buf);
        let avail = MCTP_USB_MAX_PACKET - used;
        if pkt.len() > avail || avail - pkt.len() < HEADER_LEN {
            return Err(BridgeError::NoSpace);
        }
        let hdr = match header(pkt.len()) {
            Ok(h) => h,
            Err(e) => return Err(e),
        };
        let _ = buffer_extend(&mut self.buf, hdr.as_slice());
        let _ = buffer_extend(&mut self.buf, pkt);
        assert(self@ =~= old(self)@ + frame(pkt@));
        Ok(())
    }

    /// Adds to the transfer the packets queued on `port`, in queue order,
    /// as long as they fit, without waiting for more.
    ///
    /// Each packet taken into the transfer is taken off the queue. It
    /// stops when the queue is empty or at the first packet that `feed`
    /// refuses, because it does not fit or is too long for the header;
    /// that packet is left at the head of the queue for the next transfer.
    /// Returns how many packets were added: the transfer then holds what
    /// it held before, followed by their framed forms.
    pub fn drain(&mut self, port: &mut PortBottom<'_>) -> (n: usize)
        ensures
            exists|pkts: Seq<Seq<u8>>|
                pkts.len() == n && (forall|i: int|
                    0 <= i < pkts.len() ==> (#[trigger] pkts[i]).len() <= MAX_PAYLOAD)
                    && final(self)@ == old(self)@ + #[trigger] packed(pkts) && outbound_queue(
                    *old(port),
                ).is_prefix_of(pkts + outbound_queue(*final(port))),
            outbound_queue(*final(port)).len() == 0 || feed_outcome(
                final(self)@,
                outbound_queue(*final(port))[0],
            ) is Err,
    {
        let ghost mut pkts: Seq<Seq<u8>> = Seq::empty();
        let mut n: usize = 0;
        // What is queued never exceeds the transfer's capacity.
        let _queued = self.len();
        assert(self@ =~= old(self)@ + packed(pkts));
        assert(pkts + outbound_queue(*port) =~= outbound_queue(*port));
        assert(outbound_queue(*port).is_prefix_of(outbound_queue(*port)));
        loop
            invariant
                pkts.len() == n,
                n <= self@.len(),
                forall|i: int| 0 <= i < pkts.len() ==> (#[trigger] pkts[i]).len() <= MAX_PAYLOAD,
                self@ == old(self)@ + packed(pkts),
                self@.len() <= MCTP_USB_MAX_PACKET,
                outbound_queue(*old(port)).is_prefix_of(pkts + outbound_queue(*port)),
            ensures
                outbound_queue(*port).len() == 0 || feed_outcome(
                    self@,
                    outbound_queue(*port)[0],
                ) is Err,
            decreases MCTP_USB_MAX_PACKET - self@.len(),
        {
            let ghost queued = outbound_queue(*port);
            let pkt = match peek_outbound(port) {
                Some(p) => p,
                None => {
                    proof {
                        lemma_prefix_after(pkts, queued, outbound_queue(*port));
                        lemma_prefix_trans(
                            outbound_queue(*old(port)),
                            pkts + queued,
                            pkts + outbound_queue(*port),
                        );
                    }
                    break;
                },
            };
            let ghost head = pkt@;
            let fed = self.feed(pkt);
            proof {
                lemma_prefix_after(pkts, queued, outbound_queue(*port));
                lemma_prefix_trans(
                    outbound_queue(*old(port)),
                    pkts + queued,
                    pkts + outbound_queue(*port),
                );
            }
            if fed.is_err() {
                break;
            }
            let ghost peeked = outbound_queue(*port);
            consume_outbound(port);
            proof {
                let next = pkts.push(head);
                assert(next.drop_last() =~= pkts);
                assert forall|i: int| 0 <= i < next.len() implies (#[trigger] next[i]).len()
                    <= MAX_PAYLOAD by {
                    if i < pkts.len() {
                        assert(next[i] == pkts[i]);
                    }
                }
                assert(self@ =~= old(self)@ + packed(next));
                assert(pkts + peeked =~= next + peeked.drop_first());
                lemma_prefix_after(next, peeked.drop_first(), outbound_queue(*port));
                lemma_prefix_trans(
                    outbound_queue(*old(port)),
                    next + peeked.drop_first(),
                    next + outbound_queue(*port),
                );
                pkts = next;
            }
            n = n + 1;
        }
        n
    }

    /// The transfer that a flush sends: every byte queued since the last
    /// flush.
    ///
    /// Fails with [`BridgeError::BadArgument`] when nothing is queued, so
    /// that no empty transfer reaches the transport.
    pub fn transfer(&self) -> (r: Result<&[u8], BridgeError>)
        ensures
            self@.len() == 0 ==> r == Err::<&[u8], BridgeError>(BridgeError::BadArgument),
            self@.len() > 0 ==> r is Ok && r->Ok_0@ == self@,
    {
        if buffer_len(&self.buf) == 0 {
            return Err(BridgeError::BadArgument);
        }
        Ok(buffer_as_slice(&self.buf))
    }

    /// Ends a flush once the transport has taken the transfer: the queued
    /// bytes are dropped whatever the outcome, since this layer does not
    /// retransmit.
    ///
    /// Fails with [`BridgeError::TxFailure`] when the transport reported
    /// that the write failed.
    pub fn complete_flush(&mut self, written: bool) -> (r: Result<(), BridgeError>)
        ensures
            final(self)@ == Seq::<u8>::empty(),
            written ==> r is Ok,
            !written ==> r == Err::<(), BridgeError>(BridgeError::TxFailure),
    {
        buffer_clear(&mut self.buf);
        if written {
            Ok(())
        } else {
            Err(BridgeError::TxFailure)
        }
    }
}

} // verus!
