//! The consumer side of the router's outbound queue for the USB port,
//! `mctp_estack::router::PortBottom`.
//!
//! The bridge is the queue's only consumer; the router may append packets
//! at its tail at any time, from other tasks.
use vstd::prelude::*;

use mctp_estack::router::PortBottom;

verus! {

#[verifier::external_type_specification]
#[verifier::external_body]
pub struct ExPortBottom<'a>(PortBottom<'a>);

/// The packets queued on a port, head first.
pub uninterp spec fn outbound_queue(p: PortBottom<'_>) -> Seq<Seq<u8>>;

/// Relies on `PortBottom::try_outbound`: without waiting, the packet at
/// the head of the queue, left there, or `None` when the queue is empty.
/// It takes nothing off the queue; other tasks may only have appended to
/// it.
#[verifier::external_body]
pub(crate) fn peek_outbound<'b>(port: &'b mut PortBottom<'_>) -> (r: Option<&'b [u8]>)
    ensures
        outbound_queue(*old(port)).is_prefix_of(outbound_queue(*final(port))),
        r is None ==> outbound_queue(*final(port)).len() == 0,
        r is Some ==> outbound_queue(*final(port)).len() > 0 && r->Some_0@ == outbound_queue(
            *final(port),
        )[0],
{
    port.try_outbound().map(|(pkt, _dest)| pkt)
}

/// Relies on `PortBottom::outbound_done`: takes the packet at the head of
/// the queue off it. The queue must not be empty: the channel underneath
/// asserts that it is not.
#[verifier::external_body]
pub(crate) fn consume_outbound(port: &mut PortBottom<'_>)
    requires
        outbound_queue(*old(port)).len() > 0,
    ensures
        outbound_queue(*old(port)).drop_first().is_prefix_of(outbound_queue(*final(port))),
{
    port.outbound_done()
}

/// Putting the same bytes in front keeps one sequence a prefix of another.
pub proof fn lemma_prefix_after<T>(front: Seq<T>, a: Seq<T>, b: Seq<T>)
    requires
        a.is_prefix_of(b),
    ensures
        (front + a).is_prefix_of(front + b),
{
    assert((front + a) =~= (front + b).subrange(0, (front + a).len() as int));
}

/// Being a prefix is transitive.
pub proof fn lemma_prefix_trans<T>(a: Seq<T>, b: Seq<T>, c: Seq<T>)
    requires
        a.is_prefix_of(b),
        b.is_prefix_of(c),
    ensures
        a.is_prefix_of(c),
{
    assert(a =~= c.subrange(0, a.len() as int));
}

} // verus!
