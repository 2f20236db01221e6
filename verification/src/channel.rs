//! The delivery channel: a FIFO queue of event batches connecting the
//! acquisition worker (producer) to the consumption loop (consumer).
//! Sending appends and never blocks; receiving is non-blocking and returns
//! the oldest batch still pending, so batches come out in exactly the order
//! they were sent.

use std::collections::VecDeque;
use vstd::prelude::*;

use crate::buttons::ControllerButton;

verus! {

/// The mathematical contents of a sequence of batches: each batch as the
/// sequence of buttons it holds, oldest batch first.
pub open spec fn batch_views(batches: Seq<Vec<ControllerButton>>) -> Seq<Seq<ControllerButton>> {
    batches.map_values(|b: Vec<ControllerButton>| b@)
}

/// The FIFO queue of event batches. Its view is the sequence of pending
/// batches, oldest first.
pub struct DeliveryChannel {
    batches: VecDeque<Vec<ControllerButton>>,
}

impl View for DeliveryChannel {
    type V = Seq<Seq<ControllerButton>>;

    closed spec fn view(&self) -> Seq<Seq<ControllerButton>> {
        batch_views(self.batches@)
    }
}

proof fn lemma_batch_views_push(s: Seq<Vec<ControllerButton>>, v: Vec<ControllerButton>)
    ensures
        batch_views(s.push(v)) == batch_views(s).push(v@),
{
    assert(batch_views(s.push(v)) =~= batch_views(s).push(v@));
}

proof fn lemma_batch_views_drop_first(s: Seq<Vec<ControllerButton>>)
    requires
        s.len() > 0,
    ensures
        batch_views(s.subrange(1, s.len() as int)) == batch_views(s).drop_first(),
{
    assert(batch_views(s.subrange(1, s.len() as int)) =~= batch_views(s).drop_first());
}

impl DeliveryChannel {
    /// A fresh channel with nothing pending.
    pub fn new() -> (r: DeliveryChannel)
        ensures
            r@ == Seq::<Seq<ControllerButton>>::empty(),
    {
        let channel = DeliveryChannel { batches: VecDeque::new() };
        proof {
            assert(channel@ =~= Seq::<Seq<ControllerButton>>::empty());
        }
        channel
    }

    /// How many batches are pending.
    pub fn len(&self) -> (r: usize)
        ensures
            r == self@.len(),
    {
        self.batches.len()
    }

    /// Appends one batch behind everything already pending. From the
    /// producer's point of view the queue is unbounded: sending never
    /// blocks and never drops a batch.
    pub fn send(&mut self, batch: Vec<ControllerButton>)
        ensures
            final(self)@ == old(self)@.push(batch@),
    {
        proof {
            lemma_batch_views_push(self.batches@, batch);
        }
        self.batches.push_back(batch);
    }

    /// Takes the oldest pending batch, or reports at once that nothing is
    /// pending; it never blocks the consumer.
    pub fn try_recv(&mut self) -> (r: Option<Vec<ControllerButton>>)
        ensures
            r matches Some(b) ==> old(self)@.len() > 0 && b@ == old(self)@[0] && final(self)@
                == old(self)@.drop_first(),
            r is None ==> old(self)@.len() == 0 && final(self)@ == old(self)@,
    {
        proof {
            if self.batches@.len() > 0 {
                lemma_batch_views_drop_first(self.batches@);
            }
        }
        self.batches.pop_front()
    }

    /// Takes every pending batch at once, oldest first, leaving the channel
    /// empty: the consumer observes exactly the batches that were sent, in
    /// the order they were sent.
    pub fn drain(&mut self) -> (r: Vec<Vec<ControllerButton>>)
        ensures
            batch_views(r@) == old(self)@,
            final(self)@.len() == 0,
    {
        let mut out: Vec<Vec<ControllerButton>> = Vec::new();
        proof {
            assert(batch_views(out@) + self@ =~= old(self)@);
        }
        loop
            invariant_except_break
                batch_views(out@) + self@ == old(self)@,
            ensures
                batch_views(out@) == old(self)@,
                self@.len() == 0,
            decreases self@.len(),
        {
            let ghost views_before = batch_views(out@);
            let ghost pending_before = self@;
            match self.try_recv() {
                Some(batch) => {
                    let ghost bview = batch@;
                    proof {
                        lemma_batch_views_push(out@, batch);
                        assert(views_before + pending_before =~= views_before.push(bview)
                            + pending_before.drop_first());
                    }
                    out.push(batch);
                },
                None => {
                    proof {
                        assert(batch_views(out@) =~= old(self)@);
                    }
                    break ;
                },
            }
        }
        out
    }
}

/// Law: however the consumer's drain ticks interleave with the producer's
/// sends, the batches received so far followed by those still pending always
/// equal the batches sent so far, in order: sending appends one batch at the
/// back of the pending sequence, and receiving moves the front of the
/// pending sequence to the back of the received sequence. The consumer
/// therefore observes batches in exactly the order they were sent, whatever
/// its drain timing.
pub proof fn lemma_delivery_order(
    received: Seq<Seq<ControllerButton>>,
    pending: Seq<Seq<ControllerButton>>,
    batch: Seq<ControllerButton>,
)
    ensures
        (received + pending).push(batch) == received + pending.push(batch),
        pending.len() > 0 ==> received + pending == received.push(pending[0])
            + pending.drop_first(),
{
    assert((received + pending).push(batch) =~= received + pending.push(batch));
    if pending.len() > 0 {
        assert(received + pending =~= received.push(pending[0]) + pending.drop_first());
    }
}

} // verus!
