//! The two loops around the decoder: the acquisition side, which turns each
//! read outcome into a loop status and at most one batch to deliver, and the
//! consumption side, which drains the delivery channel and applies the fixed
//! reaction table.

use vstd::prelude::*;

use crate::assemble::assemble_batch;
use crate::assemble::spec_batch;
use crate::buttons::ControllerButton;
use crate::buttons::DecodeError;
use crate::channel::DeliveryChannel;

verus! {

/// What one blocking read of the device produced: a filled report buffer, or
/// a read failure, which is terminal for that device's monitoring session.
pub enum ReadOutcome {
    Report(Vec<u8>),
    ReadError,
}

/// Whether the acquisition loop goes on polling or has terminated.
#[derive(Debug, Clone, Copy, PartialEq, Eq, Structural)]
pub enum LoopStatus {
    Running,
    Failed,
}

/// The reactions the consumption loop can perform; its fixed table maps
/// Cross to `Jump` and every other button to no reaction.
#[derive(Debug, Clone, Copy, PartialEq, Eq, Structural)]
pub enum Reaction {
    Jump,
}

/// The reaction, if any, that one decoded button provokes.
pub open spec fn spec_reaction(button: ControllerButton) -> Option<Reaction> {
    if button == ControllerButton::Cross {
        Some(Reaction::Jump)
    } else {
        None
    }
}

/// The reactions one batch provokes, in batch order.
pub open spec fn spec_reactions(batch: Seq<ControllerButton>) -> Seq<Reaction>
    decreases batch.len(),
{
    if batch.len() == 0 {
        Seq::empty()
    } else {
        spec_reactions(batch.drop_last()) + (match spec_reaction(batch.last()) {
            Some(reaction) => seq![reaction],
            None => Seq::empty(),
        })
    }
}

/// The reactions a run of batches provokes, oldest batch first.
pub open spec fn spec_all_reactions(batches: Seq<Seq<ControllerButton>>) -> Seq<Reaction>
    decreases batches.len(),
{
    if batches.len() == 0 {
        Seq::empty()
    } else {
        spec_all_reactions(batches.drop_last()) + spec_reactions(batches.last())
    }
}

/// Decodes one raw report and, when it carries any pressed input, sends its
/// batch down the delivery channel; an idle report sends nothing, and a
/// report with a D-pad nibble above 8 is rejected and sends nothing.
pub fn send_input(data: &[u8], channel: &mut DeliveryChannel) -> (r: Result<(), DecodeError>)
    requires
        data@.len() >= crate::assemble::REPORT_LEN,
    ensures
        r is Ok <==> data@[5] & 0x0F <= 8,
        r is Ok && spec_batch(data@[5], data@[6]).len() > 0 ==> final(channel)@ == old(
            channel,
        )@.push(spec_batch(data@[5], data@[6])),
        r is Ok && spec_batch(data@[5], data@[6]).len() == 0 ==> final(channel)@ == old(channel)@,
        r matches Err(e) ==> e.nibble == data@[5] & 0x0F && e.nibble > 8 && final(channel)@ == old(
            channel,
        )@,
{
    match assemble_batch(data) {
        Ok(Some(batch)) => {
            channel.send(batch);
            Ok(())
        },
        Ok(None) => Ok(()),
        Err(e) => Err(e),
    }
}

/// One turn of the acquisition loop's state machine: from the outcome of one
/// blocking read to the loop's next status and the batch to deliver, if any.
/// A read error is terminal; so is a report too short to carry its six
/// decoded bytes, or one whose D-pad nibble lies above 8 — a decode error
/// fails loudly instead of silently dropping input. A well-formed report
/// keeps the loop running and yields its batch exactly when the batch is
/// non-empty.
pub fn acquisition_step(outcome: ReadOutcome) -> (r: (LoopStatus, Option<Vec<ControllerButton>>))
    ensures
        match outcome {
            ReadOutcome::Report(data) => {
                if data@.len() < crate::assemble::REPORT_LEN {
                    r.0 is Failed && r.1 is None
                } else if data@[5] & 0x0F > 8 {
                    r.0 is Failed && r.1 is None
                } else if spec_batch(data@[5], data@[6]).len() == 0 {
                    r.0 is Running && r.1 is None
                } else {
                    r.0 is Running && (r.1 matches Some(b) && b@ == spec_batch(
                        data@[5],
                        data@[6],
                    ))
                }
            },
            ReadOutcome::ReadError => r.0 is Failed && r.1 is None,
        },
{
    match outcome {
        ReadOutcome::Report(data) => {
            if data.len() < crate::assemble::REPORT_LEN {
                (LoopStatus::Failed, None)
            } else {
                match assemble_batch(data.as_slice()) {
                    Ok(Some(batch)) => (LoopStatus::Running, Some(batch)),
                    Ok(None) => (LoopStatus::Running, None),
                    Err(_) => (LoopStatus::Failed, None),
                }
            }
        },
        ReadOutcome::ReadError => (LoopStatus::Failed, None),
    }
}

/// Applies the fixed reaction table to every button of one batch, in batch
/// order.
pub fn react_to_batch(batch: &Vec<ControllerButton>) -> (r: Vec<Reaction>)
    ensures
        r@ == spec_reactions(batch@),
{
    let mut reactions: Vec<Reaction> = Vec::new();
    let mut i: usize = 0;
    while i < batch.len()
        invariant
            i <= batch@.len(),
            reactions@ == spec_reactions(batch@.take(i as int)),
        decreases batch@.len() - i,
    {
        proof {
            assert(batch@.take(i + 1).drop_last() =~= batch@.take(i as int));
            assert(batch@.take(i + 1).last() == batch@[i as int]);
        }
        if batch[i] == ControllerButton::Cross {
            reactions.push(Reaction::Jump);
        }
        assert(reactions@ =~= spec_reactions(batch@.take(i + 1)));
        i = i + 1;
    }
    proof {
        assert(batch@.take(batch@.len() as int) =~= batch@);
    }
    reactions
}

/// One scheduling tick of the consumption loop: drains every batch pending
/// on the channel, oldest first, and returns the reactions the fixed table
/// yields, in delivery order. It never blocks: with nothing pending it
/// returns at once with no reactions.
pub fn consume_tick(channel: &mut DeliveryChannel) -> (r: Vec<Reaction>)
    ensures
        final(channel)@.len() == 0,
        r@ == spec_all_reactions(old(channel)@),
{
    let mut reactions: Vec<Reaction> = Vec::new();
    let ghost mut done: Seq<Seq<ControllerButton>> = Seq::empty();
    proof {
        assert(done + channel@ =~= old(channel)@);
    }
    loop
        invariant_except_break
            done + channel@ == old(channel)@,
            reactions@ == spec_all_reactions(done),
        ensures
            channel@.len() == 0,
            reactions@ == spec_all_reactions(old(channel)@),
        decreases channel@.len(),
    {
        let ghost done_before = done;
        match channel.try_recv() {
            Some(batch) => {
                let mut more = react_to_batch(&batch);
                reactions.append(&mut more);
                proof {
                    done = done_before.push(batch@);
                    assert(done.drop_last() =~= done_before);
                    assert(done + channel@ =~= old(channel)@);
                    assert(reactions@ =~= spec_all_reactions(done));
                }
            },
            None => {
                proof {
                    assert(done =~= old(channel)@);
                }
                break ;
            },
        }
    }
    reactions
}

} // verus!
