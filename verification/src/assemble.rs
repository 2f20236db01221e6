//! The event assembler: one raw report becomes one ordered event batch, or
//! nothing at all when the report carries no pressed input.

use vstd::prelude::*;

use crate::buttons::ControllerButton;
use crate::buttons::DecodeError;
use crate::decode::process_actions;
use crate::decode::process_triggers;
use crate::decode::spec_actions;
use crate::decode::spec_triggers;

verus! {

/// How many bytes of a raw report the decoder consumes: indices 1..=6 carry
/// the stick axes, the action byte and the trigger byte.
pub const REPORT_LEN: usize = 7;

/// The full event batch of one report: everything the action byte encodes,
/// followed by everything the trigger byte encodes, each in its decoder's
/// own order.
pub open spec fn spec_batch(action: u8, trigger: u8) -> Seq<ControllerButton>
    recommends
        action & 0x0F <= 8,
{
    spec_actions(action) + spec_triggers(trigger)
}

/// Assembles the event batch of one raw report, reading the action byte at
/// index 5 and the trigger byte at index 6. An idle report — no face button,
/// the neutral D-pad sentinel, no trigger bit — yields `Ok(None)`, never an
/// empty batch, so idle polling floods nothing downstream. A D-pad nibble
/// above 8 is rejected.
pub fn assemble_batch(data: &[u8]) -> (r: Result<Option<Vec<ControllerButton>>, DecodeError>)
    requires
        data@.len() >= REPORT_LEN,
    ensures
        r is Ok <==> data@[5] & 0x0F <= 8,
        r matches Ok(Some(b)) ==> b@ == spec_batch(data@[5], data@[6]) && b@.len() > 0,
        r matches Ok(None) ==> spec_batch(data@[5], data@[6]).len() == 0,
        r matches Err(e) ==> e.nibble == data@[5] & 0x0F && e.nibble > 8,
{
    let action = data[5];
    let trigger = data[6];
    let mut batch = match process_actions(action) {
        Ok(buttons) => buttons,
        Err(e) => {
            return Err(e);
        },
    };
    let mut triggers = process_triggers(trigger);
    batch.append(&mut triggers);
    if batch.len() > 0 {
        Ok(Some(batch))
    } else {
        Ok(None)
    }
}

/// Law: assembly is deterministic and order-stable: any two event batches
/// assembled from the same action and trigger bytes are the same sequence,
/// element for element.
pub proof fn lemma_batch_deterministic(
    action: u8,
    trigger: u8,
    first: Seq<ControllerButton>,
    second: Seq<ControllerButton>,
)
    requires
        first == spec_batch(action, trigger),
        second == spec_batch(action, trigger),
    ensures
        first == second,
{
}

} // verus!
