//! The report decoder: pure functions turning the raw action byte, trigger
//! byte and joystick axis bytes into sequences of semantic buttons and axis
//! zones, each pinned to a mathematical model.

use vstd::prelude::*;

use crate::buttons::ControllerButton;
use crate::buttons::DecodeError;
use crate::buttons::JoystickDirection;

verus! {

/// The contribution of one bit of a bitfield byte: the singleton `button`
/// when `mask` selects a set bit, the empty sequence otherwise.
pub open spec fn bit_buttons(data: u8, mask: u8, button: ControllerButton) -> Seq<
    ControllerButton,
> {
    if data & mask != 0 {
        seq![button]
    } else {
        Seq::empty()
    }
}

/// The face buttons encoded in the upper nibble of the action byte:
/// bit 7 is Triangle, bit 6 Circle, bit 5 Cross, bit 4 Square, tested
/// independently, in descending bit order.
pub open spec fn spec_face_buttons(data: u8) -> Seq<ControllerButton> {
    bit_buttons(data, 0x80, ControllerButton::Triangle) + bit_buttons(
        data,
        0x40,
        ControllerButton::Circle,
    ) + bit_buttons(data, 0x20, ControllerButton::Cross) + bit_buttons(
        data,
        0x10,
        ControllerButton::Square,
    )
}

/// The fixed D-pad table for the low nibble of the action byte. Value 8 is
/// the neutral sentinel and yields nothing; values above 8 never come from a
/// well-behaved device and the decoders reject them before consulting this
/// table.
pub open spec fn spec_dpad(nibble: u8) -> Seq<ControllerButton>
    recommends
        nibble <= 8,
{
    if nibble == 0 {
        seq![ControllerButton::UpDpad]
    } else if nibble == 1 {
        seq![ControllerButton::RightDpad, ControllerButton::UpDpad]
    } else if nibble == 2 {
        seq![ControllerButton::RightDpad]
    } else if nibble == 3 {
        seq![ControllerButton::RightDpad, ControllerButton::DownDpad]
    } else if nibble == 4 {
        seq![ControllerButton::DownDpad]
    } else if nibble == 5 {
        seq![ControllerButton::LeftDpad, ControllerButton::DownDpad]
    } else if nibble == 6 {
        seq![ControllerButton::LeftDpad]
    } else if nibble == 7 {
        seq![ControllerButton::LeftDpad, ControllerButton::UpDpad]
    } else {
        Seq::empty()
    }
}

/// Everything the action byte encodes: the face buttons of the upper nibble
/// followed by the D-pad directions of the lower nibble.
pub open spec fn spec_actions(data: u8) -> Seq<ControllerButton>
    recommends
        data & 0x0F <= 8,
{
    spec_face_buttons(data) + spec_dpad(data & 0x0F)
}

/// The trigger/meta byte as the union of its eight single-bit mappings, in
/// descending bit order: bit 7 is RightJoystickPress, bit 6
/// LeftJoystickPress, bit 5 Options, bit 4 Share, bit 3 R2, bit 2 L2,
/// bit 1 R1, bit 0 L1.
pub open spec fn spec_triggers(data: u8) -> Seq<ControllerButton> {
    bit_buttons(data, 0x80, ControllerButton::RightJoystickPress) + bit_buttons(
        data,
        0x40,
        ControllerButton::LeftJoystickPress,
    ) + bit_buttons(data, 0x20, ControllerButton::Options) + bit_buttons(
        data,
        0x10,
        ControllerButton::Share,
    ) + bit_buttons(data, 0x08, ControllerButton::R2) + bit_buttons(
        data,
        0x04,
        ControllerButton::L2,
    ) + bit_buttons(data, 0x02, ControllerButton::R1) + bit_buttons(
        data,
        0x01,
        ControllerButton::L1,
    )
}

/// The zone of a horizontal axis byte: below 120 is Left, 120 up to but not
/// including 140 is Center, 140 and above is Right.
pub open spec fn spec_horizontal_zone(value: u8) -> JoystickDirection {
    if value < 120 {
        JoystickDirection::Left
    } else if value < 140 {
        JoystickDirection::Center
    } else {
        JoystickDirection::Right
    }
}

/// The zone of a vertical axis byte: below 120 is Up, 120 up to but not
/// including 140 is Center, 140 and above is Down.
pub open spec fn spec_vertical_zone(value: u8) -> JoystickDirection {
    if value < 120 {
        JoystickDirection::Up
    } else if value < 140 {
        JoystickDirection::Center
    } else {
        JoystickDirection::Down
    }
}

/// A numeric rank for the zones of one axis, from the low end of the byte
/// range to the high end.
pub open spec fn spec_zone_rank(zone: JoystickDirection) -> int {
    match zone {
        JoystickDirection::Up => 0,
        JoystickDirection::Left => 0,
        JoystickDirection::Center => 1,
        JoystickDirection::Down => 2,
        JoystickDirection::Right => 2,
    }
}

/// Law: the face buttons decoded from an action byte depend on its upper
/// nibble alone: two bytes that agree on bits 7..4 yield the same face
/// buttons, whatever their lower nibbles hold.
pub proof fn lemma_face_buttons_independent(a: u8, b: u8)
    requires
        a & 0xF0 == b & 0xF0,
    ensures
        spec_face_buttons(a) == spec_face_buttons(b),
{
    assert(a & 0x80 == b & 0x80 && a & 0x40 == b & 0x40 && a & 0x20 == b & 0x20 && a & 0x10 == b
        & 0x10) by (bit_vector)
        requires
            a & 0xF0 == b & 0xF0,
    ;
}

/// Law: decoding the trigger byte is exactly the union of its eight
/// single-bit decodings: masking the byte down to any one bit decodes to
/// just that bit's button, and the full decoding is their concatenation in
/// descending bit order.
pub proof fn lemma_triggers_union(data: u8)
    ensures
        spec_triggers(data) == spec_triggers(data & 0x80) + spec_triggers(data & 0x40)
            + spec_triggers(data & 0x20) + spec_triggers(data & 0x10) + spec_triggers(data & 0x08)
            + spec_triggers(data & 0x04) + spec_triggers(data & 0x02) + spec_triggers(data & 0x01),
{
    assert((data & 0x80) & 0x80 == data & 0x80 && (data & 0x80) & 0x40 == 0 && (data & 0x80) & 0x20
        == 0 && (data & 0x80) & 0x10 == 0 && (data & 0x80) & 0x08 == 0 && (data & 0x80) & 0x04 == 0
        && (data & 0x80) & 0x02 == 0 && (data & 0x80) & 0x01 == 0) by (bit_vector);
    assert((data & 0x40) & 0x80 == 0 && (data & 0x40) & 0x40 == data & 0x40 && (data & 0x40) & 0x20
        == 0 && (data & 0x40) & 0x10 == 0 && (data & 0x40) & 0x08 == 0 && (data & 0x40) & 0x04 == 0
        && (data & 0x40) & 0x02 == 0 && (data & 0x40) & 0x01 == 0) by (bit_vector);
    assert((data & 0x20) & 0x80 == 0 && (data & 0x20) & 0x40 == 0 && (data & 0x20) & 0x20 == data
        & 0x20 && (data & 0x20) & 0x10 == 0 && (data & 0x20) & 0x08 == 0 && (data & 0x20) & 0x04
        == 0 && (data & 0x20) & 0x02 == 0 && (data & 0x20) & 0x01 == 0) by (bit_vector);
    assert((data & 0x10) & 0x80 == 0 && (data & 0x10) & 0x40 == 0 && (data & 0x10) & 0x20 == 0 && (
    data & 0x10) & 0x10 == data & 0x10 && (data & 0x10) & 0x08 == 0 && (data & 0x10) & 0x04 == 0
        && (data & 0x10) & 0x02 == 0 && (data & 0x10) & 0x01 == 0) by (bit_vector);
    assert((data & 0x08) & 0x80 == 0 && (data & 0x08) & 0x40 == 0 && (data & 0x08) & 0x20 == 0 && (
    data & 0x08) & 0x10 == 0 && (data & 0x08) & 0x08 == data & 0x08 && (data & 0x08) & 0x04 == 0
        && (data & 0x08) & 0x02 == 0 && (data & 0x08) & 0x01 == 0) by (bit_vector);
    assert((data & 0x04) & 0x80 == 0 && (data & 0x04) & 0x40 == 0 && (data & 0x04) & 0x20 == 0 && (
    data & 0x04) & 0x10 == 0 && (data & 0x04) & 0x08 == 0 && (data & 0x04) & 0x04 == data & 0x04
        && (data & 0x04) & 0x02 == 0 && (data & 0x04) & 0x01 == 0) by (bit_vector);
    assert((data & 0x02) & 0x80 == 0 && (data & 0x02) & 0x40 == 0 && (data & 0x02) & 0x20 == 0 && (
    data & 0x02) & 0x10 == 0 && (data & 0x02) & 0x08 == 0 && (data & 0x02) & 0x04 == 0 && (data
        & 0x02) & 0x02 == data & 0x02 && (data & 0x02) & 0x01 == 0) by (bit_vector);
    assert((data & 0x01) & 0x80 == 0 && (data & 0x01) & 0x40 == 0 && (data & 0x01) & 0x20 == 0 && (
    data & 0x01) & 0x10 == 0 && (data & 0x01) & 0x08 == 0 && (data & 0x01) & 0x04 == 0 && (data
        & 0x01) & 0x02 == 0 && (data & 0x01) & 0x01 == data & 0x01) by (bit_vector);
    assert(spec_triggers(data) =~= spec_triggers(data & 0x80) + spec_triggers(data & 0x40)
        + spec_triggers(data & 0x20) + spec_triggers(data & 0x10) + spec_triggers(data & 0x08)
        + spec_triggers(data & 0x04) + spec_triggers(data & 0x02) + spec_triggers(data & 0x01));
}

/// Law: each axis byte falls in exactly one zone, and the three zones
/// partition the byte range 0..=255 contiguously at the boundaries 120
/// and 140, on both axes.
pub proof fn lemma_zone_partition(value: u8)
    ensures
        spec_vertical_zone(value) is Up <==> value < 120,
        spec_vertical_zone(value) is Center <==> 120 <= value < 140,
        spec_vertical_zone(value) is Down <==> value >= 140,
        spec_horizontal_zone(value) is Left <==> value < 120,
        spec_horizontal_zone(value) is Center <==> 120 <= value < 140,
        spec_horizontal_zone(value) is Right <==> value >= 140,
{
}

/// Law: zone classification is monotonic: a larger axis byte never falls in
/// a lower zone, on either axis.
pub proof fn lemma_zone_monotonic(a: u8, b: u8)
    requires
        a <= b,
    ensures
        spec_zone_rank(spec_vertical_zone(a)) <= spec_zone_rank(spec_vertical_zone(b)),
        spec_zone_rank(spec_horizontal_zone(a)) <= spec_zone_rank(spec_horizontal_zone(b)),
{
}

/// Concatenation of sequences is associative.
proof fn lemma_concat_assoc(
    a: Seq<ControllerButton>,
    b: Seq<ControllerButton>,
    c: Seq<ControllerButton>,
)
    ensures
        (a + b) + c == a + (b + c),
{
    assert((a + b) + c =~= a + (b + c));
}

/// Appends the contribution of one bit of a bitfield byte: `button` when
/// `mask` selects a set bit, nothing otherwise.
fn push_bit(data: u8, mask: u8, button: ControllerButton, buttons: &mut Vec<ControllerButton>)
    ensures
        final(buttons)@ == old(buttons)@ + bit_buttons(data, mask, button),
{
    if data & mask != 0 {
        buttons.push(button);
    }
    assert(buttons@ =~= old(buttons)@ + bit_buttons(data, mask, button));
}

/// Appends the D-pad directions that the fixed table gives for one valid
/// lower nibble.
fn push_dpad(nibble: u8, buttons: &mut Vec<ControllerButton>)
    requires
        nibble <= 8,
    ensures
        final(buttons)@ == old(buttons)@ + spec_dpad(nibble),
{
    if nibble == 7 {
        buttons.push(ControllerButton::LeftDpad);
        buttons.push(ControllerButton::UpDpad);
    } else if nibble == 6 {
        buttons.push(ControllerButton::LeftDpad);
    } else if nibble == 5 {
        buttons.push(ControllerButton::LeftDpad);
        buttons.push(ControllerButton::DownDpad);
    } else if nibble == 4 {
        buttons.push(ControllerButton::DownDpad);
    } else if nibble == 3 {
        buttons.push(ControllerButton::RightDpad);
        buttons.push(ControllerButton::DownDpad);
    } else if nibble == 2 {
        buttons.push(ControllerButton::RightDpad);
    } else if nibble == 1 {
        buttons.push(ControllerButton::RightDpad);
        buttons.push(ControllerButton::UpDpad);
    } else if nibble == 0 {
        buttons.push(ControllerButton::UpDpad);
    }
    assert(buttons@ =~= old(buttons)@ + spec_dpad(nibble));
}

/// Decodes the action byte, appending first the face buttons of the upper
/// nibble and then the D-pad directions of the lower nibble to `buttons`.
/// A lower nibble above 8 is invalid: the byte is rejected and `buttons` is
/// left untouched.
pub fn determine_actions(data: u8, buttons: &mut Vec<ControllerButton>) -> (r: Result<
    (),
    DecodeError,
>)
    ensures
        data & 0x0F <= 8 ==> r is Ok && final(buttons)@ == old(buttons)@ + spec_actions(data),
        data & 0x0F > 8 ==> (r matches Err(e) && e.nibble == data & 0x0F) && final(buttons)@ == old(
            buttons,
        )@,
{
    let nibble: u8 = data & 0x0F;
    if nibble > 8 {
        return Err(DecodeError { nibble });
    }
    push_bit(data, 0x80, ControllerButton::Triangle, buttons);
    push_bit(data, 0x40, ControllerButton::Circle, buttons);
    push_bit(data, 0x20, ControllerButton::Cross, buttons);
    push_bit(data, 0x10, ControllerButton::Square, buttons);
    proof {
        let s0 = old(buttons)@;
        let b7 = bit_buttons(data, 0x80, ControllerButton::Triangle);
        let b6 = bit_buttons(data, 0x40, ControllerButton::Circle);
        let b5 = bit_buttons(data, 0x20, ControllerButton::Cross);
        let b4 = bit_buttons(data, 0x10, ControllerButton::Square);
        lemma_concat_assoc(s0, b7, b6);
        lemma_concat_assoc(s0, b7 + b6, b5);
        lemma_concat_assoc(s0, (b7 + b6) + b5, b4);
    }
    push_dpad(nibble, buttons);
    proof {
        lemma_concat_assoc(old(buttons)@, spec_face_buttons(data), spec_dpad(nibble));
    }
    Ok(())
}

/// Decodes the trigger/meta byte, appending every button whose bit is set,
/// in descending bit order.
pub fn determine_triggers(data: u8, buttons: &mut Vec<ControllerButton>)
    ensures
        final(buttons)@ == old(buttons)@ + spec_triggers(data),
{
    push_bit(data, 0x80, ControllerButton::RightJoystickPress, buttons);
    push_bit(data, 0x40, ControllerButton::LeftJoystickPress, buttons);
    push_bit(data, 0x20, ControllerButton::Options, buttons);
    push_bit(data, 0x10, ControllerButton::Share, buttons);
    push_bit(data, 0x08, ControllerButton::R2, buttons);
    push_bit(data, 0x04, ControllerButton::L2, buttons);
    push_bit(data, 0x02, ControllerButton::R1, buttons);
    push_bit(data, 0x01, ControllerButton::L1, buttons);
    proof {
        let s0 = old(buttons)@;
        let b7 = bit_buttons(data, 0x80, ControllerButton::RightJoystickPress);
        let b6 = bit_buttons(data, 0x40, ControllerButton::LeftJoystickPress);
        let b5 = bit_buttons(data, 0x20, ControllerButton::Options);
        let b4 = bit_buttons(data, 0x10, ControllerButton::Share);
        let b3 = bit_buttons(data, 0x08, ControllerButton::R2);
        let b2 = bit_buttons(data, 0x04, ControllerButton::L2);
        let b1 = bit_buttons(data, 0x02, ControllerButton::R1);
        let b0 = bit_buttons(data, 0x01, ControllerButton::L1);
        lemma_concat_assoc(s0, b7, b6);
        lemma_concat_assoc(s0, b7 + b6, b5);
        lemma_concat_assoc(s0, (b7 + b6) + b5, b4);
        lemma_concat_assoc(s0, ((b7 + b6) + b5) + b4, b3);
        lemma_concat_assoc(s0, (((b7 + b6) + b5) + b4) + b3, b2);
        lemma_concat_assoc(s0, ((((b7 + b6) + b5) + b4) + b3) + b2, b1);
        lemma_concat_assoc(s0, (((((b7 + b6) + b5) + b4) + b3) + b2) + b1, b0);
    }
}

/// Decodes one action byte into a fresh sequence of buttons, rejecting a
/// D-pad nibble above 8.
pub fn process_actions(action: u8) -> (r: Result<Vec<ControllerButton>, DecodeError>)
    ensures
        r is Ok <==> action & 0x0F <= 8,
        r matches Ok(b) ==> b@ == spec_actions(action),
        r matches Err(e) ==> e.nibble == action & 0x0F && e.nibble > 8,
{
    let mut buttons: Vec<ControllerButton> = Vec::new();
    match determine_actions(action, &mut buttons) {
        Ok(()) => Ok(buttons),
        Err(e) => Err(e),
    }
}

/// Decodes one trigger/meta byte into a fresh sequence of buttons.
pub fn process_triggers(trigger: u8) -> (r: Vec<ControllerButton>)
    ensures
        r@ == spec_triggers(trigger),
{
    let mut buttons: Vec<ControllerButton> = Vec::new();
    determine_triggers(trigger, &mut buttons);
    buttons
}

/// Classifies one stick from its two axis bytes, the horizontal byte first
/// and the vertical byte second, into the pair of their zones.
pub fn process_joystick_direction(joystick_data: &[u8]) -> (r: (
    JoystickDirection,
    JoystickDirection,
))
    requires
        joystick_data@.len() >= 2,
    ensures
        r.0 == spec_horizontal_zone(joystick_data@[0]),
        r.1 == spec_vertical_zone(joystick_data@[1]),
{
    let left_or_right = joystick_data[0];
    let up_or_down = joystick_data[1];
    let horizontal = if left_or_right < 120 {
        JoystickDirection::Left
    } else if left_or_right < 140 {
        JoystickDirection::Center
    } else {
        JoystickDirection::Right
    };
    let vertical = if up_or_down < 120 {
        JoystickDirection::Up
    } else if up_or_down < 140 {
        JoystickDirection::Center
    } else {
        JoystickDirection::Down
    };
    (horizontal, vertical)
}

} // verus!
