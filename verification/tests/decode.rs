use ds4_input::buttons::ControllerButton;
use ds4_input::buttons::JoystickDirection;
use ds4_input::decode::process_actions;
use ds4_input::decode::process_joystick_direction;
use ds4_input::decode::process_triggers;

/// The face buttons a byte's upper nibble predicts, bit 7 down to bit 4.
fn expected_faces(data: u8) -> Vec<ControllerButton> {
    let mut faces = Vec::new();
    if data & 0x80 != 0 {
        faces.push(ControllerButton::Triangle);
    }
    if data & 0x40 != 0 {
        faces.push(ControllerButton::Circle);
    }
    if data & 0x20 != 0 {
        faces.push(ControllerButton::Cross);
    }
    if data & 0x10 != 0 {
        faces.push(ControllerButton::Square);
    }
    faces
}

/// The D-pad directions the fixed table gives for one lower nibble 0..=8.
fn expected_dpad(nibble: u8) -> Vec<ControllerButton> {
    match nibble {
        0 => vec![ControllerButton::UpDpad],
        1 => vec![ControllerButton::RightDpad, ControllerButton::UpDpad],
        2 => vec![ControllerButton::RightDpad],
        3 => vec![ControllerButton::RightDpad, ControllerButton::DownDpad],
        4 => vec![ControllerButton::DownDpad],
        5 => vec![ControllerButton::LeftDpad, ControllerButton::DownDpad],
        6 => vec![ControllerButton::LeftDpad],
        7 => vec![ControllerButton::LeftDpad, ControllerButton::UpDpad],
        8 => vec![],
        _ => panic!("nibble out of the table"),
    }
}

#[test]
fn action_upper_nibble_all_bytes() {
    // Every action byte with a valid lower nibble decodes to exactly the
    // face buttons its bits 7..4 predict, followed by the D-pad table entry.
    for data in 0..=255u8 {
        let nibble = data & 0x0F;
        if nibble <= 8 {
            let mut expected = expected_faces(data);
            expected.extend(expected_dpad(nibble));
            assert_eq!(process_actions(data).unwrap(), expected);
        }
    }
}

#[test]
fn action_upper_nibble_independent_of_lower() {
    // Two action bytes that agree on the upper nibble yield the same face
    // buttons, whatever their (valid) lower nibbles hold.
    for upper in 0..=15u8 {
        let faces = expected_faces(upper << 4);
        for nibble in 0..=8u8 {
            let decoded = process_actions((upper << 4) | nibble).unwrap();
            assert_eq!(&decoded[..faces.len()], &faces[..]);
        }
    }
}

#[test]
fn dpad_table_exact() {
    for nibble in 0..=8u8 {
        assert_eq!(process_actions(nibble).unwrap(), expected_dpad(nibble));
    }
}

#[test]
fn dpad_neutral_sentinel_yields_nothing() {
    assert_eq!(process_actions(8).unwrap(), vec![]);
    // The sentinel suppresses no face button of the same byte.
    assert_eq!(
        process_actions(0xA8).unwrap(),
        vec![ControllerButton::Triangle, ControllerButton::Cross]
    );
}

#[test]
fn dpad_invalid_nibbles_are_errors() {
    for nibble in 9..=15u8 {
        for upper in [0x00u8, 0x30, 0xF0] {
            let err = process_actions(upper | nibble).unwrap_err();
            assert_eq!(err.nibble, nibble);
        }
    }
}

#[test]
fn trigger_byte_is_union_of_single_bits() {
    // For every trigger byte, the decoding equals the concatenation of the
    // eight single-bit decodings, in descending bit order.
    for data in 0..=255u8 {
        let mut expected = Vec::new();
        for bit in (0..8u8).rev() {
            expected.extend(process_triggers(data & (1 << bit)));
        }
        assert_eq!(process_triggers(data), expected);
    }
}

#[test]
fn trigger_zero_yields_nothing() {
    assert_eq!(process_triggers(0), vec![]);
}

#[test]
fn trigger_single_bits_exact() {
    let table = [
        (0x80u8, ControllerButton::RightJoystickPress),
        (0x40, ControllerButton::LeftJoystickPress),
        (0x20, ControllerButton::Options),
        (0x10, ControllerButton::Share),
        (0x08, ControllerButton::R2),
        (0x04, ControllerButton::L2),
        (0x02, ControllerButton::R1),
        (0x01, ControllerButton::L1),
    ];
    for (mask, button) in table {
        assert_eq!(process_triggers(mask), vec![button]);
    }
}

#[test]
fn trigger_all_bits_in_descending_order() {
    assert_eq!(
        process_triggers(0xFF),
        vec![
            ControllerButton::RightJoystickPress,
            ControllerButton::LeftJoystickPress,
            ControllerButton::Options,
            ControllerButton::Share,
            ControllerButton::R2,
            ControllerButton::L2,
            ControllerButton::R1,
            ControllerButton::L1,
        ]
    );
}

#[test]
fn trigger_scenario_bits_zero_and_two() {
    // 0x05 sets bits 0 and 2: L2 (bit 2) before L1 (bit 0).
    assert_eq!(
        process_triggers(0x05),
        vec![ControllerButton::L2, ControllerButton::L1]
    );
}

#[test]
fn action_scenario_two_faces_and_diagonal() {
    // 0x97: bits 7 and 4 set, lower nibble 7.
    assert_eq!(
        process_actions(0x97).unwrap(),
        vec![
            ControllerButton::Triangle,
            ControllerButton::Square,
            ControllerButton::LeftDpad,
            ControllerButton::UpDpad,
        ]
    );
}

#[test]
fn joystick_zone_boundaries() {
    let low = (JoystickDirection::Left, JoystickDirection::Up);
    let center = (JoystickDirection::Center, JoystickDirection::Center);
    let high = (JoystickDirection::Right, JoystickDirection::Down);
    assert_eq!(process_joystick_direction(&[0, 0]), low);
    assert_eq!(process_joystick_direction(&[119, 119]), low);
    assert_eq!(process_joystick_direction(&[120, 120]), center);
    assert_eq!(process_joystick_direction(&[139, 139]), center);
    assert_eq!(process_joystick_direction(&[140, 140]), high);
    assert_eq!(process_joystick_direction(&[255, 255]), high);
}

#[test]
fn joystick_zones_partition_byte_range() {
    for value in 0..=255u8 {
        let (horizontal, vertical) = process_joystick_direction(&[value, value]);
        if value < 120 {
            assert_eq!(
                (horizontal, vertical),
                (JoystickDirection::Left, JoystickDirection::Up)
            );
        } else if value < 140 {
            assert_eq!(
                (horizontal, vertical),
                (JoystickDirection::Center, JoystickDirection::Center)
            );
        } else {
            assert_eq!(
                (horizontal, vertical),
                (JoystickDirection::Right, JoystickDirection::Down)
            );
        }
    }
}

/// A numeric rank for the zones of one axis, low end to high end.
fn zone_rank(zone: JoystickDirection) -> u8 {
    match zone {
        JoystickDirection::Up | JoystickDirection::Left => 0,
        JoystickDirection::Center => 1,
        JoystickDirection::Down | JoystickDirection::Right => 2,
    }
}

#[test]
fn joystick_zones_monotonic() {
    let mut previous = (0u8, 0u8);
    for value in 1..=255u8 {
        let (horizontal, vertical) = process_joystick_direction(&[value, value]);
        let current = (zone_rank(horizontal), zone_rank(vertical));
        assert!(current.0 >= previous.0);
        assert!(current.1 >= previous.1);
        previous = current;
    }
}

#[test]
fn joystick_scenario_low_high() {
    assert_eq!(
        process_joystick_direction(&[10, 200]),
        (JoystickDirection::Left, JoystickDirection::Down)
    );
}

#[test]
fn joystick_scenario_resting_center() {
    assert_eq!(
        process_joystick_direction(&[130, 130]),
        (JoystickDirection::Center, JoystickDirection::Center)
    );
}
