use kb_hall::{
    decode_level, digital_levels, parse_analog_input, AnalogKeyboard, DEADZONE, FULL_TRAVEL,
};

/// Normalized pressure of a level.
fn pressure(level: u16) -> f32 {
    level as f32 / FULL_TRAVEL as f32
}

/// Level nearest to a normalized pressure.
fn level(pressure: f32) -> u16 {
    (pressure * FULL_TRAVEL as f32).round() as u16
}

#[test]
fn new_keyboard_initial_state() {
    let kb = AnalogKeyboard::new(0x1234, 0x5678);
    assert_eq!(kb.vid(), 0x1234);
    assert_eq!(kb.pid(), 0x5678);
    assert!(!kb.is_active());
    assert_eq!(kb.status(), "Starting...");
    assert_eq!(kb.values(), [0u16; 256]);
}

#[test]
fn set_and_read_values() {
    let mut kb = AnalogKeyboard::new(0, 0);
    let mut vals = [0u16; 256];
    vals[0x04] = level(0.75);
    vals[0x2C] = level(1.0);

    kb.set_values(&vals);

    assert_eq!(kb.value(0x04), level(0.75));
    assert_eq!(pressure(kb.value(0x2C)), 1.0);
    assert_eq!(pressure(kb.value(0x00)), 0.0);
    assert_eq!(kb.values()[0x04], level(0.75));
}

#[test]
fn set_values_overwrites_completely() {
    let mut kb = AnalogKeyboard::new(0, 0);
    let mut v1 = [0u16; 256];
    v1[10] = level(1.0);
    kb.set_values(&v1);

    let v2 = [0u16; 256];
    kb.set_values(&v2);

    assert_eq!(pressure(kb.value(10)), 0.0);
}

#[test]
fn parse_analog_valid_keypress() {
    let mut kb = AnalogKeyboard::new(0, 0);
    // tag 0xA0, two pad bytes, key 0x04, raw 0x0300 = 768
    let data = [0xA0, 0x00, 0x00, 0x04, 0x03, 0x00];
    parse_analog_input(&data, &mut kb);

    let v = pressure(kb.value(0x04));
    let expected = (768.0 - DEADZONE as f32) / FULL_TRAVEL as f32;
    assert!((v - expected).abs() < 0.001, "got {v}, expected ~{expected}");
}

#[test]
fn parse_analog_below_deadzone_is_zero() {
    let mut kb = AnalogKeyboard::new(0, 0);
    let data = [0xA0, 0x00, 0x00, 0x04, 0x00, 0x05];
    parse_analog_input(&data, &mut kb);
    assert_eq!(pressure(kb.value(0x04)), 0.0);
}

#[test]
fn parse_analog_at_deadzone_is_zero() {
    let mut kb = AnalogKeyboard::new(0, 0);
    let data = [0xA0, 0x00, 0x00, 0x04, 0x00, DEADZONE as u8];
    parse_analog_input(&data, &mut kb);
    assert_eq!(pressure(kb.value(0x04)), 0.0);
}

#[test]
fn parse_analog_clamped_to_one() {
    let mut kb = AnalogKeyboard::new(0, 0);
    let data = [0xA0, 0x00, 0x00, 0x10, 0xFF, 0xFF];
    parse_analog_input(&data, &mut kb);
    assert_eq!(pressure(kb.value(0x10)), 1.0);
}

#[test]
fn parse_analog_ignores_wrong_report_id() {
    let mut kb = AnalogKeyboard::new(0, 0);
    let data = [0x01, 0x00, 0x00, 0x04, 0x03, 0x00];
    parse_analog_input(&data, &mut kb);
    assert_eq!(pressure(kb.value(0x04)), 0.0);
    assert_eq!(kb.values(), [0u16; 256]);
}

#[test]
fn parse_analog_ignores_short_data() {
    let mut kb = AnalogKeyboard::new(0, 0);
    let data = [0xA0, 0x00, 0x00];
    parse_analog_input(&data, &mut kb);
    assert_eq!(kb.values(), [0u16; 256]);
}

#[test]
fn deadzone_readings_decode_to_zero() {
    for raw in 0..=DEADZONE {
        assert_eq!(decode_level(raw), 0);
    }
    assert_eq!(decode_level(DEADZONE + 1), 1);
}

#[test]
fn decode_exact_levels() {
    assert_eq!(decode_level(768), 758);
    assert!((pressure(decode_level(768)) - 0.4890).abs() < 0.001);
    assert_eq!(decode_level(1559), 1549);
    assert_eq!(decode_level(1560), FULL_TRAVEL);
    assert_eq!(decode_level(1561), FULL_TRAVEL);
    assert_eq!(decode_level(65535), FULL_TRAVEL);
}

#[test]
fn decode_is_non_decreasing_past_deadzone() {
    let mut last = decode_level(DEADZONE + 1);
    for raw in (DEADZONE + 2)..=2000 {
        let next = decode_level(raw);
        assert!(next >= last);
        last = next;
    }
}

#[test]
fn report_changes_only_its_key() {
    let mut kb = AnalogKeyboard::new(0, 0);
    let mut vals = [0u16; 256];
    vals[0x05] = 300;
    vals[0x10] = 700;
    kb.set_values(&vals);
    let data = [0xA0, 0x00, 0x00, 0x10, 0x01, 0x00, 0x99];
    parse_analog_input(&data, &mut kb);
    let mut expected = vals;
    expected[0x10] = 246;
    assert_eq!(kb.values(), expected);
}

#[test]
fn report_for_last_key() {
    let mut kb = AnalogKeyboard::new(0, 0);
    let data = [0xA0, 0x00, 0x00, 0xFF, 0x00, 0x20];
    parse_analog_input(&data, &mut kb);
    assert_eq!(kb.value(0xFF), 22);
}

#[test]
fn five_byte_report_is_ignored() {
    let mut kb = AnalogKeyboard::new(0, 0);
    let data = [0xA0, 0x00, 0x00, 0x04, 0x03];
    parse_analog_input(&data, &mut kb);
    assert_eq!(kb.values(), [0u16; 256]);
}

#[test]
fn set_values_leaves_no_residue() {
    let mut kb = AnalogKeyboard::new(7, 9);
    let mut v1 = [0u16; 256];
    for (i, v) in v1.iter_mut().enumerate() {
        *v = (i as u16) * 6;
    }
    kb.set_values(&v1);
    let mut v2 = [0u16; 256];
    v2[3] = FULL_TRAVEL;
    kb.set_values(&v2);
    for i in 0..=255u8 {
        assert_eq!(kb.value(i), v2[i as usize]);
    }
    assert_eq!(kb.vid(), 7);
    assert_eq!(kb.pid(), 9);
}

#[test]
fn status_and_active_setters() {
    let mut kb = AnalogKeyboard::new(0, 0);
    kb.set_active(true);
    kb.set_status("HTTP bind: refused");
    assert!(kb.is_active());
    assert_eq!(kb.status(), "HTTP bind: refused");
    kb.set_status_string(String::from("WS bind: refused"));
    assert_eq!(kb.status(), "WS bind: refused");
}

#[test]
fn pressed_keys_threshold() {
    let mut kb = AnalogKeyboard::new(0, 0);
    let mut vals = [0u16; 256];
    vals[1] = 15;
    vals[2] = 16;
    vals[3] = FULL_TRAVEL;
    kb.set_values(&vals);
    assert_eq!(kb.pressed_keys(), 2);
}

#[test]
fn digital_levels_full_or_zero() {
    let levels = digital_levels(&[0x04, 0x2C, 0x04]);
    assert_eq!(levels[0x04], FULL_TRAVEL);
    assert_eq!(levels[0x2C], FULL_TRAVEL);
    assert_eq!(levels.iter().filter(|&&l| l != 0).count(), 2);
    assert_eq!(digital_levels(&[]), [0u16; 256]);
}
