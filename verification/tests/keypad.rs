use mainboard::keypad::{col_to_key, state_to_switches, switch_from_code, Key, KeyPad, Switch};

fn pressed(keys: &[Key]) -> Vec<Key> {
    keys.iter().copied().filter(|k| *k != Key::NONE).collect()
}

#[test]
fn an_idle_scan_yields_only_none() {
    let mut pad = KeyPad::new();
    let keys = pad.read([0; 9]);
    assert_eq!(keys.len(), 46);
    assert!(keys.iter().all(|k| *k == Key::NONE));
}

#[test]
fn scan_codes_round_trip_through_the_decoder() {
    assert_eq!(switch_from_code(0x01), Some(Switch::R0C1));
    assert_eq!(switch_from_code(0x11), Some(Switch::R1C1));
    assert_eq!(switch_from_code(0x13), Some(Switch::R1C3));
    assert_eq!(switch_from_code(0x85), Some(Switch::R8C5));
    // Codes no switch carries: the gaps of row 1 and the missing sixth
    // column of the bottom rows.
    assert_eq!(switch_from_code(0x12), None);
    assert_eq!(switch_from_code(0x16), None);
    assert_eq!(switch_from_code(0x56), None);
    assert_eq!(switch_from_code(0x86), None);
    assert_eq!(switch_from_code(0x00), None);
    assert_eq!(switch_from_code(0xFF), None);
}

#[test]
fn col_to_key_reads_one_matrix_position() {
    // Row 0, column bit 1 set: the first switch of the top row.
    assert_eq!(col_to_key(0x00, 0b000001, 1), Some(Switch::R0C1));
    // The bit is clear: nothing pressed at that position.
    assert_eq!(col_to_key(0x00, 0b000010, 1), None);
    // A mask that selects no column.
    assert_eq!(col_to_key(0x00, 0b111111, 3), None);
    // A position whose code names no switch.
    assert_eq!(col_to_key(0x10, 0b000010, 2), None);
}

#[test]
fn state_to_switches_collects_row_by_row() {
    let mut state = [0u8; 9];
    state[0] = 0b000001; // R0C1
    state[2] = 0b100000; // R2C6
    state[8] = 0b010000; // R8C5
    let switches = state_to_switches(state);
    assert_eq!(switches.len(), 46);
    assert_eq!(
        &switches[..3],
        &[Switch::R0C1, Switch::R2C6, Switch::R8C5]
    );
    assert!(switches[3..].iter().all(|s| *s == Switch::NONE));
}

#[test]
fn a_full_scan_never_overflows_the_table() {
    // Every column bit of every row set: exactly the 46 real switches.
    let switches = state_to_switches([0b111111; 9]);
    assert_eq!(switches.len(), 46);
    assert!(switches.iter().all(|s| *s != Switch::NONE));
}

#[test]
fn plain_keys_map_through_to_key() {
    assert_eq!(Switch::R0C1.to_key(), Key::Left);
    assert_eq!(Switch::R0C5.to_key(), Key::Okay);
    assert_eq!(Switch::R1C3.to_key(), Key::Power);
    assert_eq!(Switch::R5C1.to_key(), Key::Seven);
    assert_eq!(Switch::R8C5.to_key(), Key::EXE);
    assert_eq!(Switch::NONE.to_key(), Key::NONE);
}

#[test]
fn shift_keys_fall_back_outside_the_shift_band() {
    assert_eq!(Switch::R4C4.to_key_shift(), Key::Equals);
    assert_eq!(Switch::R2C2.to_key_shift(), Key::AlphaLock);
    assert_eq!(Switch::R3C5.to_key_shift(), Key::Underscore);
    // Not in the shift band: the plain key.
    assert_eq!(Switch::R0C1.to_key_shift(), Key::Left);
    assert_eq!(Switch::R5C1.to_key_shift(), Key::Seven);
}

#[test]
fn alpha_keys_fall_back_through_shift() {
    assert_eq!(Switch::R3C1.to_key_alpha(false), Key::A);
    assert_eq!(Switch::R7C4.to_key_alpha(true), Key::Z);
    assert_eq!(Switch::R8C2.to_key_alpha(false), Key::Exclamation);
    // Outside the letter band with shift held: the shift mapping.
    assert_eq!(Switch::R2C2.to_key_alpha(true), Key::AlphaLock);
    // Outside the letter band without shift: the plain mapping.
    assert_eq!(Switch::R0C2.to_key_alpha(false), Key::Up);
}

#[test]
fn keys_print_their_characters() {
    assert_eq!(Key::A.to_char(), 'a');
    assert_eq!(Key::Nine.to_char(), '9');
    assert_eq!(Key::Multiply.to_char(), '*');
    assert_eq!(Key::EXE.to_char(), '\n');
    assert_eq!(Key::Space.to_char(), ' ');
    assert_eq!(Key::Shift.to_char(), '\0');
    assert_eq!(Key::NONE.to_char(), '\0');
}

#[test]
fn shift_selects_the_shifted_band() {
    let mut pad = KeyPad::new();
    let mut state = [0u8; 9];
    state[2] = 0b000001; // shift switch R2C1
    state[4] = 0b001000; // R4C4
    let keys = pad.read(state);
    assert_eq!(pressed(&keys), vec![Key::Shift, Key::Equals]);
}

#[test]
fn alpha_selects_the_letter_band() {
    let mut pad = KeyPad::new();
    let mut state = [0u8; 9];
    state[2] = 0b000010; // alpha switch R2C2
    state[3] = 0b000001; // R3C1
    let keys = pad.read(state);
    assert_eq!(pressed(&keys), vec![Key::Alpha, Key::A]);
}

#[test]
fn shift_alpha_toggles_the_alpha_lock_once_per_press() {
    let mut pad = KeyPad::new();
    let mut state = [0u8; 9];
    state[2] = 0b000011; // shift and alpha held together
    let keys = pad.read(state);
    assert!(keys.contains(&Key::AlphaLock));

    // The lock is now on: a letter switch alone yields its letter.
    let mut letter = [0u8; 9];
    letter[3] = 0b000010; // R3C2
    let keys = pad.read(letter);
    assert_eq!(pressed(&keys), vec![Key::B]);

    // Holding the same chord across two scans toggles only once.
    let keys = pad.read(state);
    assert!(keys.contains(&Key::AlphaLock));
    let keys = pad.read(state);
    assert!(keys.contains(&Key::AlphaLock));
    // Released and pressed again: the lock goes off, letters stop.
    let _ = pad.read([0; 9]);
    let keys = pad.read(letter);
    assert_eq!(pressed(&keys), vec![Key::Ln]);
}
