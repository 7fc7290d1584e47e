use mem_reduct::hotkey::{
    decode, encode, fires, registration, start_outcome, HotkeyError, MOD_ALT_VAL,
    MOD_CONTROL_VAL, MOD_SHIFT_VAL, WM_HOTKEY,
};

#[test]
fn encode_decode_roundtrip() {
    let raw = encode(MOD_CONTROL_VAL, 0x71);
    let (mods, vk) = decode(raw);
    assert_eq!(mods, MOD_CONTROL_VAL);
    assert_eq!(vk, 0x71);
    assert_eq!(decode((0x0002u32 << 16) | 0x71), (MOD_CONTROL_VAL, 0x71));
}

#[test]
fn keyless_combination_is_rejected() {
    let err = registration(MOD_CONTROL_VAL, 0).err();
    assert_eq!(err, Some(HotkeyError::InvalidCombination));
}

#[test]
fn norepeat_bit_is_not_part_of_the_stored_encoding() {
    let raw = encode(MOD_CONTROL_VAL, 0x71);
    assert_eq!(decode(raw), (MOD_CONTROL_VAL, 0x71));
    assert_eq!(raw & 0xffff, 0x71);
}

#[test]
fn registration_maps_modifiers_and_always_adds_norepeat() {
    let r = registration(MOD_CONTROL_VAL | MOD_ALT_VAL | MOD_SHIFT_VAL, 0x7b).unwrap();
    assert!(r.alt && r.control && r.shift && !r.win && r.no_repeat);
    let r = registration(0, 0x41).unwrap();
    assert!(!r.alt && !r.control && !r.shift && !r.win && r.no_repeat);
}

#[test]
fn start_outcome_and_messages() {
    assert_eq!(start_outcome(Some(true)), Ok(()));
    assert_eq!(start_outcome(Some(false)), Err(HotkeyError::AlreadyInUse));
    assert_eq!(start_outcome(None), Err(HotkeyError::AlreadyInUse));
    assert_eq!(HotkeyError::AlreadyInUse.message(), "hotkey already in use");
    assert_eq!(HotkeyError::InvalidCombination.message(), "invalid hotkey combination");
    assert!(fires(WM_HOTKEY, 1, 1));
    assert!(!fires(WM_HOTKEY, 2, 1));
    assert!(!fires(0x0100, 1, 1));
}

#[test]
fn encode_keeps_sixteen_bits_of_each_part() {
    assert_eq!(encode(0x1_0002, 0x1_0071), 0x0002_0071);
    assert_eq!(decode(0xFFFF_FFFF), (0xFFFF, 0xFFFF));
}
