use mem_reduct::registry::{reg_sz_bytes, registry_value, wide, StringWrite, APP_SUBKEY, REG_SZ};

#[test]
fn wide_string_is_nul_terminated() {
    assert_eq!(wide("ab"), vec![0x61, 0x62, 0x00]);
    assert_eq!(wide(""), vec![0x00]);
}

#[test]
fn app_subkey_matches_the_installer_layout() {
    assert_eq!(APP_SUBKEY, r"Software\memreduct\Mem Reduct");
}

#[test]
fn written_bytes_are_utf16le_with_the_nul() {
    assert_eq!(reg_sz_bytes("a€"), vec![0x61, 0x00, 0xac, 0x20, 0x00, 0x00]);
    assert_eq!(reg_sz_bytes("😀"), vec![0x3d, 0xd8, 0x00, 0xde, 0x00, 0x00]);
    let w = StringWrite { subkey: APP_SUBKEY, value: "v", data: "ok".to_string() };
    assert_eq!(w.bytes(), vec![0x6f, 0x00, 0x6b, 0x00, 0x00, 0x00]);
}

#[test]
fn a_read_gives_back_what_was_written() {
    for text in ["1031", "failed:权限不足", "😀 ok"] {
        let mut buf = vec![0xffffu16; 512];
        let units = wide(text);
        buf[..units.len()].copy_from_slice(&units);
        let len = (units.len() * 2) as u32;
        assert_eq!(registry_value(&buf, len, REG_SZ).as_deref(), Some(text));
    }
}

#[test]
fn reads_trim_nuls_clamp_and_treat_empty_as_absent() {
    let mut buf = vec![0u16; 4];
    buf[0] = 0x61;
    buf[1] = 0x62;
    assert_eq!(registry_value(&buf, 100, REG_SZ).as_deref(), Some("ab"));
    assert_eq!(registry_value(&buf, 2, REG_SZ).as_deref(), Some("a"));
    assert_eq!(registry_value(&buf, 0, REG_SZ), None);
    assert_eq!(registry_value(&vec![0u16, 0], 4, REG_SZ), None);
    // An unpaired surrogate becomes U+FFFD.
    assert_eq!(registry_value(&vec![0xd800u16, 0x61], 4, REG_SZ).as_deref(), Some("\u{fffd}a"));
}

#[test]
fn values_that_are_not_strings_read_as_absent() {
    // A REG_DWORD holding 1031: bytes 07 04 00 00.
    let mut buf = vec![0u16; 512];
    buf[0] = 0x0407;
    buf[1] = 0x0000;
    assert_eq!(registry_value(&buf, 4, 4), None);
    // REG_BINARY and REG_EXPAND_SZ are not plain strings either.
    assert_eq!(registry_value(&buf, 4, 3), None);
    assert_eq!(registry_value(&buf, 4, 2), None);
    assert_eq!(registry_value(&buf, 2, REG_SZ).as_deref(), Some("\u{407}"));
}
