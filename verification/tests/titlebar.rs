use mem_reduct::titlebar::{caption_settings, BORDER_COLOR, CAPTION_COLOR, TEXT_COLOR};

/// A CSS number component: a decimal, possibly fractional, rounded to the
/// nearest integer (what the caller hands the library for each `rgb()` part).
fn component_number(p: &str) -> Option<u32> {
    p.parse::<f64>().ok().map(|n| n.round() as u32)
}

fn parse_hex(value: &str) -> Option<u32> {
    mem_reduct::titlebar::parse_hex(value, component_number)
}

#[test]
fn parses_both_hex_and_rgb() {
    assert_eq!(parse_hex("#0a0e14"), Some(0x0014_0e0a));
    assert_eq!(parse_hex("0a0e14"), Some(0x0014_0e0a));
    assert_eq!(parse_hex("  #FFFFFF "), Some(0x00FF_FFFF));
    assert_eq!(parse_hex("rgb(255, 255, 255)"), Some(0x00FF_FFFF));
    assert_eq!(parse_hex("rgba(0, 0, 0, 0.5)"), Some(0));
}

#[test]
fn rejects_values_that_are_not_colours() {
    assert_eq!(parse_hex(""), None);
    assert_eq!(parse_hex("#12345"), None);
    assert_eq!(parse_hex("var(--bg-grad-1)"), None);
    assert_eq!(parse_hex("rgb(1,2)"), None);
}

#[test]
fn channel_order_is_colorref_not_rgb() {
    assert_eq!(parse_hex("#ff0000"), Some(0x0000_00ff));
    assert_eq!(parse_hex("#0000ff"), Some(0x00ff_0000));
}

#[test]
fn hex_edge_cases_follow_from_str_radix() {
    assert_eq!(parse_hex("+12345"), Some(0x0045_2301));
    assert_eq!(parse_hex("#-12345"), None);
    assert_eq!(parse_hex("##123456"), None);
    assert_eq!(parse_hex("12345g"), None);
    assert_eq!(parse_hex("é12345"), None);
}

#[test]
fn rgb_components_are_rounded_skipped_and_masked() {
    assert_eq!(parse_hex("rgb(1.6, x, 2, 3)"), Some(0x0003_0202));
    assert_eq!(parse_hex("rgb(256, 0, 0))"), Some(0));
    assert_eq!(parse_hex("rgb(,,)"), None);
}

#[test]
fn caption_attributes_in_order() {
    let v = caption_settings(true, Some(0x112233), Some(0x445566));
    let seen: Vec<(u32, u32, &str)> = v.iter().map(|s| (s.attribute, s.value, s.name)).collect();
    assert_eq!(
        seen,
        vec![
            (20, 1, "dark-mode"),
            (CAPTION_COLOR, 0x112233, "caption-color"),
            (BORDER_COLOR, 0x112233, "border-color"),
            (TEXT_COLOR, 0x445566, "text-color"),
        ]
    );
    let v = caption_settings(false, None, None);
    assert_eq!(v.len(), 1);
    assert_eq!(v[0].value, 0);
}
