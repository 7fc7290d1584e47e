use mem_reduct::text::{decode_utf16_prefix, trim_chars, utf16_units};

#[test]
fn utf16_round_trip_on_examples() {
    for s in ["", "abc", "é€😀", "a\u{10FFFF}b"] {
        let chars: Vec<char> = s.chars().collect();
        let units = utf16_units(&chars);
        let expected: Vec<u16> = s.encode_utf16().collect();
        assert_eq!(units, expected);
        assert_eq!(decode_utf16_prefix(&units, units.len()), chars);
    }
}

#[test]
fn trimming_matches_str_trim() {
    for s in ["  a b  ", "\u{3000}x\u{a0}", "", "   ", "\tq\n"] {
        let chars: Vec<char> = s.chars().collect();
        let trimmed: String = trim_chars(&chars).into_iter().collect();
        assert_eq!(trimmed, s.trim());
    }
}
