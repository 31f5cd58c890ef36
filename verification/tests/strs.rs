use auracle::strs::trim_str;

#[test]
fn trimming_drops_exactly_the_unicode_white_space() {
    for c in (0u32..0x3001).filter_map(char::from_u32) {
        let s = format!("{c}x{c}");
        assert_eq!(trim_str(&s), s.trim(), "code point {:#x}", c as u32);
    }
}
