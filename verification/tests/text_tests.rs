use exclude_from_capture::channel::channel_name;
use exclude_from_capture::text::str_to_u16_vec;
use exclude_from_capture::text::str_to_u16_vec_no_trailing_zero;

#[test]
fn ascii_converts_one_unit_per_character() {
    assert_eq!(str_to_u16_vec_no_trailing_zero("ab"), vec![97, 98]);
    assert_eq!(str_to_u16_vec_no_trailing_zero(""), Vec::<u16>::new());
}

#[test]
fn terminated_form_appends_exactly_one_zero() {
    assert_eq!(str_to_u16_vec("ab"), vec![97, 98, 0]);
    assert_eq!(str_to_u16_vec(""), vec![0]);
}

#[test]
fn supplementary_plane_character_becomes_a_surrogate_pair() {
    assert_eq!(str_to_u16_vec_no_trailing_zero("\u{1F600}"), vec![0xD83D, 0xDE00]);
    assert_eq!(str_to_u16_vec_no_trailing_zero("a\u{10000}"), vec![97, 0xD800, 0xDC00]);
}

#[test]
fn conversion_matches_the_standard_encoder() {
    for s in ["", "ab", "\u{1F600}x\u{10FFFF}", channel_name()] {
        let expected: Vec<u16> = s.encode_utf16().collect();
        assert_eq!(str_to_u16_vec_no_trailing_zero(s), expected);
    }
}

#[test]
fn channel_name_converts_to_the_expected_wide_string() {
    let wide = str_to_u16_vec(channel_name());
    assert_eq!(wide.len(), channel_name().len() + 1);
    assert_eq!(wide[0], b'\\' as u16);
    assert_eq!(*wide.last().unwrap(), 0);
}
