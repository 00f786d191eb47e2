use reduction_view::palette::{
    parse_palette, parse_rgb_i64, rgb_at, rgbvec2string, try_parse_palette, try_parse_rgb,
};

#[test]
fn rgb_code_is_read_pair_by_pair() {
    assert_eq!(parse_rgb_i64(&"#FF0080".to_string()), (255, 0, 128));
    assert_eq!(parse_rgb_i64(&"#1f77b4".to_string()), (31, 119, 180));
    assert_eq!(parse_rgb_i64(&"#000000".to_string()), (0, 0, 0));
    assert_eq!(parse_rgb_i64(&"xAbCdEf trailing".to_string()), (171, 205, 239));
    assert_eq!(try_parse_rgb("#0A0b0C"), Some((10, 11, 12)));
}

#[test]
fn rgb_code_agrees_with_radix_parsing() {
    for code in ["#FF0080", "#+1-2+F", "#-0+0-f", "#G00000", "#12345", "", "#12 456", "#é12345", "#0x1234", "#++1234"] {
        let expected = match (code.get(1..3), code.get(3..5), code.get(5..7)) {
            (Some(r), Some(g), Some(b)) => {
                match (i64::from_str_radix(r, 16), i64::from_str_radix(g, 16), i64::from_str_radix(b, 16)) {
                    (Ok(r), Ok(g), Ok(b)) => Some((r, g, b)),
                    _ => None,
                }
            }
            _ => None,
        };
        assert_eq!(try_parse_rgb(code), expected, "{}", code);
    }
    assert_eq!(try_parse_rgb("#+1-2+F"), Some((1, -2, 15)));
}

#[test]
fn rgb_code_rejects_malformed_text() {
    assert_eq!(try_parse_rgb(""), None);
    assert_eq!(try_parse_rgb("#12345"), None);
    assert_eq!(try_parse_rgb("#12345G"), None);
    assert_eq!(try_parse_rgb("#1234\r\n"), None);
    assert_eq!(rgb_at("ab#102030cd".as_bytes(), 2, 9), Some((16, 32, 48)));
    assert_eq!(rgb_at("ab#102030cd".as_bytes(), 2, 8), None);
}

#[test]
fn palette_has_one_color_per_line() {
    assert_eq!(parse_palette("#FF0000\n#00FF00\n#0000FF\n"), vec![(255, 0, 0), (0, 255, 0), (0, 0, 255)]);
    assert_eq!(parse_palette("#FF0000\n#00FF00"), vec![(255, 0, 0), (0, 255, 0)]);
    assert_eq!(parse_palette("#FF0000\r\n#00FF00\r\n"), vec![(255, 0, 0), (0, 255, 0)]);
    assert_eq!(parse_palette(""), Vec::<(i64, i64, i64)>::new());
    assert_eq!(try_parse_palette("#010203"), Some(vec![(1, 2, 3)]));
}

#[test]
fn palette_with_a_bad_line_is_rejected() {
    assert_eq!(try_parse_palette("#FF0000\n\n#00FF00\n"), None);
    assert_eq!(try_parse_palette("#FF0000\nred\n"), None);
    assert_eq!(try_parse_palette("\n"), None);
    assert_eq!(try_parse_palette("#FF0000\n#00FF0"), None);
    assert_eq!(try_parse_palette("#FF000\n#00FF00"), None);
}

#[test]
fn color_code_is_upper_case_hex() {
    assert_eq!(rgbvec2string((255, 0, 171)), "#FF00AB");
    assert_eq!(rgbvec2string((0, 0, 0)), "#000000");
    assert_eq!(rgbvec2string((1, 16, 9)), "#011009");
    assert_eq!(parse_rgb_i64(&rgbvec2string((18, 52, 255))), (18, 52, 255));
}
