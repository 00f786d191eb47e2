//! Colours written as text: `#RRGGBB` codes, one per line.

use vstd::prelude::*;
use vstd::utf8::encode_utf8;

verus! {

/// The line feed that ends a line.
pub const LINE_FEED: u8 = 0x0a;

/// The value of a hexadecimal digit, in either case.
pub open spec fn hex_value(c: u8) -> Option<i64> {
    if 0x30 <= c <= 0x39 {
        Some((c - 0x30) as i64)
    } else if 0x41 <= c <= 0x46 {
        Some((c - 0x41 + 10) as i64)
    } else if 0x61 <= c <= 0x66 {
        Some((c - 0x61 + 10) as i64)
    } else {
        None
    }
}

/// The number that two characters write in base 16: two digits, or a plus
/// or minus sign and one digit.
pub open spec fn pair_value(a: u8, b: u8) -> Option<i64> {
    match (hex_value(a), hex_value(b)) {
        (Some(hi), Some(lo)) => Some((16 * hi + lo) as i64),
        (None, Some(lo)) => if a == 0x2b {
            Some(lo)
        } else if a == 0x2d {
            Some((-lo) as i64)
        } else {
            None
        },
        _ => None,
    }
}

/// The colour that a code writes: the three pairs after its first
/// character. What follows the seventh character is not looked at.
pub open spec fn rgb_of(code: Seq<u8>) -> Option<(i64, i64, i64)> {
    if code.len() < 7 {
        None
    } else {
        match (pair_value(code[1], code[2]), pair_value(code[3], code[4]), pair_value(code[5], code[6])) {
            (Some(r), Some(g), Some(b)) => Some((r, g, b)),
            _ => None,
        }
    }
}

/// Where the line begins that holds position `k`, or that ends there.
pub open spec fn line_start(text: Seq<u8>, k: int) -> int
    decreases k,
{
    if k <= 0 {
        0
    } else if text[k - 1] == LINE_FEED {
        k
    } else {
        line_start(text, k - 1)
    }
}

/// The colours of the lines that end with a line feed before position
/// `n`, in order; nothing if one of those lines is not a colour code.
pub open spec fn ended_lines(text: Seq<u8>, n: int) -> Option<Seq<(i64, i64, i64)>>
    decreases n,
{
    if n <= 0 {
        Some(Seq::empty())
    } else if text[n - 1] != LINE_FEED {
        ended_lines(text, n - 1)
    } else {
        match (ended_lines(text, n - 1), rgb_of(text.subrange(line_start(text, n - 1), n - 1))) {
            (Some(before), Some(c)) => Some(before.push(c)),
            _ => None,
        }
    }
}

/// The colours of a palette text, one for each line, in order; nothing if
/// some line is not a colour code. A last line need not end with a line
/// feed, and a carriage return before a line feed makes no difference.
pub open spec fn palette_of(text: Seq<u8>) -> Option<Seq<(i64, i64, i64)>> {
    let n = text.len() as int;
    if line_start(text, n) == n {
        ended_lines(text, n)
    } else {
        match (ended_lines(text, n), rgb_of(text.subrange(line_start(text, n), n))) {
            (Some(before), Some(c)) => Some(before.push(c)),
            _ => None,
        }
    }
}

fn hex_digit_value(c: u8) -> (r: Option<i64>)
    ensures
        r == hex_value(c),
{
    if 0x30 <= c && c <= 0x39 {
        Some((c - 0x30) as i64)
    } else if 0x41 <= c && c <= 0x46 {
        Some((c - 0x41 + 10) as i64)
    } else if 0x61 <= c && c <= 0x66 {
        Some((c - 0x61 + 10) as i64)
    } else {
        None
    }
}

fn hex_pair_value(a: u8, b: u8) -> (r: Option<i64>)
    ensures
        r == pair_value(a, b),
{
    match (hex_digit_value(a), hex_digit_value(b)) {
        (Some(hi), Some(lo)) => Some(16 * hi + lo),
        (None, Some(lo)) => if a == 0x2b {
            Some(lo)
        } else if a == 0x2d {
            Some(-lo)
        } else {
            None
        },
        _ => None,
    }
}

/// Reads the colour code that stands in `text` from `start` up to `end`.
pub fn rgb_at(text: &[u8], start: usize, end: usize) -> (r: Option<(i64, i64, i64)>)
    requires
        start <= end <= text@.len(),
    ensures
        r == rgb_of(text@.subrange(start as int, end as int)),
{
    if end - start < 7 {
        return None;
    }
    let ghost code = text@.subrange(start as int, end as int);
    proof {
        assert(forall|k: int| 0 <= k < 7 ==> code[k] == text@[start + k]);
    }
    match (
        hex_pair_value(text[start + 1], text[start + 2]),
        hex_pair_value(text[start + 3], text[start + 4]),
        hex_pair_value(text[start + 5], text[start + 6]),
    ) {
        (Some(r), Some(g), Some(b)) => Some((r, g, b)),
        _ => None,
    }
}

/// Reads a colour code, each channel as the number its pair writes; nothing
/// if the text is not a colour code.
pub fn try_parse_rgb(s: &str) -> (r: Option<(i64, i64, i64)>)
    ensures
        r == rgb_of(encode_utf8(s@)),
{
    let text = s.as_bytes();
    proof {
        assert(text@.subrange(0, text@.len() as int) =~= text@);
    }
    rgb_at(text, 0, text.len())
}

/// Read color RGB vector from html string to 0..255.
pub fn parse_rgb_i64(s: &String) -> (r: (i64, i64, i64))
    requires
        rgb_of(encode_utf8(s@)) is Some,
    ensures
        Some(r) == rgb_of(encode_utf8(s@)),
{
    match try_parse_rgb(s.as_str()) {
        Some(c) => c,
        None => (0, 0, 0),
    }
}

/// Reads a palette, one colour code per line; nothing if some line is not
/// a colour code.
pub fn try_parse_palette(csv_colors: &str) -> (r: Option<Vec<(i64, i64, i64)>>)
    ensures
        r is Some == palette_of(encode_utf8(csv_colors@)).is_some(),
        r matches Some(list) ==> Some(list@) == palette_of(encode_utf8(csv_colors@)),
{
    let text = csv_colors.as_bytes();
    let n: usize = text.len();
    let mut list: Vec<(i64, i64, i64)> = Vec::new();
    let mut good: bool = true;
    let mut start: usize = 0;
    let mut i: usize = 0;
    while i < n
        invariant
            n == text@.len(),
            i <= n,
            start <= i,
            start == line_start(text@, i as int),
            good == ended_lines(text@, i as int).is_some(),
            good ==> Some(list@) == ended_lines(text@, i as int),
        decreases n - i,
    {
        if text[i] == LINE_FEED {
            match rgb_at(text, start, i) {
                Some(c) => {
                    if good {
                        list.push(c);
                    }
                },
                None => {
                    good = false;
                },
            }
            start = i + 1;
        }
        i += 1;
    }
    if start < n {
        match rgb_at(text, start, n) {
            Some(c) => {
                if good {
                    list.push(c);
                }
            },
            None => {
                good = false;
            },
        }
    }
    if good {
        Some(list)
    } else {
        None
    }
}

/// Generate palette info: the colours of a palette text, one per line.
pub fn parse_palette(csv_colors: &str) -> (list: Vec<(i64, i64, i64)>)
    requires
        palette_of(encode_utf8(csv_colors@)) is Some,
    ensures
        Some(list@) == palette_of(encode_utf8(csv_colors@)),
{
    match try_parse_palette(csv_colors) {
        Some(list) => list,
        None => Vec::new(),
    }
}

/// The upper-case hexadecimal digit for a value below 16.
pub open spec fn hex_digit(v: int) -> char {
    if v < 10 {
        ((0x30 + v) as u8) as char
    } else {
        ((0x37 + v) as u8) as char
    }
}

/// The colour code of three channel bytes: `#`, then two upper-case
/// hexadecimal digits for each of red, green and blue.
pub open spec fn hex_code(r: u8, g: u8, b: u8) -> Seq<char> {
    seq![
        '#',
        hex_digit(r as int / 16),
        hex_digit(r as int % 16),
        hex_digit(g as int / 16),
        hex_digit(g as int % 16),
        hex_digit(b as int / 16),
        hex_digit(b as int % 16),
    ]
}

/// Formats three bytes with the standard library's `format!`, each under
/// `{:02X}`: upper-case hexadecimal, padded with a zero to two digits.
/// The contract states that output; it is taken from the documentation of
/// `std::fmt`, not proved.
#[verifier::external_body]
fn format_rgb(r: u8, g: u8, b: u8) -> (s: String)
    ensures
        s@ == hex_code(r, g, b),
{
    format!("#{:02X}{:02X}{:02X}", r, g, b)
}

/// Convert from channel bytes to HTML color code.
pub fn rgbvec2string(c: (u8, u8, u8)) -> (s: String)
    ensures
        s@ == hex_code(c.0, c.1, c.2),
        s@.len() == 7,
{
    format_rgb(c.0, c.1, c.2)
}

} // verus!
