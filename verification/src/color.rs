use vstd::prelude::*;

verus! {

/// An 8-bit-per-channel colour.
#[derive(Clone, Copy, Debug, PartialEq, Eq, Structural)]
pub struct Rgba8 {
    pub r: u8,
    pub g: u8,
    pub b: u8,
    pub a: u8,
}

/// A hexadecimal digit, in either case.
pub open spec fn is_hex_digit(c: char) -> bool {
    ('0' <= c && c <= '9') || ('a' <= c && c <= 'f') || ('A' <= c && c <= 'F')
}

/// The value of a hexadecimal digit.
pub open spec fn hex_digit_value(c: char) -> int {
    if '0' <= c && c <= '9' {
        c as int - '0' as int
    } else if 'a' <= c && c <= 'f' {
        c as int - 'a' as int + 10
    } else {
        c as int - 'A' as int + 10
    }
}

/// `#rrggbb` or `#rrggbbaa`: a `#` and then six or eight hexadecimal digits
/// of either case, and nothing else.
pub open spec fn is_hex_color(s: Seq<char>) -> bool {
    &&& (s.len() == 7 || s.len() == 9)
    &&& s[0] == '#'
    &&& forall|i: int| 1 <= i < s.len() ==> is_hex_digit(#[trigger] s[i])
}

/// The byte written by the two hexadecimal digits at `i` and `i + 1`.
pub open spec fn hex_pair(s: Seq<char>, i: int) -> int {
    16 * hex_digit_value(s[i]) + hex_digit_value(s[i + 1])
}

/// The colour that a valid `#rrggbb` or `#rrggbbaa` string names; without
/// the alpha pair the colour is opaque.
pub open spec fn hex_color_value(s: Seq<char>) -> Rgba8 {
    Rgba8 {
        r: hex_pair(s, 1) as u8,
        g: hex_pair(s, 3) as u8,
        b: hex_pair(s, 5) as u8,
        a: if s.len() == 9 { hex_pair(s, 7) as u8 } else { 255u8 },
    }
}

fn hex_digit(c: char) -> (r: Option<u8>)
    ensures
        r is Some <==> is_hex_digit(c),
        r matches Some(v) ==> v as int == hex_digit_value(c) && v < 16,
{
    if '0' <= c && c <= '9' {
        Some((c as u32 - '0' as u32) as u8)
    } else if 'a' <= c && c <= 'f' {
        Some((c as u32 - 'a' as u32 + 10) as u8)
    } else if 'A' <= c && c <= 'F' {
        Some((c as u32 - 'A' as u32 + 10) as u8)
    } else {
        None
    }
}

/// Whether `s` is `#` followed by exactly six or eight hexadecimal digits.
pub fn is_valid_hex_color(s: &str) -> (r: bool)
    ensures
        r == is_hex_color(s@),
{
    let n = s.unicode_len();
    if n != 7 && n != 9 {
        return false;
    }
    if s.get_char(0) != '#' {
        return false;
    }
    let mut i: usize = 1;
    while i < n
        invariant
            n == s@.len(),
            1 <= i <= n,
            forall|j: int| 1 <= j < i ==> is_hex_digit(#[trigger] s@[j]),
        decreases n - i,
    {
        let c = s.get_char(i);
        if hex_digit(c).is_none() {
            return false;
        }
        i += 1;
    }
    true
}

fn hex_pair_at(s: &str, i: usize) -> (r: u8)
    requires
        is_hex_color(s@),
        1 <= i,
        i + 1 < s@.len(),
    ensures
        r as int == hex_pair(s@, i as int),
{
    let hi = hex_digit(s.get_char(i)).unwrap();
    let lo = hex_digit(s.get_char(i + 1)).unwrap();
    hi * 16 + lo
}

/// Reads a `#rrggbb` (opaque) or `#rrggbbaa` colour; the string must already
/// have passed [`is_valid_hex_color`].
pub fn parse_rrggbbaa(hex: &str) -> (color: Rgba8)
    requires
        is_hex_color(hex@),
    ensures
        color == hex_color_value(hex@),
{
    let n = hex.unicode_len();
    let r = hex_pair_at(hex, 1);
    let g = hex_pair_at(hex, 3);
    let b = hex_pair_at(hex, 5);
    let a = if n == 9 {
        hex_pair_at(hex, 7)
    } else {
        255u8
    };
    Rgba8 { r, g, b, a }
}

} // verus!
