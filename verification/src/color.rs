//! Color conversions between `#rrggbb` hex strings and RGB byte triples.
//!
//! Parsing is lenient, as the dialog backends require: a channel whose two
//! characters are not both hex digits reads as 0, and any number of leading
//! `#` characters is accepted.  Parsing never fails.

use vstd::prelude::*;

verus! {

pub open spec fn is_hex_digit(c: char) -> bool {
    (48 <= c as u32 && c as u32 <= 57)  // '0' ..= '9'
    || (97 <= c as u32 && c as u32 <= 102)  // 'a' ..= 'f'
    || (65 <= c as u32 && c as u32 <= 70)  // 'A' ..= 'F'
}

pub open spec fn hex_digit_val(c: char) -> int {
    if 48 <= c as u32 && c as u32 <= 57 {
        c as u32 - 48
    } else if 97 <= c as u32 && c as u32 <= 102 {
        c as u32 - 97 + 10
    } else if 65 <= c as u32 && c as u32 <= 70 {
        c as u32 - 65 + 10
    } else {
        0
    }
}

/// Value of one color channel written as two characters; 0 unless both are
/// hex digits.
pub open spec fn channel_val(hi: char, lo: char) -> int {
    if is_hex_digit(hi) && is_hex_digit(lo) {
        16 * hex_digit_val(hi) + hex_digit_val(lo)
    } else {
        0
    }
}

/// The string with all leading `#` characters removed.
pub open spec fn strip_hashes(s: Seq<char>) -> Seq<char>
    decreases s.len(),
{
    if s.len() > 0 && s[0] == '#' {
        strip_hashes(s.drop_first())
    } else {
        s
    }
}

/// What `hex_to_rgb` returns: the three channel values read from the string
/// after its leading `#` characters.
pub open spec fn spec_hex_to_rgb(s: Seq<char>) -> Seq<u8> {
    let h = strip_hashes(s);
    seq![
        channel_val(h[0], h[1]) as u8,
        channel_val(h[2], h[3]) as u8,
        channel_val(h[4], h[5]) as u8,
    ]
}

/// The hex character for a value below 16.
pub open spec fn hex_char(n: int) -> char {
    if n == 0 { '0' } else if n == 1 { '1' } else if n == 2 { '2' }
    else if n == 3 { '3' } else if n == 4 { '4' } else if n == 5 { '5' }
    else if n == 6 { '6' } else if n == 7 { '7' } else if n == 8 { '8' }
    else if n == 9 { '9' } else if n == 10 { 'a' } else if n == 11 { 'b' }
    else if n == 12 { 'c' } else if n == 13 { 'd' } else if n == 14 { 'e' }
    else { 'f' }
}

/// A byte as two lowercase hex characters.
pub open spec fn hex_byte(b: u8) -> Seq<char> {
    seq![hex_char(b as int / 16), hex_char(b as int % 16)]
}

/// What `rgb_to_hex` returns: `#` followed by the six hex characters.
pub open spec fn spec_rgb_to_hex(rgb: Seq<u8>) -> Seq<char> {
    seq!['#'] + hex_byte(rgb[0]) + hex_byte(rgb[1]) + hex_byte(rgb[2])
}

pub proof fn lemma_strip_hashes_at(s: Seq<char>, a: int)
    requires
        0 <= a <= s.len(),
        forall|k: int| 0 <= k < a ==> s[k] == '#',
        a == s.len() || s[a] != '#',
    ensures
        strip_hashes(s) == s.subrange(a, s.len() as int),
    decreases a,
{
    if a == 0 {
        assert(s.subrange(0, s.len() as int) =~= s);
    } else {
        lemma_strip_hashes_at(s.drop_first(), a - 1);
        assert(s.drop_first().subrange(a - 1, s.drop_first().len() as int) =~= s.subrange(
            a,
            s.len() as int,
        ));
    }
}

fn is_hex_digit_exec(c: char) -> (r: bool)
    ensures
        r == is_hex_digit(c),
{
    let v = c as u32;
    (48 <= v && v <= 57) || (97 <= v && v <= 102) || (65 <= v && v <= 70)
}

/// Value of one channel from its two characters.
fn channel_exec(hi: char, lo: char) -> (r: u8)
    ensures
        r as int == channel_val(hi, lo),
{
    if is_hex_digit_exec(hi) && is_hex_digit_exec(lo) {
        let h = hi as u32;
        let l = lo as u32;
        let hv: u32 = if 48 <= h && h <= 57 {
            h - 48
        } else if 97 <= h && h <= 102 {
            h - 97 + 10
        } else {
            h - 65 + 10
        };
        let lv: u32 = if 48 <= l && l <= 57 {
            l - 48
        } else if 97 <= l && l <= 102 {
            l - 97 + 10
        } else {
            l - 65 + 10
        };
        (16 * hv + lv) as u8
    } else {
        0
    }
}

/// Whether the string opens with a `#`.
pub fn first_char_is_hash(s: &str) -> (r: bool)
    ensures
        r == (s@.len() > 0 && s@[0] == '#'),
{
    let len = s.unicode_len();
    len > 0 && s.get_char(0) == '#'
}

/// Whether at least six characters follow the leading `#` characters, so
/// that `hex_to_rgb` can read the string.
pub fn has_six_hex_chars(s: &str) -> (r: bool)
    ensures
        r == (strip_hashes(s@).len() >= 6),
{
    let len = s.unicode_len();
    let mut a: usize = 0;
    while a < len && s.get_char(a) == '#'
        invariant
            len == s@.len(),
            0 <= a <= len,
            forall|k: int| 0 <= k < a ==> s@[k] == '#',
        decreases len - a,
    {
        a = a + 1;
    }
    proof {
        lemma_strip_hashes_at(s@, a as int);
    }
    len - a >= 6
}

/// Read a `#rrggbb` string (any number of leading `#` accepted, hex digits
/// in either case) into its RGB triple.  A channel with a bad digit reads
/// as 0.
pub fn hex_to_rgb(hex: &str) -> (rgb: [u8; 3])
    requires
        strip_hashes(hex@).len() >= 6,
    ensures
        rgb@ == spec_hex_to_rgb(hex@),
{
    let len = hex.unicode_len();
    let mut a: usize = 0;
    while a < len && hex.get_char(a) == '#'
        invariant
            len == hex@.len(),
            0 <= a <= len,
            strip_hashes(hex@).len() >= 6,
            forall|k: int| 0 <= k < a ==> hex@[k] == '#',
        decreases len - a,
    {
        a = a + 1;
    }
    proof {
        lemma_strip_hashes_at(hex@, a as int);
    }
    let r = channel_exec(hex.get_char(a), hex.get_char(a + 1));
    let g = channel_exec(hex.get_char(a + 2), hex.get_char(a + 3));
    let b = channel_exec(hex.get_char(a + 4), hex.get_char(a + 5));
    let rgb = [r, g, b];
    proof {
        let h = strip_hashes(hex@);
        assert(h[0] == hex@[a as int]);
        assert(h[1] == hex@[a + 1]);
        assert(h[2] == hex@[a + 2]);
        assert(h[3] == hex@[a + 3]);
        assert(h[4] == hex@[a + 4]);
        assert(h[5] == hex@[a + 5]);
        assert(rgb@ =~= spec_hex_to_rgb(hex@));
    }
    rgb
}

fn hex_char_str(n: u8) -> (r: &'static str)
    requires
        n < 16,
    ensures
        r@ == seq![hex_char(n as int)],
{
    proof {
        reveal_strlit("0");
        reveal_strlit("1");
        reveal_strlit("2");
        reveal_strlit("3");
        reveal_strlit("4");
        reveal_strlit("5");
        reveal_strlit("6");
        reveal_strlit("7");
        reveal_strlit("8");
        reveal_strlit("9");
        reveal_strlit("a");
        reveal_strlit("b");
        reveal_strlit("c");
        reveal_strlit("d");
        reveal_strlit("e");
        reveal_strlit("f");
    }
    match n {
        0 => "0",
        1 => "1",
        2 => "2",
        3 => "3",
        4 => "4",
        5 => "5",
        6 => "6",
        7 => "7",
        8 => "8",
        9 => "9",
        10 => "a",
        11 => "b",
        12 => "c",
        13 => "d",
        14 => "e",
        _ => "f",
    }
}

/// Render an RGB triple as `#rrggbb` with lowercase hex digits.
pub fn rgb_to_hex(rgb: &[u8; 3]) -> (s: String)
    ensures
        s@ == spec_rgb_to_hex(rgb@),
{
    proof {
        reveal_strlit("#");
    }
    let mut s = String::from_str("#");
    s.append(hex_char_str(rgb[0] / 16));
    s.append(hex_char_str(rgb[0] % 16));
    s.append(hex_char_str(rgb[1] / 16));
    s.append(hex_char_str(rgb[1] % 16));
    s.append(hex_char_str(rgb[2] / 16));
    s.append(hex_char_str(rgb[2] % 16));
    proof {
        assert(s@ =~= spec_rgb_to_hex(rgb@));
    }
    s
}

proof fn lemma_hex_char_props(n: int)
    requires
        0 <= n < 16,
    ensures
        is_hex_digit(hex_char(n)),
        hex_digit_val(hex_char(n)) == n,
        hex_char(n) != '#',
{
}

/// Rendering an RGB triple as hex and parsing it back returns the same
/// triple.
pub proof fn lemma_hex_rgb_round_trip(rgb: Seq<u8>)
    requires
        rgb.len() == 3,
    ensures
        spec_hex_to_rgb(spec_rgb_to_hex(rgb)) == rgb,
{
    let s = spec_rgb_to_hex(rgb);
    assert(s.len() == 7);
    assert forall|n: int| 0 <= n < 16 implies is_hex_digit(hex_char(n)) && hex_digit_val(
        hex_char(n),
    ) == n && hex_char(n) != '#' by {
        lemma_hex_char_props(n);
    }
    assert(s[0] == '#');
    assert(s[1] == hex_char(rgb[0] as int / 16));
    assert(s[1] != '#');
    lemma_strip_hashes_at(s, 1);
    let h = strip_hashes(s);
    assert(h =~= s.subrange(1, 7));
    assert(h[0] == hex_char(rgb[0] as int / 16));
    assert(h[1] == hex_char(rgb[0] as int % 16));
    assert(h[2] == hex_char(rgb[1] as int / 16));
    assert(h[3] == hex_char(rgb[1] as int % 16));
    assert(h[4] == hex_char(rgb[2] as int / 16));
    assert(h[5] == hex_char(rgb[2] as int % 16));
    assert(channel_val(h[0], h[1]) == rgb[0] as int);
    assert(channel_val(h[2], h[3]) == rgb[1] as int);
    assert(channel_val(h[4], h[5]) == rgb[2] as int);
    assert(spec_hex_to_rgb(s) =~= rgb);
}

} // verus!
