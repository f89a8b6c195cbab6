//! The default color palette and the hex parsing that builds it.
//!
//! A color holds four 8-bit channels.  Palette entries are written as hex
//! strings: an optional `#`, then three digit pairs, and an optional
//! fourth pair for alpha.

use vstd::prelude::*;

verus! {

/// A color with four channels, each in `0..=255`.
#[derive(Debug, Clone, Copy, PartialEq, Eq, Structural)]
pub struct Rgba {
    pub r: u8,
    pub g: u8,
    pub b: u8,
    pub a: u8,
}

/// Whether `c` is a hexadecimal digit.
pub open spec fn is_hex_digit(c: char) -> bool {
    ('0' as int <= c as int && c as int <= '9' as int) || ('a' as int <= c as int && c as int
        <= 'f' as int) || ('A' as int <= c as int && c as int <= 'F' as int)
}

/// The numeric value of a hexadecimal digit.
pub open spec fn spec_hex_digit(c: char) -> int {
    if '0' as int <= c as int && c as int <= '9' as int {
        c as int - '0' as int
    } else if 'a' as int <= c as int && c as int <= 'f' as int {
        c as int - 'a' as int + 10
    } else {
        c as int - 'A' as int + 10
    }
}

/// Sixteen to the power `n`.
pub open spec fn pow16(n: nat) -> int
    decreases n,
{
    if n == 0 {
        1
    } else {
        16 * pow16((n - 1) as nat)
    }
}

/// The base-16 value of a digit string: the digit at distance `d` from
/// the right end is weighted by `16^d`.
pub open spec fn spec_parse_hex(s: Seq<char>) -> int
    decreases s.len(),
{
    if s.len() == 0 {
        0
    } else {
        spec_hex_digit(s[0]) * pow16((s.len() - 1) as nat) + spec_parse_hex(
            s.subrange(1, s.len() as int),
        )
    }
}

proof fn lemma_pow16_pos(n: nat)
    ensures
        pow16(n) >= 1,
    decreases n,
{
    if n > 0 {
        lemma_pow16_pos((n - 1) as nat);
    }
}

proof fn lemma_pow16_mono(a: nat, b: nat)
    requires
        a <= b,
    ensures
        pow16(a) <= pow16(b),
    decreases b,
{
    if a < b {
        lemma_pow16_mono(a, (b - 1) as nat);
        lemma_pow16_pos((b - 1) as nat);
    }
}

proof fn lemma_parse_hex_push(s: Seq<char>, c: char)
    ensures
        spec_parse_hex(s.push(c)) == 16 * spec_parse_hex(s) + spec_hex_digit(c),
    decreases s.len(),
{
    if s.len() == 0 {
        assert(s.push(c)[0] == c);
        assert(s.push(c).subrange(1, 1) =~= Seq::<char>::empty());
        assert(spec_parse_hex(Seq::<char>::empty()) == 0);
        assert(pow16(0) == 1);
        assert(spec_parse_hex(s) == 0);
        assert(spec_parse_hex(s.push(c)) == spec_hex_digit(c) * pow16(0) + spec_parse_hex(
            s.push(c).subrange(1, 1),
        ));
    } else {
        let n = s.len() as int;
        let tail = s.subrange(1, n);
        assert(s.push(c).subrange(1, n + 1) =~= tail.push(c));
        lemma_parse_hex_push(tail, c);
        let d0 = spec_hex_digit(s[0]);
        let p = pow16((s.len() - 1) as nat);
        assert(s.push(c)[0] == s[0]);
        assert(pow16(s.len()) == 16 * p);
        assert(d0 * (16 * p) == 16 * (d0 * p)) by (nonlinear_arith);
        assert(spec_parse_hex(s.push(c)) == d0 * (16 * p) + spec_parse_hex(tail.push(c)));
        assert(spec_parse_hex(s) == d0 * p + spec_parse_hex(tail));
        assert(spec_parse_hex(tail.push(c)) == 16 * spec_parse_hex(tail) + spec_hex_digit(c));
        assert(16 * spec_parse_hex(s) == 16 * (d0 * p) + 16 * spec_parse_hex(tail));
    }
}

/// The base-16 value of an all-digit string stays below `16^len`.
proof fn lemma_parse_hex_bound(s: Seq<char>)
    requires
        forall|i: int| 0 <= i < s.len() ==> is_hex_digit(#[trigger] s[i]),
    ensures
        0 <= spec_parse_hex(s) <= pow16(s.len()) - 1,
    decreases s.len(),
{
    if s.len() > 0 {
        let tail = s.subrange(1, s.len() as int);
        lemma_parse_hex_bound(tail);
        lemma_pow16_pos((s.len() - 1) as nat);
        let d0 = spec_hex_digit(s[0]);
        let p = pow16((s.len() - 1) as nat);
        assert(0 <= d0 <= 15);
        assert(pow16(s.len()) == 16 * p);
        assert(0 <= d0 * p && d0 * p <= 15 * p) by (nonlinear_arith)
            requires
                0 <= d0 <= 15,
                p >= 1,
        ;
        assert(tail.len() == s.len() - 1);
        assert(spec_parse_hex(tail) <= p - 1);
    }
}

/// The value of one hexadecimal digit character.
pub fn parse_hex_digit(digit: char) -> (r: u32)
    requires
        is_hex_digit(digit),
    ensures
        r == spec_hex_digit(digit),
        r <= 15,
{
    match digit {
        '0' => 0,
        '1' => 1,
        '2' => 2,
        '3' => 3,
        '4' => 4,
        '5' => 5,
        '6' => 6,
        '7' => 7,
        '8' => 8,
        '9' => 9,
        'a' => 10,
        'b' => 11,
        'c' => 12,
        'd' => 13,
        'e' => 14,
        'f' => 15,
        'A' => 10,
        'B' => 11,
        'C' => 12,
        'D' => 13,
        'E' => 14,
        'F' => 15,
        _ => vstd::pervasive::unreached(),
    }
}

/// Parses a string of hexadecimal digits as a base-16 number.
pub fn parse_hex(hex: &str) -> (r: u32)
    requires
        hex@.len() <= 8,
        forall|i: int| 0 <= i < hex@.len() ==> is_hex_digit(#[trigger] hex@[i]),
    ensures
        r == spec_parse_hex(hex@),
{
    let n = hex.unicode_len();
    let mut acc: u32 = 0;
    proof {
        assert(hex@.subrange(0, 0) =~= Seq::<char>::empty());
    }
    for i in 0..n
        invariant
            n == hex@.len(),
            n <= 8,
            forall|j: int| 0 <= j < hex@.len() ==> is_hex_digit(#[trigger] hex@[j]),
            acc == spec_parse_hex(hex@.subrange(0, i as int)),
            acc <= pow16(i as nat) - 1,
    {
        let c = hex.get_char(i);
        let d = parse_hex_digit(c);
        proof {
            lemma_parse_hex_push(hex@.subrange(0, i as int), c);
            assert(hex@.subrange(0, i as int).push(c) =~= hex@.subrange(0, i + 1));
            lemma_pow16_mono(i as nat, 7);
            assert(pow16(7) == 0x10000000) by {
                assert(pow16(0) == 1);
                assert(pow16(1) == 0x10);
                assert(pow16(2) == 0x100);
                assert(pow16(3) == 0x1000);
                assert(pow16(4) == 0x10000);
                assert(pow16(5) == 0x100000);
                assert(pow16(6) == 0x1000000);
            }
            assert(pow16((i + 1) as nat) == 16 * pow16(i as nat));
        }
        acc = acc * 16 + d;
    }
    proof {
        assert(hex@.subrange(0, n as int) =~= hex@);
    }
    acc
}

/// The position where the digits of a hex color string start: past a
/// leading `#` when one is present.
pub open spec fn hex_digits_start(s: Seq<char>) -> int {
    if s.len() > 0 && s[0] == '#' {
        1
    } else {
        0
    }
}

/// The color denoted by a hex string: an optional `#`, three digit pairs,
/// and an optional fourth pair for alpha (255 when absent).
pub open spec fn spec_parse_hex_color(s: Seq<char>) -> Rgba {
    let k = hex_digits_start(s);
    Rgba {
        r: spec_parse_hex(s.subrange(k, k + 2)) as u8,
        g: spec_parse_hex(s.subrange(k + 2, k + 4)) as u8,
        b: spec_parse_hex(s.subrange(k + 4, k + 6)) as u8,
        a: if s.len() - k >= 8 {
            spec_parse_hex(s.subrange(k + 6, k + 8)) as u8
        } else {
            255
        },
    }
}

/// Whether a hex color string is well formed: after an optional leading
/// `#` it holds exactly six or eight hexadecimal digits.
pub open spec fn valid_hex_color(s: Seq<char>) -> bool {
    let k = hex_digits_start(s);
    (s.len() - k == 6 || s.len() - k == 8) && forall|i: int|
        hex_digits_start(s) <= i < s.len() ==> is_hex_digit(#[trigger] s[i])
}

/// Parses a hex color string into a color.
pub fn parse_hex_color(hex: &str) -> (r: Rgba)
    requires
        valid_hex_color(hex@),
    ensures
        r == spec_parse_hex_color(hex@),
{
    let ghost k = hex_digits_start(hex@);
    proof {
        assert(vstd::utf8::is_ascii_chars(hex@)) by {
            assert forall|i: int| 0 <= i < hex@.len() implies (hex@[i] as nat) < 128 by {
                if i >= k {
                    assert(is_hex_digit(hex@[i]));
                } else {
                    assert(hex@[i] == '#');
                }
            }
        }
    }
    let n = hex.unicode_len();
    let start: usize = if n > 0 && hex.get_char(0) == '#' {
        1
    } else {
        0
    };
    let r_part = hex.substring_ascii(start, start + 2);
    let g_part = hex.substring_ascii(start + 2, start + 4);
    let b_part = hex.substring_ascii(start + 4, start + 6);
    proof {
        assert forall|j: int| 0 <= j < 2 implies is_hex_digit(#[trigger] r_part@[j]) by {
            assert(r_part@[j] == hex@[k + j]);
        }
        assert forall|j: int| 0 <= j < 2 implies is_hex_digit(#[trigger] g_part@[j]) by {
            assert(g_part@[j] == hex@[k + 2 + j]);
        }
        assert forall|j: int| 0 <= j < 2 implies is_hex_digit(#[trigger] b_part@[j]) by {
            assert(b_part@[j] == hex@[k + 4 + j]);
        }
        lemma_parse_hex_bound(hex@.subrange(k, k + 2));
        lemma_parse_hex_bound(hex@.subrange(k + 2, k + 4));
        lemma_parse_hex_bound(hex@.subrange(k + 4, k + 6));
        assert(pow16(2) == 256) by {
            assert(pow16(0) == 1);
            assert(pow16(1) == 16);
        }
    }
    let r = parse_hex(r_part);
    let g = parse_hex(g_part);
    let b = parse_hex(b_part);
    let a = if n >= start + 8 {
        let a_part = hex.substring_ascii(start + 6, start + 8);
        proof {
            assert forall|j: int| 0 <= j < 2 implies is_hex_digit(#[trigger] a_part@[j]) by {
                assert(a_part@[j] == hex@[k + 6 + j]);
            }
            lemma_parse_hex_bound(hex@.subrange(k + 6, k + 8));
        }
        parse_hex(a_part)
    } else {
        255
    };
    Rgba { r: r as u8, g: g as u8, b: b as u8, a: a as u8 }
}

/// The ten palette colors, in assignment order.
pub open spec fn palette_spec() -> Seq<Rgba> {
    seq![
        spec_parse_hex_color("1f77b4"@),
        spec_parse_hex_color("ff7f0e"@),
        spec_parse_hex_color("2ca02c"@),
        spec_parse_hex_color("d62728"@),
        spec_parse_hex_color("9467bd"@),
        spec_parse_hex_color("8c564b"@),
        spec_parse_hex_color("e377c2"@),
        spec_parse_hex_color("7f7f7f"@),
        spec_parse_hex_color("bcbd22"@),
        spec_parse_hex_color("17becf"@),
    ]
}

/// Builds the default ten-color palette.
pub fn generate_palette() -> (r: Vec<Rgba>)
    ensures
        r@ == palette_spec(),
{
    proof {
        reveal_strlit("1f77b4");
        reveal_strlit("ff7f0e");
        reveal_strlit("2ca02c");
        reveal_strlit("d62728");
        reveal_strlit("9467bd");
        reveal_strlit("8c564b");
        reveal_strlit("e377c2");
        reveal_strlit("7f7f7f");
        reveal_strlit("bcbd22");
        reveal_strlit("17becf");
    }
    let mut colors: Vec<Rgba> = Vec::new();
    colors.push(parse_hex_color("1f77b4"));
    colors.push(parse_hex_color("ff7f0e"));
    colors.push(parse_hex_color("2ca02c"));
    colors.push(parse_hex_color("d62728"));
    colors.push(parse_hex_color("9467bd"));
    colors.push(parse_hex_color("8c564b"));
    colors.push(parse_hex_color("e377c2"));
    colors.push(parse_hex_color("7f7f7f"));
    colors.push(parse_hex_color("bcbd22"));
    colors.push(parse_hex_color("17becf"));
    proof {
        assert(colors@ =~= palette_spec());
    }
    colors
}

/// The fixed ordered color palette consumed during chart building.
#[derive(Debug)]
pub struct Palette {
    pub colors: Vec<Rgba>,
}

impl core::default::Default for Palette {
    /// The default ten-color palette.
    fn default() -> (r: Self)
        ensures
            r.colors@ == palette_spec(),
    {
        Palette { colors: generate_palette() }
    }
}

impl Palette {
    /// An iterator over the palette colors, in order.
    pub fn iter(self) -> (r: PaletteIter)
        ensures
            r.palette.colors@ == self.colors@,
            r.i == 0,
    {
        PaletteIter::from(self)
    }
}

/// A cursor over a palette: yields each color once, in order, then `None`.
#[derive(Debug)]
pub struct PaletteIter {
    pub palette: Palette,
    pub i: usize,
}

impl PaletteIter {
    /// A cursor positioned at the first color.
    pub fn from(value: Palette) -> (r: Self)
        ensures
            r.palette.colors@ == value.colors@,
            r.i == 0,
    {
        PaletteIter { palette: value, i: 0 }
    }

    /// The next palette color, or `None` once the palette is exhausted.
    pub fn next(&mut self) -> (r: Option<Rgba>)
        ensures
            final(self).palette.colors@ == old(self).palette.colors@,
            old(self).i < old(self).palette.colors@.len() ==> r == Some(
                old(self).palette.colors@[old(self).i as int],
            ) && final(self).i == old(self).i + 1,
            old(self).i >= old(self).palette.colors@.len() ==> r == None::<Rgba> && final(self).i
                == old(self).i,
    {
        if self.i < self.palette.colors.len() {
            let c = self.palette.colors[self.i];
            self.i = self.i + 1;
            Some(c)
        } else {
            None
        }
    }
}

} // verus!
