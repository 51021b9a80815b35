//! Darker shades of a button colour.

use vstd::prelude::*;
use crate::text::{all_digits, digit_value, digits_value, parse_i64_radix, parsed_i64};

verus! {

/// The text without its leading `#` characters.
pub open spec fn without_hashes(s: Seq<char>) -> Seq<char>
    decreases s.len(),
{
    if s.len() > 0 && s[0] == '#' {
        without_hashes(s.drop_first())
    } else {
        s
    }
}

/// The red channel of a number read as `0xRRGGBB`: its third byte from
/// below, in two's complement.
pub open spec fn red(rgb: i64) -> i32 {
    ((rgb >> 16) & 0xff) as i32
}

/// The green channel of a number read as `0xRRGGBB`: its second byte.
pub open spec fn green(rgb: i64) -> i32 {
    ((rgb >> 8) & 0xff) as i32
}

/// The blue channel of a number read as `0xRRGGBB`: its lowest byte.
pub open spec fn blue(rgb: i64) -> i32 {
    (rgb & 0xff) as i32
}

/// Integer division rounding towards zero, as Rust divides.
pub open spec fn div_toward_zero(a: int, b: int) -> int {
    if a >= 0 {
        a / b
    } else {
        -((-a) / b)
    }
}

/// A channel darkened by `percent` percent, kept within `0..=255`.
pub open spec fn darkened(v: int, percent: int) -> int {
    let d = v - div_toward_zero(v * percent, 100);
    if d < 0 {
        0
    } else if d > 255 {
        255
    } else {
        d
    }
}

/// The lower-case hexadecimal digit of a value below sixteen.
pub open spec fn hex_digit(d: int) -> char {
    if d == 0 {
        '0'
    } else if d == 1 {
        '1'
    } else if d == 2 {
        '2'
    } else if d == 3 {
        '3'
    } else if d == 4 {
        '4'
    } else if d == 5 {
        '5'
    } else if d == 6 {
        '6'
    } else if d == 7 {
        '7'
    } else if d == 8 {
        '8'
    } else if d == 9 {
        '9'
    } else if d == 10 {
        'a'
    } else if d == 11 {
        'b'
    } else if d == 12 {
        'c'
    } else if d == 13 {
        'd'
    } else if d == 14 {
        'e'
    } else {
        'f'
    }
}

/// A byte as two lower-case hexadecimal digits.
pub open spec fn hex_byte(v: int) -> Seq<char> {
    seq![hex_digit(v / 16), hex_digit(v % 16)]
}

/// Whether darkening the channels of `rgb` by `percent` stays within `i32`.
pub open spec fn darkening_fits(rgb: i64, percent: i32) -> bool {
    &&& i32::MIN <= red(rgb) * percent <= i32::MAX
    &&& i32::MIN <= green(rgb) * percent <= i32::MAX
    &&& i32::MIN <= blue(rgb) * percent <= i32::MAX
}

/// The colour `#rrggbb` darkened by `percent` percent, each channel kept
/// within `0..=255`; a colour that is not hexadecimal comes back without its
/// leading `#` characters.
pub open spec fn darker_color(color: Seq<char>, percent: int) -> Seq<char> {
    let body = without_hashes(color);
    match parsed_i64(body, 16) {
        Some(v) => {
            let rgb = v as i64;
            seq!['#'] + hex_byte(darkened(red(rgb) as int, percent)) + hex_byte(
                darkened(green(rgb) as int, percent),
            ) + hex_byte(darkened(blue(rgb) as int, percent))
        },
        None => body,
    }
}

fn hex_char(d: i32) -> (c: char)
    requires
        0 <= d < 16,
    ensures
        c == hex_digit(d as int),
{
    match d {
        0 => '0',
        1 => '1',
        2 => '2',
        3 => '3',
        4 => '4',
        5 => '5',
        6 => '6',
        7 => '7',
        8 => '8',
        9 => '9',
        10 => 'a',
        11 => 'b',
        12 => 'c',
        13 => 'd',
        14 => 'e',
        _ => 'f',
    }
}

fn push_hex_byte(s: &mut String, v: i32)
    requires
        0 <= v <= 255,
    ensures
        final(s)@ == old(s)@ + hex_byte(v as int),
{
    s.push(hex_char(v / 16));
    s.push(hex_char(v % 16));
    assert(s@ =~= old(s)@ + hex_byte(v as int));
}

fn darken(v: i32, percent: i32) -> (r: i32)
    requires
        0 <= v <= 255,
        i32::MIN <= v * percent <= i32::MAX,
    ensures
        r == darkened(v as int, percent as int),
{
    let product: i64 = v as i64 * percent as i64;
    let q: i64 = if product >= 0 {
        product / 100
    } else {
        0 - ((0 - product) / 100)
    };
    let d: i64 = v as i64 - q;
    if d < 0 {
        0
    } else if d > 255 {
        255
    } else {
        d as i32
    }
}

fn skip_hashes(color: &str) -> (r: &str)
    ensures
        r@ == without_hashes(color@),
{
    let len = color.unicode_len();
    let mut i: usize = 0;
    assert(color@.subrange(0, len as int) =~= color@);
    while i < len && color.get_char(i) == '#'
        invariant
            i <= len,
            len == color@.len(),
            without_hashes(color@.subrange(i as int, len as int)) == without_hashes(color@),
        decreases len - i,
    {
        assert(color@.subrange(i as int, len as int).drop_first() =~= color@.subrange(
            i + 1,
            len as int,
        ));
        i = i + 1;
    }
    color.substring_char(i, len)
}

/// A darker shade of `color` (`#rrggbb`), each channel lowered by
/// `percent` percent.
pub fn darken_color(color: &str, percent: i32) -> (r: String)
    requires
        parsed_i64(without_hashes(color@), 16) matches Some(v) ==> darkening_fits(v as i64, percent),
    ensures
        r@ == darker_color(color@, percent as int),
{
    let body = skip_hashes(color);
    match parse_i64_radix(body, 16) {
        Some(rgb) => {
            let r = ((rgb >> 16) & 0xff) as i32;
            let g = ((rgb >> 8) & 0xff) as i32;
            let b = (rgb & 0xff) as i32;
            assert(0 <= r <= 255 && 0 <= g <= 255 && 0 <= b <= 255) by (bit_vector)
                requires
                    r == ((rgb >> 16) & 0xff) as i32,
                    g == ((rgb >> 8) & 0xff) as i32,
                    b == (rgb & 0xff) as i32,
            ;
            let mut s = String::new();
            s.push('#');
            push_hex_byte(&mut s, darken(r, percent));
            push_hex_byte(&mut s, darken(g, percent));
            push_hex_byte(&mut s, darken(b, percent));
            s
        },
        None => body.to_owned(),
    }
}

/// A hexadecimal digit reads back as the value it was written for.
pub proof fn lemma_hex_digit_reads_back(d: int)
    requires
        0 <= d < 16,
    ensures
        digit_value(hex_digit(d)) == Some(d),
{
}

/// The two digits a byte is written as read back, in base sixteen, as the
/// byte.
pub proof fn lemma_hex_byte_reads_back(v: int)
    requires
        0 <= v <= 255,
    ensures
        hex_byte(v).len() == 2,
        all_digits(hex_byte(v), 16),
        digits_value(hex_byte(v), 16) == v,
{
    lemma_hex_digit_reads_back(v / 16);
    lemma_hex_digit_reads_back(v % 16);
    let b = hex_byte(v);
    let first = b.drop_last();
    assert(first =~= seq![hex_digit(v / 16)]);
    assert(first.drop_last() =~= Seq::<char>::empty());
    assert(digits_value(first.drop_last(), 16) == 0);
    assert(first.last() == hex_digit(v / 16));
    assert(digits_value(first, 16) == v / 16);
    assert(b.last() == hex_digit(v % 16));
}

/// A darker colour is `#` and three bytes in hexadecimal, and each byte
/// read back is the matching channel of the colour, darkened.
pub proof fn lemma_darker_color_channels(color: Seq<char>, percent: int)
    requires
        parsed_i64(without_hashes(color), 16) is Some,
    ensures
        ({
            let r = darker_color(color, percent);
            let rgb = parsed_i64(without_hashes(color), 16)->0 as i64;
            &&& r.len() == 7
            &&& r[0] == '#'
            &&& digits_value(r.subrange(1, 3), 16) == darkened(red(rgb) as int, percent)
            &&& digits_value(r.subrange(3, 5), 16) == darkened(green(rgb) as int, percent)
            &&& digits_value(r.subrange(5, 7), 16) == darkened(blue(rgb) as int, percent)
        }),
{
    let r = darker_color(color, percent);
    let rgb = parsed_i64(without_hashes(color), 16)->0 as i64;
    let dr = darkened(red(rgb) as int, percent);
    let dg = darkened(green(rgb) as int, percent);
    let db = darkened(blue(rgb) as int, percent);
    lemma_hex_byte_reads_back(dr);
    lemma_hex_byte_reads_back(dg);
    lemma_hex_byte_reads_back(db);
    assert(r.subrange(1, 3) =~= hex_byte(dr));
    assert(r.subrange(3, 5) =~= hex_byte(dg));
    assert(r.subrange(5, 7) =~= hex_byte(db));
}

/// A colour number `0xRRGGBB` is made of its three channels, each a byte.
pub proof fn lemma_channels_make_up_color(rgb: i64)
    requires
        0 <= rgb <= 0xff_ffff,
    ensures
        0 <= red(rgb) <= 255,
        0 <= green(rgb) <= 255,
        0 <= blue(rgb) <= 255,
        rgb == red(rgb) * 0x1_0000 + green(rgb) * 0x100 + blue(rgb),
{
    assert(0 <= ((rgb >> 16) & 0xff) <= 255 && 0 <= ((rgb >> 8) & 0xff) <= 255 && 0 <= (rgb & 0xff)
        <= 255 && rgb == ((rgb >> 16) & 0xff) * 0x1_0000 + ((rgb >> 8) & 0xff) * 0x100 + (rgb
        & 0xff)) by (bit_vector)
        requires
            0 <= rgb <= 0xff_ffff,
    ;
}

/// Darkening a byte by a percentage from 0 to 100 takes away that share of
/// it, rounded down: what is taken away is the largest whole number not
/// above `v * percent / 100`. Nothing is taken at 0 percent and everything
/// at 100.
pub proof fn lemma_darkening_takes_the_share(v: int, percent: int)
    requires
        0 <= v <= 255,
        0 <= percent <= 100,
    ensures
        0 <= darkened(v, percent) <= v,
        100 * (v - darkened(v, percent)) <= v * percent < 100 * (v - darkened(v, percent) + 1),
        darkened(v, 0) == v,
        darkened(v, 100) == 0,
{
    assert(0 <= v * percent <= v * 100) by (nonlinear_arith)
        requires
            0 <= v,
            0 <= percent <= 100,
    ;
    let q = (v * percent) / 100;
    assert(100 * q <= v * percent < 100 * (q + 1)) by (nonlinear_arith)
        requires
            q == (v * percent) / 100,
            v * percent >= 0,
    ;
    assert(v * 0 == 0);
    assert(v * 100 == 100 * v);
}

/// Only the leading `#` characters are dropped: the text is a run of `#`
/// followed by the result, which does not start with `#`.
pub proof fn lemma_without_hashes_drops_the_leading_hashes(s: Seq<char>)
    ensures
        without_hashes(s).len() <= s.len(),
        s.subrange(s.len() - without_hashes(s).len(), s.len() as int) == without_hashes(s),
        forall|k: int| 0 <= k < s.len() - without_hashes(s).len() ==> #[trigger] s[k] == '#',
        without_hashes(s).len() > 0 ==> without_hashes(s)[0] != '#',
    decreases s.len(),
{
    if s.len() > 0 && s[0] == '#' {
        let rest = s.drop_first();
        lemma_without_hashes_drops_the_leading_hashes(rest);
        let w = without_hashes(s);
        assert(rest.subrange(rest.len() - w.len(), rest.len() as int) =~= s.subrange(
            s.len() - w.len(),
            s.len() as int,
        ));
        assert forall|k: int| 0 <= k < s.len() - w.len() implies #[trigger] s[k] == '#' by {
            if k > 0 {
                assert(s[k] == rest[k - 1]);
            }
        }
    } else {
        assert(s.subrange(0, s.len() as int) =~= s);
    }
}

} // verus!
