//! Text operations: the parts of `std` the library relies on, with what
//! they do, and the decimal writing of numbers.

use vstd::prelude::*;

verus! {

/// Whether two strings hold the same characters.
pub fn str_eq(a: &str, b: &str) -> (r: bool)
    ensures
        r == (a@ == b@),
{
    let n = a.unicode_len();
    if n != b.unicode_len() {
        return false;
    }
    let mut i: usize = 0;
    while i < n
        invariant
            i <= n,
            n == a@.len(),
            n == b@.len(),
            forall|k: int| 0 <= k < i ==> a@[k] == b@[k],
        decreases n - i,
    {
        if a.get_char(i) != b.get_char(i) {
            return false;
        }
        i = i + 1;
    }
    assert(a@ =~= b@);
    true
}

/// Whether a character has the Unicode property `White_Space`.
pub open spec fn is_white_space(c: char) -> bool {
    let u = c as u32;
    ||| 0x9 <= u <= 0xd
    ||| u == 0x20
    ||| u == 0x85
    ||| u == 0xa0
    ||| u == 0x1680
    ||| 0x2000 <= u <= 0x200a
    ||| u == 0x2028
    ||| u == 0x2029
    ||| u == 0x202f
    ||| u == 0x205f
    ||| u == 0x3000
}

/// The text without its leading and trailing white space.
pub open spec fn trimmed(s: Seq<char>) -> Seq<char>
    decreases s.len(),
{
    if s.len() > 0 && is_white_space(s[0]) {
        trimmed(s.drop_first())
    } else if s.len() > 0 && is_white_space(s.last()) {
        trimmed(s.drop_last())
    } else {
        s
    }
}

fn white_space(c: char) -> (r: bool)
    ensures
        r == is_white_space(c),
{
    let u = c as u32;
    (0x9 <= u && u <= 0xd) || u == 0x20 || u == 0x85 || u == 0xa0 || u == 0x1680 || (0x2000 <= u
        && u <= 0x200a) || u == 0x2028 || u == 0x2029 || u == 0x202f || u == 0x205f || u == 0x3000
}

/// The text without its leading and trailing white space, as `str::trim`
/// gives it.
pub fn trim_white_space(s: &str) -> (r: &str)
    ensures
        r@ == trimmed(s@),
{
    let len = s.unicode_len();
    let mut i: usize = 0;
    assert(s@.subrange(0, len as int) =~= s@);
    while i < len && white_space(s.get_char(i))
        invariant
            i <= len,
            len == s@.len(),
            trimmed(s@.subrange(i as int, len as int)) == trimmed(s@),
        decreases len - i,
    {
        assert(s@.subrange(i as int, len as int).drop_first() =~= s@.subrange(i + 1, len as int));
        i = i + 1;
    }
    let mut j: usize = len;
    while j > i && white_space(s.get_char(j - 1))
        invariant
            i <= j <= len,
            len == s@.len(),
            i < len ==> !is_white_space(s@[i as int]),
            trimmed(s@.subrange(i as int, j as int)) == trimmed(s@),
        decreases j - i,
    {
        let ghost sub = s@.subrange(i as int, j as int);
        assert(j - 1 != i);
        assert(sub[0] == s@[i as int]);
        assert(sub.last() == s@[j - 1]);
        assert(sub.drop_last() =~= s@.subrange(i as int, j - 1));
        j = j - 1;
    }
    proof {
        let sub = s@.subrange(i as int, j as int);
        if sub.len() > 0 {
            assert(sub[0] == s@[i as int]);
            assert(sub.last() == s@[j - 1]);
        }
    }
    s.substring_char(i, j)
}

/// `String::push` appends one character, as its documentation says.
pub assume_specification[ String::push ](string: &mut String, ch: char)
    ensures
        final(string)@ == old(string)@.push(ch),
;

/// The character of a decimal digit.
pub open spec fn digit_char(d: int) -> char {
    if d == 0 {
        '0'
    } else if d == 1 {
        '1'
    } else if d == 2 {
        '2'
    } else if d == 3 {
        '3'
    } else if d == 4 {
        '4'
    } else if d == 5 {
        '5'
    } else if d == 6 {
        '6'
    } else if d == 7 {
        '7'
    } else if d == 8 {
        '8'
    } else {
        '9'
    }
}

/// The decimal writing of a natural number, without leading zeros.
pub open spec fn decimal(n: nat) -> Seq<char>
    decreases n,
{
    if n < 10 {
        seq![digit_char(n as int)]
    } else {
        decimal(n / 10).push(digit_char((n % 10) as int))
    }
}

/// The decimal writing of an integer, with a minus sign when negative.
pub open spec fn signed_decimal(n: int) -> Seq<char> {
    if n < 0 {
        seq!['-'] + decimal((-n) as nat)
    } else {
        decimal(n as nat)
    }
}

fn digit(d: u64) -> (c: char)
    requires
        d < 10,
    ensures
        c == digit_char(d as int),
{
    match d {
        0 => '0',
        1 => '1',
        2 => '2',
        3 => '3',
        4 => '4',
        5 => '5',
        6 => '6',
        7 => '7',
        8 => '8',
        _ => '9',
    }
}

/// Appends the decimal writing of `n`.
pub fn push_decimal(s: &mut String, n: u64)
    ensures
        final(s)@ == old(s)@ + decimal(n as nat),
    decreases n,
{
    if n >= 10 {
        push_decimal(s, n / 10);
    }
    s.push(digit(n % 10));
    assert(s@ =~= old(s)@ + decimal(n as nat));
}

/// Appends the decimal writing of `n`, with a minus sign when negative.
pub fn push_signed_decimal(s: &mut String, n: i64)
    ensures
        final(s)@ == old(s)@ + signed_decimal(n as int),
{
    if n < 0 {
        s.push('-');
        let magnitude: u64 = (0i128 - n as i128) as u64;
        push_decimal(s, magnitude);
        assert(s@ =~= old(s)@ + signed_decimal(n as int));
    } else {
        push_decimal(s, n as u64);
    }
}

/// The value of a character as a digit of a number in any base up to 36:
/// `0`-`9`, then `a`-`z` and `A`-`Z` from ten on.
pub open spec fn digit_value(c: char) -> Option<int> {
    let u = c as u32;
    if 0x30 <= u <= 0x39 {
        Some(u - 0x30)
    } else if 0x61 <= u <= 0x7a {
        Some(u - 0x61 + 10)
    } else if 0x41 <= u <= 0x5a {
        Some(u - 0x41 + 10)
    } else {
        None
    }
}

/// Whether the character is a digit of the base.
pub open spec fn is_digit_of(c: char, radix: int) -> bool {
    digit_value(c) matches Some(d) && d < radix
}

/// Whether every character is a digit of the base.
pub open spec fn all_digits(s: Seq<char>, radix: int) -> bool {
    forall|i: int| 0 <= i < s.len() ==> is_digit_of(#[trigger] s[i], radix)
}

/// The number the digits stand for in the base.
pub open spec fn digits_value(s: Seq<char>, radix: int) -> int
    decreases s.len(),
{
    if s.len() == 0 {
        0
    } else {
        digits_value(s.drop_last(), radix) * radix + digit_value(s.last())->0
    }
}

/// The integer a text reads as in the base: an optional `+` or `-`, then at
/// least one digit of the base and nothing else; `None` when the text is
/// not of that form or the number does not fit in an `i64`.
pub open spec fn parsed_i64(s: Seq<char>, radix: int) -> Option<int> {
    let body = number_body(s);
    if body.len() == 0 || !all_digits(body, radix) {
        None
    } else {
        let v = if s.len() > 0 && s[0] == '-' {
            -digits_value(body, radix)
        } else {
            digits_value(body, radix)
        };
        if i64::MIN <= v <= i64::MAX {
            Some(v)
        } else {
            None
        }
    }
}

/// The text without its leading sign, if it has one.
pub open spec fn number_body(s: Seq<char>) -> Seq<char> {
    if s.len() > 0 && (s[0] == '-' || s[0] == '+') {
        s.drop_first()
    } else {
        s
    }
}

fn char_digit(c: char) -> (r: Option<u32>)
    ensures
        r matches Some(d) ==> digit_value(c) == Some(d as int),
        r is None ==> digit_value(c) is None,
{
    let u = c as u32;
    if 0x30 <= u && u <= 0x39 {
        Some(u - 0x30)
    } else if 0x61 <= u && u <= 0x7a {
        Some(u - 0x61 + 10)
    } else if 0x41 <= u && u <= 0x5a {
        Some(u - 0x41 + 10)
    } else {
        None
    }
}

/// Reads an integer written in the base `radix`, as `i64::from_str_radix`
/// does (and, in base ten, as `str::parse::<i64>` does).
pub fn parse_i64_radix(text: &str, radix: u32) -> (r: Option<i64>)
    requires
        2 <= radix <= 36,
    ensures
        r matches Some(v) ==> parsed_i64(text@, radix as int) == Some(v as int),
        r is None ==> parsed_i64(text@, radix as int) is None,
{
    let len = text.unicode_len();
    let ghost s = text@;
    if len == 0 {
        return None;
    }
    let first = text.get_char(0);
    let negative = first == '-';
    let start: usize = if first == '-' || first == '+' {
        1
    } else {
        0
    };
    let ghost body = number_body(s);
    assert(body =~= s.subrange(start as int, s.len() as int));
    if start == len {
        return None;
    }
    // The magnitude read so far; reading stops once it exceeds 2^63.
    let mut value: u64 = 0;
    let mut i: usize = start;
    while i < len
        invariant
            start <= i <= len,
            len == s.len(),
            s == text@,
            2 <= radix <= 36,
            body == s.subrange(start as int, len as int),
            body == number_body(s),
            all_digits(s.subrange(start as int, i as int), radix as int),
            value == digits_value(s.subrange(start as int, i as int), radix as int),
            value <= 0x8000_0000_0000_0000u64,
        decreases len - i,
    {
        let c = text.get_char(i);
        let ghost prefix = s.subrange(start as int, i as int);
        let ghost next = s.subrange(start as int, i + 1);
        assert(next.drop_last() =~= prefix);
        assert(next.last() == c);
        let digit_of_c = char_digit(c);
        match digit_of_c {
            Some(d) if d < radix => {
                assert(all_digits(next, radix as int)) by {
                    assert forall|k: int| 0 <= k < next.len() implies is_digit_of(#[trigger] next[k], radix as int) by {
                        if k < prefix.len() {
                            assert(next[k] == prefix[k]);
                        }
                    }
                }
                assert(value as int * radix as int <= 0x8000_0000_0000_0000 * 36) by (nonlinear_arith)
                    requires
                        value <= 0x8000_0000_0000_0000u64,
                        radix <= 36,
                ;
                let wide: u128 = value as u128 * radix as u128 + d as u128;
                assert(wide == digits_value(next, radix as int));
                if wide > 0x8000_0000_0000_0000u128 {
                    // Every further digit keeps the magnitude above 2^63.
                    proof {
                        lemma_overflow_stays(s, start as int, i as int + 1, radix as int);
                        assert(s.subrange(start as int, len as int) =~= body);
                        if all_digits(body, radix as int) {
                            assert(digits_value(body, radix as int) > 0x8000_0000_0000_0000);
                        }
                        assert(parsed_i64(s, radix as int) is None);
                    }
                    return None;
                }
                value = wide as u64;
            },
            _ => {
                assert(!is_digit_of(c, radix as int));
                assert(!all_digits(body, radix as int)) by {
                    assert(body[i - start] == c);
                }
                assert(parsed_i64(s, radix as int) is None);
                return None;
            },
        }
        i = i + 1;
    }
    assert(s.subrange(start as int, len as int) =~= body);
    if negative {
        if value == 0x8000_0000_0000_0000u64 {
            Some(i64::MIN)
        } else {
            Some(0i64 - value as i64)
        }
    } else {
        if value > 0x7fff_ffff_ffff_ffffu64 {
            None
        } else {
            Some(value as i64)
        }
    }
}

proof fn lemma_overflow_stays(s: Seq<char>, start: int, i: int, radix: int)
    requires
        0 <= start <= i <= s.len(),
        radix >= 2,
        all_digits(s.subrange(start, i), radix),
        digits_value(s.subrange(start, i), radix) > 0x8000_0000_0000_0000,
    ensures
        all_digits(s.subrange(start, s.len() as int), radix) ==> digits_value(
            s.subrange(start, s.len() as int),
            radix,
        ) > 0x8000_0000_0000_0000,
    decreases s.len() - i,
{
    if i < s.len() && all_digits(s.subrange(start, s.len() as int), radix) {
        let prefix = s.subrange(start, i);
        let next = s.subrange(start, i + 1);
        let whole = s.subrange(start, s.len() as int);
        assert(next.drop_last() =~= prefix);
        assert(next.last() == whole[i - start]);
        assert(is_digit_of(whole[i - start], radix));
        assert(all_digits(next, radix)) by {
            assert forall|k: int| 0 <= k < next.len() implies is_digit_of(#[trigger] next[k], radix) by {
                assert(next[k] == whole[k]);
            }
        }
        let p = digits_value(prefix, radix);
        let d = digit_value(next.last())->0;
        assert(p * radix + d > 0x8000_0000_0000_0000) by (nonlinear_arith)
            requires
                p > 0x8000_0000_0000_0000,
                radix >= 2,
                d >= 0,
        ;
        lemma_overflow_stays(s, start, i + 1, radix);
    }
}

proof fn lemma_decimal_digits(m: nat)
    ensures
        decimal(m).len() >= 1,
        all_digits(decimal(m), 10),
        digits_value(decimal(m), 10) == m,
        is_digit_of(decimal(m)[0], 10),
    decreases m,
{
    let d = (m % 10) as int;
    assert(digit_value(digit_char(d)) == Some(d));
    if m >= 10 {
        lemma_decimal_digits(m / 10);
        let s = decimal(m / 10);
        let t = decimal(m);
        assert(t == s.push(digit_char(d)));
        assert(t.drop_last() =~= s);
        assert(all_digits(t, 10)) by {
            assert forall|i: int| 0 <= i < t.len() implies is_digit_of(#[trigger] t[i], 10) by {
                if i < s.len() {
                    assert(t[i] == s[i]);
                }
            }
        }
        assert(t[0] == s[0]);
        assert(t.last() == digit_char(d));
        assert(digits_value(t, 10) == digits_value(s, 10) * 10 + d);
        assert((m / 10) * 10 + m % 10 == m);
    } else {
        assert(decimal(m) == seq![digit_char(d)]);
        assert(decimal(m).drop_last() =~= Seq::<char>::empty());
        assert(digits_value(Seq::<char>::empty(), 10) == 0);
        assert(decimal(m).last() == digit_char(d));
        assert(m % 10 == m);
    }
}

/// Writing an `i64` in decimal and reading the text back gives the number.
pub proof fn lemma_decimal_round_trip(n: i64)
    ensures
        parsed_i64(signed_decimal(n as int), 10) == Some(n as int),
{
    if n < 0 {
        let m = (-n) as nat;
        lemma_decimal_digits(m);
        let s = signed_decimal(n as int);
        assert(s[0] == '-');
        assert(number_body(s) =~= decimal(m));
    } else {
        lemma_decimal_digits(n as nat);
        let s = decimal(n as nat);
        assert(s[0] != '-' && s[0] != '+');
        assert(number_body(s) == s);
    }
}

/// Trimming removes white space from both ends and nothing else: the result
/// is a stretch of the text, everything before and after it is white
/// space, and it neither starts nor ends with white space.
pub proof fn lemma_trimmed_strips_white_space(s: Seq<char>)
    ensures
        exists|i: int, j: int|
            0 <= i <= j <= s.len() && trimmed(s) == s.subrange(i, j) && (forall|k: int|
                0 <= k < i ==> is_white_space(#[trigger] s[k])) && (forall|k: int|
                j <= k < s.len() ==> is_white_space(#[trigger] s[k])),
        trimmed(s).len() > 0 ==> !is_white_space(trimmed(s)[0]) && !is_white_space(
            trimmed(s).last(),
        ),
    decreases s.len(),
{
    if s.len() > 0 && is_white_space(s[0]) {
        let rest = s.drop_first();
        lemma_trimmed_strips_white_space(rest);
        let (i, j) = choose|i: int, j: int|
            0 <= i <= j <= rest.len() && trimmed(rest) == rest.subrange(i, j) && (forall|k: int|
                0 <= k < i ==> is_white_space(#[trigger] rest[k])) && (forall|k: int|
                j <= k < rest.len() ==> is_white_space(#[trigger] rest[k]));
        assert(trimmed(s) == s.subrange(i + 1, j + 1)) by {
            assert(rest.subrange(i, j) =~= s.subrange(i + 1, j + 1));
        }
        assert forall|k: int| 0 <= k < i + 1 implies is_white_space(#[trigger] s[k]) by {
            if k > 0 {
                assert(s[k] == rest[k - 1]);
            }
        }
        assert forall|k: int| j + 1 <= k < s.len() implies is_white_space(#[trigger] s[k]) by {
            assert(s[k] == rest[k - 1]);
        }
    } else if s.len() > 0 && is_white_space(s.last()) {
        let init = s.drop_last();
        lemma_trimmed_strips_white_space(init);
        let (i, j) = choose|i: int, j: int|
            0 <= i <= j <= init.len() && trimmed(init) == init.subrange(i, j) && (forall|k: int|
                0 <= k < i ==> is_white_space(#[trigger] init[k])) && (forall|k: int|
                j <= k < init.len() ==> is_white_space(#[trigger] init[k]));
        assert(trimmed(s) == s.subrange(i, j)) by {
            assert(init.subrange(i, j) =~= s.subrange(i, j));
        }
        assert forall|k: int| 0 <= k < i implies is_white_space(#[trigger] s[k]) by {
            assert(s[k] == init[k]);
        }
        assert forall|k: int| j <= k < s.len() implies is_white_space(#[trigger] s[k]) by {
            if k < s.len() - 1 {
                assert(s[k] == init[k]);
            }
        }
    } else {
        assert(trimmed(s) == s.subrange(0, s.len() as int)) by {
            assert(s.subrange(0, s.len() as int) =~= s);
        }
    }
}

} // verus!
