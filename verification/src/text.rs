//! Small byte-text utilities: whitespace tokenizing, joining, and
//! decimal/hexadecimal parsing and rendering, used by the debug-command
//! interpreter and by message text.

use vstd::prelude::*;
use crate::wire::{write_bytes, DecodeError};

verus! {

/// ASCII whitespace, as the standard splitter recognizes it.
pub open spec fn is_ascii_ws(b: u8) -> bool {
    b == 0x20 || b == 0x09 || b == 0x0a || b == 0x0c || b == 0x0d
}

fn is_ws(b: u8) -> (r: bool)
    ensures
        r == is_ascii_ws(b),
{
    b == 0x20 || b == 0x09 || b == 0x0a || b == 0x0c || b == 0x0d
}

/// Where the token starting at i ends: the first whitespace byte at or
/// after i, or the end of the text.
pub open spec fn token_end(s: Seq<u8>, i: int) -> int
    decreases s.len() - i,
{
    if i < 0 || i >= s.len() || is_ascii_ws(s[i]) {
        i
    } else {
        token_end(s, i + 1)
    }
}

proof fn lemma_token_end_bounds(s: Seq<u8>, i: int)
    requires
        0 <= i <= s.len(),
    ensures
        i <= token_end(s, i) <= s.len(),
        token_end(s, i) < s.len() ==> is_ascii_ws(s[token_end(s, i)]),
        i < s.len() && !is_ascii_ws(s[i]) ==> token_end(s, i) > i,
    decreases s.len() - i,
{
    if i < s.len() && !is_ascii_ws(s[i]) {
        lemma_token_end_bounds(s, i + 1);
    }
}

/// The whitespace-separated tokens of `s` from position i on.
pub open spec fn tokens_from(s: Seq<u8>, i: int) -> Seq<Seq<u8>>
    decreases s.len() - i,
    via tokens_from_decreases
{
    if i < 0 || i >= s.len() {
        Seq::empty()
    } else if is_ascii_ws(s[i]) {
        tokens_from(s, i + 1)
    } else {
        seq![s.subrange(i, token_end(s, i))] + tokens_from(s, token_end(s, i))
    }
}

#[via_fn]
proof fn tokens_from_decreases(s: Seq<u8>, i: int) {
    if 0 <= i < s.len() && !is_ascii_ws(s[i]) {
        lemma_token_end_bounds(s, i);
    }
}

pub open spec fn spec_tokenize(s: Seq<u8>) -> Seq<Seq<u8>> {
    tokens_from(s, 0)
}

fn token_end_exec(s: &Vec<u8>, i: usize) -> (r: usize)
    requires
        i <= s@.len(),
    ensures
        r == token_end(s@, i as int),
        i <= r <= s@.len(),
    decreases s@.len() - i,
{
    if i >= s.len() {
        i
    } else if is_ws(s[i]) {
        i
    } else {
        proof {
            lemma_token_end_bounds(s@, i as int);
        }
        token_end_exec(s, i + 1)
    }
}

/// Copies `s[from..to]` out.
pub fn subvec(s: &Vec<u8>, from: usize, to: usize) -> (r: Vec<u8>)
    requires
        from <= to <= s@.len(),
    ensures
        r@ == s@.subrange(from as int, to as int),
    decreases to - from,
{
    let mut out: Vec<u8> = Vec::new();
    let mut i: usize = from;
    while i < to
        invariant
            from <= i <= to <= s@.len(),
            out@ == s@.subrange(from as int, i as int),
        decreases to - i,
    {
        out.push(s[i]);
        assert(out@ =~= s@.subrange(from as int, i + 1));
        i = i + 1;
    }
    out
}

fn tokenize_from(s: &Vec<u8>, i: usize) -> (r: Vec<Vec<u8>>)
    requires
        i <= s@.len(),
    ensures
        r@.map_values(|t: Vec<u8>| t@) == tokens_from(s@, i as int),
    decreases s@.len() - i, s@.len() - i + 1,
{
    if i >= s.len() {
        let r: Vec<Vec<u8>> = Vec::new();
        assert(r@.map_values(|t: Vec<u8>| t@) =~= tokens_from(s@, i as int));
        r
    } else if is_ws(s[i]) {
        tokenize_from(s, i + 1)
    } else {
        proof {
            lemma_token_end_bounds(s@, i as int);
        }
        let j = token_end_exec(s, i);
        let token = subvec(s, i, j);
        let rest = tokenize_from(s, j);
        let mut r: Vec<Vec<u8>> = Vec::new();
        r.push(token);
        let mut k: usize = 0;
        while k < rest.len()
            invariant
                k <= rest@.len(),
                r@.len() == k + 1,
                r@[0]@ == s@.subrange(i as int, token_end(s@, i as int)),
                forall|m: int| 0 <= m < k ==> (#[trigger] r@[m + 1])@ == rest@[m]@,
            decreases rest@.len() - k,
        {
            let item = subvec(&rest[k], 0, rest[k].len());
            assert(item@ == rest@[k as int]@);
            r.push(item);
            k = k + 1;
        }
        proof {
            assert forall|m: int| 0 <= m < r@.len() implies r@.map_values(|t: Vec<u8>| t@)[m]
                == tokens_from(s@, i as int)[m] by {
                if m > 0 {
                    let m0 = m - 1;
                    assert(r@[m0 + 1]@ == rest@[m0]@);
                    assert(rest@.map_values(|t: Vec<u8>| t@)[m0] == tokens_from(
                        s@,
                        token_end(s@, i as int),
                    )[m0]);
                }
            }
            assert(r@.map_values(|t: Vec<u8>| t@) =~= tokens_from(s@, i as int));
        }
        r
    }
}

/// The whitespace-separated tokens of `s`, in order; no token is empty
/// and none holds whitespace.
pub fn tokenize(s: &Vec<u8>) -> (r: Vec<Vec<u8>>)
    ensures
        r@.map_values(|t: Vec<u8>| t@) == spec_tokenize(s@),
{
    tokenize_from(s, 0)
}

/// The parts joined with single spaces.
pub open spec fn spec_join_spaces(parts: Seq<Seq<u8>>) -> Seq<u8>
    decreases parts.len(),
{
    if parts.len() == 0 {
        Seq::empty()
    } else if parts.len() == 1 {
        parts[0]
    } else {
        parts[0] + seq![0x20u8] + spec_join_spaces(parts.skip(1))
    }
}

pub fn join_spaces(parts: &Vec<Vec<u8>>) -> (r: Vec<u8>)
    ensures
        r@ == spec_join_spaces(parts@.map_values(|t: Vec<u8>| t@)),
{
    let r = join_spaces_from(parts, 0);
    assert(parts@.map_values(|t: Vec<u8>| t@).skip(0) =~= parts@.map_values(|t: Vec<u8>| t@));
    r
}

fn join_spaces_from(parts: &Vec<Vec<u8>>, i: usize) -> (r: Vec<u8>)
    requires
        i <= parts@.len(),
    ensures
        r@ == spec_join_spaces(parts@.map_values(|t: Vec<u8>| t@).skip(i as int)),
    decreases parts@.len() - i,
{
    let ghost views = parts@.map_values(|t: Vec<u8>| t@);
    if i >= parts.len() {
        let r: Vec<u8> = Vec::new();
        assert(views.skip(i as int) =~= Seq::<Seq<u8>>::empty());
        r
    } else if i + 1 == parts.len() {
        let r = subvec(&parts[i], 0, parts[i].len());
        assert(views.skip(i as int) =~= seq![views[i as int]]);
        assert(spec_join_spaces(views.skip(i as int)) == views[i as int]);
        r
    } else {
        let mut r = subvec(&parts[i], 0, parts[i].len());
        r.push(0x20);
        let rest = join_spaces_from(parts, i + 1);
        write_bytes(&mut r, &rest);
        proof {
            assert(views.skip(i as int)[0] == views[i as int]);
            assert(views.skip(i as int).skip(1) =~= views.skip(i as int + 1));
            assert(views.skip(i as int).len() >= 2);
            assert(r@ =~= spec_join_spaces(views.skip(i as int)));
        }
        r
    }
}

// ---------------------------------------------------------------------
// Decimal and hexadecimal numbers
// ---------------------------------------------------------------------

pub open spec fn is_dec_digit(b: u8) -> bool {
    0x30 <= b <= 0x39
}

/// The value of a run of decimal digits, most significant first.
pub open spec fn dec_value(s: Seq<u8>) -> int
    decreases s.len(),
{
    if s.len() == 0 {
        0
    } else {
        dec_value(s.drop_last()) * 10 + (s.last() - 0x30)
    }
}

pub open spec fn all_dec_digits(s: Seq<u8>) -> bool {
    forall|i: int| 0 <= i < s.len() ==> is_dec_digit(#[trigger] s[i])
}

proof fn lemma_dec_value_nonneg(s: Seq<u8>)
    requires
        all_dec_digits(s),
    ensures
        dec_value(s) >= 0,
    decreases s.len(),
{
    if s.len() > 0 {
        assert(all_dec_digits(s.drop_last()));
        lemma_dec_value_nonneg(s.drop_last());
    }
}

/// Parses an ASCII decimal number into a byte: defined exactly when the
/// text is nonempty, all digits, and the value fits.
pub fn parse_u8_dec(s: &Vec<u8>) -> (r: Result<u8, DecodeError>)
    ensures
        match r {
            Ok(v) => s@.len() > 0 && all_dec_digits(s@) && dec_value(s@) <= 255 && v == dec_value(
                s@,
            ),
            Err(e) => e == DecodeError::InvalidNumber && (s@.len() == 0 || !all_dec_digits(s@)
                || dec_value(s@) > 255),
        },
{
    if s.len() == 0 {
        return Err(DecodeError::InvalidNumber);
    }
    let mut acc: u32 = 0;
    let mut i: usize = 0;
    while i < s.len()
        invariant
            i <= s@.len(),
            acc == dec_value(s@.take(i as int)),
            acc <= 255,
            all_dec_digits(s@.take(i as int)),
        decreases s@.len() - i,
    {
        let b = s[i];
        if b < 0x30 || b > 0x39 {
            assert(!is_dec_digit(s@[i as int]));
            return Err(DecodeError::InvalidNumber);
        }
        let next = acc * 10 + (b - 0x30) as u32;
        proof {
            assert(s@.take(i + 1).drop_last() =~= s@.take(i as int));
            assert(s@.take(i + 1).last() == s@[i as int]);
        }
        if next > 255 {
            proof {
                if all_dec_digits(s@) {
                    lemma_dec_prefix_monotone(s@, i + 1);
                }
            }
            return Err(DecodeError::InvalidNumber);
        }
        acc = next;
        assert(all_dec_digits(s@.take(i + 1)));
        i = i + 1;
    }
    assert(s@.take(s@.len() as int) =~= s@);
    Ok(acc as u8)
}

/// A decimal run's value never shrinks as digits are appended.
proof fn lemma_dec_prefix_monotone(s: Seq<u8>, n: int)
    requires
        0 <= n <= s.len(),
        all_dec_digits(s),
    ensures
        dec_value(s) >= dec_value(s.take(n)),
    decreases s.len() - n,
{
    lemma_dec_value_nonneg(s.take(n));
    if n < s.len() {
        assert(s.take(n + 1).drop_last() =~= s.take(n));
        assert(is_dec_digit(s.take(n + 1).last()));
        lemma_dec_prefix_monotone(s, n + 1);
    } else {
        assert(s.take(n) =~= s);
    }
}

pub open spec fn is_hex_digit(b: u8) -> bool {
    (0x30 <= b <= 0x39) || (0x61 <= b <= 0x66) || (0x41 <= b <= 0x46)
}

pub open spec fn hex_digit_value(b: u8) -> int {
    if 0x30 <= b <= 0x39 {
        b - 0x30
    } else if 0x61 <= b <= 0x66 {
        b - 0x61 + 10
    } else {
        b - 0x41 + 10
    }
}

/// The value of a run of hexadecimal digits, most significant first.
pub open spec fn hex_value(s: Seq<u8>) -> int
    decreases s.len(),
{
    if s.len() == 0 {
        0
    } else {
        hex_value(s.drop_last()) * 16 + hex_digit_value(s.last())
    }
}

pub open spec fn all_hex_digits(s: Seq<u8>) -> bool {
    forall|i: int| 0 <= i < s.len() ==> is_hex_digit(#[trigger] s[i])
}

proof fn lemma_hex_value_nonneg(s: Seq<u8>)
    requires
        all_hex_digits(s),
    ensures
        hex_value(s) >= 0,
    decreases s.len(),
{
    if s.len() > 0 {
        assert(all_hex_digits(s.drop_last()));
        lemma_hex_value_nonneg(s.drop_last());
    }
}

proof fn lemma_hex_prefix_monotone(s: Seq<u8>, n: int)
    requires
        0 <= n <= s.len(),
        all_hex_digits(s),
    ensures
        hex_value(s) >= hex_value(s.take(n)),
    decreases s.len() - n,
{
    lemma_hex_value_nonneg(s.take(n));
    if n < s.len() {
        assert(s.take(n + 1).drop_last() =~= s.take(n));
        assert(is_hex_digit(s.take(n + 1).last()));
        lemma_hex_prefix_monotone(s, n + 1);
    } else {
        assert(s.take(n) =~= s);
    }
}

/// Parses ASCII hexadecimal digits (either case, no prefix) into a
/// 16-bit value.
pub fn parse_u16_hex(s: &Vec<u8>) -> (r: Result<u16, DecodeError>)
    ensures
        match r {
            Ok(v) => s@.len() > 0 && all_hex_digits(s@) && hex_value(s@) <= 0xffff && v
                == hex_value(s@),
            Err(e) => e == DecodeError::InvalidNumber && (s@.len() == 0 || !all_hex_digits(s@)
                || hex_value(s@) > 0xffff),
        },
{
    if s.len() == 0 {
        return Err(DecodeError::InvalidNumber);
    }
    let mut acc: u32 = 0;
    let mut i: usize = 0;
    while i < s.len()
        invariant
            i <= s@.len(),
            acc == hex_value(s@.take(i as int)),
            acc <= 0xffff,
            all_hex_digits(s@.take(i as int)),
        decreases s@.len() - i,
    {
        let b = s[i];
        let d: u32 = if 0x30 <= b && b <= 0x39 {
            (b - 0x30) as u32
        } else if 0x61 <= b && b <= 0x66 {
            (b - 0x61) as u32 + 10
        } else if 0x41 <= b && b <= 0x46 {
            (b - 0x41) as u32 + 10
        } else {
            assert(!is_hex_digit(s@[i as int]));
            return Err(DecodeError::InvalidNumber);
        };
        let next = acc * 16 + d;
        proof {
            assert(s@.take(i + 1).drop_last() =~= s@.take(i as int));
            assert(s@.take(i + 1).last() == s@[i as int]);
        }
        if next > 0xffff {
            proof {
                if all_hex_digits(s@) {
                    lemma_hex_prefix_monotone(s@, i + 1);
                }
            }
            return Err(DecodeError::InvalidNumber);
        }
        acc = next;
        assert(all_hex_digits(s@.take(i + 1)));
        i = i + 1;
    }
    assert(s@.take(s@.len() as int) =~= s@);
    Ok(acc as u16)
}

/// Parses ASCII hexadecimal digits into a byte.
pub fn parse_u8_hex(s: &Vec<u8>) -> (r: Result<u8, DecodeError>)
    ensures
        match r {
            Ok(v) => s@.len() > 0 && all_hex_digits(s@) && hex_value(s@) <= 0xff && v == hex_value(
                s@,
            ),
            Err(e) => e == DecodeError::InvalidNumber && (s@.len() == 0 || !all_hex_digits(s@)
                || hex_value(s@) > 0xff),
        },
{
    match parse_u16_hex(s) {
        Ok(v) => {
            if v > 0xff {
                Err(DecodeError::InvalidNumber)
            } else {
                Ok(v as u8)
            }
        },
        Err(e) => Err(e),
    }
}

/// The shortest decimal rendering of a non-negative value.
pub open spec fn dec_bytes(n: int) -> Seq<u8>
    decreases n,
{
    if n < 10 {
        seq![(0x30 + if n >= 0 { n } else { 0 }) as u8]
    } else {
        dec_bytes(n / 10) + seq![(0x30 + n % 10) as u8]
    }
}

pub fn render_u16_dec(n: u16) -> (r: Vec<u8>)
    ensures
        r@ == dec_bytes(n as int),
    decreases n,
{
    if n < 10 {
        let mut out: Vec<u8> = Vec::new();
        out.push(0x30 + n as u8);
        assert(out@ =~= dec_bytes(n as int));
        out
    } else {
        let mut out = render_u16_dec(n / 10);
        out.push(0x30 + (n % 10) as u8);
        assert(out@ =~= dec_bytes(n as int));
        out
    }
}

/// One hexadecimal digit, lower case.
pub open spec fn hex_digit_byte(d: int) -> u8 {
    if d < 10 {
        (0x30 + if d >= 0 { d } else { 0 }) as u8
    } else {
        (0x61 + if d <= 15 { d - 10 } else { 5 }) as u8
    }
}

/// A byte as two lower-case hexadecimal digits.
pub open spec fn hex2_bytes(b: u8) -> Seq<u8> {
    seq![hex_digit_byte(b as int / 16), hex_digit_byte(b as int % 16)]
}

pub fn render_u8_hex2(b: u8) -> (r: Vec<u8>)
    ensures
        r@ == hex2_bytes(b),
{
    let mut out: Vec<u8> = Vec::new();
    let hi = b / 16;
    let lo = b % 16;
    if hi < 10 {
        out.push(0x30 + hi);
    } else {
        out.push(0x61 + (hi - 10));
    }
    if lo < 10 {
        out.push(0x30 + lo);
    } else {
        out.push(0x61 + (lo - 10));
    }
    assert(out@ =~= hex2_bytes(b));
    out
}

} // verus!
