//! Reading the process id that `pgrep` prints.
//!
//! `pgrep` writes the id as decimal text followed by a line break. The id is
//! the text without its last character, read as an `i32` with the rules of
//! `str::parse::<i32>`: an optional `+` or `-`, then one or more ASCII digits,
//! and a value inside the range of `i32`.

use vstd::prelude::*;

verus! {

/// `b` is one of the ASCII digits `0` to `9`.
pub open spec fn is_ascii_digit(b: u8) -> bool {
    48 <= b <= 57
}

/// Every byte of `s` is an ASCII digit.
pub open spec fn all_digits(s: Seq<u8>) -> bool {
    forall|i: int| 0 <= i < s.len() ==> is_ascii_digit(#[trigger] s[i])
}

/// The number that the decimal digits `s` spell, most significant first.
pub open spec fn digits_value(s: Seq<u8>) -> nat
    decreases s.len(),
{
    if s.len() == 0 {
        0
    } else {
        digits_value(s.drop_last()) * 10 + (s.last() - 48) as nat
    }
}

/// `Some(v)` where `s` is a well-formed decimal spelling of `v` that fits in
/// an `i32`, `None` where `str::parse::<i32>` reports an error.
pub open spec fn parse_i32_spec(s: Seq<u8>) -> Option<i32> {
    if s.len() == 0 {
        None
    } else if s[0] == 45u8 {
        let d = s.drop_first();
        if d.len() > 0 && all_digits(d) && digits_value(d) <= 2147483648 {
            Some((0 - digits_value(d)) as i32)
        } else {
            None
        }
    } else if s[0] == 43u8 {
        let d = s.drop_first();
        if d.len() > 0 && all_digits(d) && digits_value(d) <= 2147483647 {
            Some(digits_value(d) as i32)
        } else {
            None
        }
    } else if all_digits(s) && digits_value(s) <= 2147483647 {
        Some(digits_value(s) as i32)
    } else {
        None
    }
}

/// The id in the output of `pgrep`: the output less its last character,
/// read as an `i32`. `None` where the output is empty, ends in a byte that
/// does not stand alone as a character, or holds no valid number before it.
pub open spec fn pid_output_spec(output: Seq<u8>) -> Option<i32> {
    if output.len() > 0 && output.last() < 128 {
        parse_i32_spec(output.drop_last())
    } else {
        None
    }
}

/// A prefix of a string of digits spells no larger number than the whole.
proof fn lemma_prefix_value_le(d: Seq<u8>, k: int)
    requires
        all_digits(d),
        0 <= k <= d.len(),
    ensures
        digits_value(d.subrange(0, k)) <= digits_value(d),
    decreases d.len(),
{
    if k == d.len() {
        assert(d.subrange(0, k) =~= d);
    } else {
        let p = d.drop_last();
        assert(all_digits(p)) by {
            assert forall|i: int| 0 <= i < p.len() implies is_ascii_digit(#[trigger] p[i]) by {
                assert(p[i] == d[i]);
            }
        }
        lemma_prefix_value_le(p, k);
        assert(p.subrange(0, k) =~= d.subrange(0, k));
    }
}

/// The decimal digits of `n`, most significant first, with no leading
/// zero: the way `pgrep` prints a process id.
pub open spec fn decimal(n: nat) -> Seq<u8>
    decreases n,
{
    if n < 10 {
        seq![(48 + n) as u8]
    } else {
        decimal(n / 10).push((48 + n % 10) as u8)
    }
}

/// The decimal digits of `n` are one or more digits that spell `n`.
proof fn lemma_decimal_spells(n: nat)
    ensures
        decimal(n).len() >= 1,
        all_digits(decimal(n)),
        digits_value(decimal(n)) == n,
    decreases n,
{
    if n >= 10 {
        let d = decimal(n);
        lemma_decimal_spells(n / 10);
        assert(d.drop_last() =~= decimal(n / 10));
        vstd::arithmetic::div_mod::lemma_fundamental_div_mod(n as int, 10);
        let r: nat = n % 10;
        assert(r < 10);
        assert(d.last() == (48 + r) as u8);
        assert((d.last() - 48) as nat == r);
        assert(digits_value(d) == digits_value(decimal(n / 10)) * 10 + r);
        assert(all_digits(d)) by {
            assert forall|i: int| 0 <= i < d.len() implies is_ascii_digit(#[trigger] d[i]) by {
                if i < d.len() - 1 {
                    assert(d[i] == decimal(n / 10)[i]);
                }
            }
        }
    } else {
        let d = decimal(n);
        assert(d.drop_last() =~= Seq::<u8>::empty());
        assert(d.last() == (48 + n) as u8);
        assert(digits_value(d) == digits_value(d.drop_last()) * 10 + (d.last() - 48) as nat);
    }
}

/// Any number in the range of `i32`, printed in decimal, reads back as
/// itself, and so does its negative after a `-`; and a line of `pgrep`
/// output, that is the printed id with its line break, gives that id,
/// however many digits it has.
pub proof fn printed_numbers_read_back(n: nat)
    ensures
        n <= i32::MAX ==> parse_i32_spec(decimal(n)) == Some(n as i32),
        n <= i32::MAX ==> pid_output_spec(decimal(n).push(10u8)) == Some(n as i32),
        n <= 2147483648 ==> parse_i32_spec(seq![45u8] + decimal(n)) == Some((0 - n) as i32),
{
    lemma_decimal_spells(n);
    let d = decimal(n);
    assert(is_ascii_digit(d[0]));
    assert(d.push(10u8).drop_last() =~= d);
    let m = seq![45u8] + d;
    assert(m[0] == 45u8);
    assert(m.drop_first() =~= d);
}

/// Reads the digits `s[start..]` as a number of at most `limit`, where
/// `limit` is below `2^31`: `None` where a byte is no digit or the number
/// is larger.
fn read_digits(s: &[u8], start: usize, limit: u64) -> (r: Option<u64>)
    requires
        start < s@.len(),
        limit <= 2147483648,
    ensures
        match r {
            Some(v) => {
                &&& all_digits(s@.subrange(start as int, s@.len() as int))
                &&& v == digits_value(s@.subrange(start as int, s@.len() as int))
                &&& v <= limit
            },
            None => !(all_digits(s@.subrange(start as int, s@.len() as int))
                && digits_value(s@.subrange(start as int, s@.len() as int)) <= limit),
        },
{
    let len = s.len();
    let ghost whole = s@.subrange(start as int, len as int);
    let mut value: u64 = 0;
    let mut i = start;
    assert(s@.subrange(start as int, start as int) =~= Seq::<u8>::empty());
    while i < len
        invariant
            start <= i <= len,
            len == s@.len(),
            limit <= 2147483648,
            whole == s@.subrange(start as int, len as int),
            all_digits(s@.subrange(start as int, i as int)),
            value == digits_value(s@.subrange(start as int, i as int)),
            value <= limit,
        decreases len - i,
    {
        let b = s[i];
        if b < 48 || b > 57 {
            assert(whole[i - start] == b);
            return None;
        }
        let ghost before = s@.subrange(start as int, i as int);
        let ghost after = s@.subrange(start as int, i + 1);
        assert(after.drop_last() =~= before);
        assert(after.last() == b);
        assert(all_digits(after)) by {
            assert forall|j: int| 0 <= j < after.len() implies is_ascii_digit(#[trigger] after[j]) by {
                if j < before.len() {
                    assert(after[j] == before[j]);
                }
            }
        }
        let next: u64 = value * 10 + (b - 48) as u64;
        assert(next == digits_value(after));
        if next > limit {
            proof {
                if all_digits(whole) {
                    lemma_prefix_value_le(whole, i + 1 - start);
                    assert(whole.subrange(0, i + 1 - start) =~= after);
                }
            }
            return None;
        }
        value = next;
        i = i + 1;
    }
    Some(value)
}

/// Reads `s` as `str::parse::<i32>` does: `None` where that reports an error.
pub fn parse_i32(s: &[u8]) -> (r: Option<i32>)
    ensures
        r == parse_i32_spec(s@),
{
    let len = s.len();
    if len == 0 {
        return None;
    }
    let first = s[0];
    if first == 45 || first == 43 {
        if len == 1 {
            assert(s@.drop_first().len() == 0);
            return None;
        }
        let limit: u64 = if first == 45 { 2147483648 } else { 2147483647 };
        let read = read_digits(s, 1, limit);
        assert(s@.subrange(1, len as int) =~= s@.drop_first());
        match read {
            Some(v) => {
                if first == 45 {
                    if v == 2147483648 {
                        Some(-2147483648i32)
                    } else {
                        let n: i32 = v as i32;
                        Some(-n)
                    }
                } else {
                    Some(v as i32)
                }
            },
            None => None,
        }
    } else {
        let read = read_digits(s, 0, 2147483647);
        assert(s@.subrange(0, len as int) =~= s@);
        match read {
            Some(v) => Some(v as i32),
            None => None,
        }
    }
}

/// The process id in the raw output of `pgrep`: the output less its last
/// character (the line break), read as an `i32`.
///
/// `None` exactly where taking that last character off, or reading the
/// rest as a number, fails.
pub fn pid_from_pgrep_output(output: &[u8]) -> (r: Option<i32>)
    ensures
        r == pid_output_spec(output@),
{
    let len = output.len();
    if len == 0 {
        return None;
    }
    if output[len - 1] >= 128 {
        return None;
    }
    let body = slice_prefix(output, len - 1);
    assert(body@ =~= output@.drop_last());
    parse_i32(body)
}

/// The first `n` bytes of `s`.
fn slice_prefix(s: &[u8], n: usize) -> (r: &[u8])
    requires
        n <= s@.len(),
    ensures
        r@ == s@.subrange(0, n as int),
{
    let (head, _tail) = s.split_at(n);
    head
}

} // verus!
