//! Decimal numerals as strings.
//!
//! The two contracts exchange the oracle reading as event attributes whose
//! values are decimal strings of unsigned integers.  This module defines that
//! format — [`dec_of`] gives the canonical numeral of a number, [`dec_val`]
//! the number a digit string denotes — and provides verified formatting and
//! parsing functions, together with the round-trip lemma the cross-contract
//! protocol rests on.

use vstd::prelude::*;
use vstd::string::StrSliceExecFns;
use vstd::string::StringExecFns;

verus! {

/// A decimal digit character.
pub open spec fn is_dec_digit(c: char) -> bool {
    '0' <= c && c <= '9'
}

/// Every character of `s` is a decimal digit.
pub open spec fn all_dec_digits(s: Seq<char>) -> bool {
    forall|i: int| 0 <= i < s.len() ==> is_dec_digit(#[trigger] s[i])
}

/// The numeric value of a digit character.
pub open spec fn digit_val(c: char) -> nat {
    (c as int - '0' as int) as nat
}

/// The digit character for a value below ten.
pub open spec fn dec_digit(d: nat) -> char {
    if d == 0 {
        '0'
    } else if d == 1 {
        '1'
    } else if d == 2 {
        '2'
    } else if d == 3 {
        '3'
    } else if d == 4 {
        '4'
    } else if d == 5 {
        '5'
    } else if d == 6 {
        '6'
    } else if d == 7 {
        '7'
    } else if d == 8 {
        '8'
    } else {
        '9'
    }
}

/// The canonical decimal numeral of `n`: most significant digit first,
/// no leading zeros, and `"0"` for zero.
pub open spec fn dec_of(n: nat) -> Seq<char>
    decreases n,
{
    if n < 10 {
        seq![dec_digit(n)]
    } else {
        dec_of(n / 10).push(dec_digit(n % 10))
    }
}

/// The number a digit string denotes (most significant digit first).
pub open spec fn dec_val(s: Seq<char>) -> nat
    decreases s.len(),
{
    if s.len() == 0 {
        0
    } else {
        dec_val(s.drop_last()) * 10 + digit_val(s.last())
    }
}

/// A string parses as a 128-bit unsigned integer exactly when it is a
/// nonempty digit string whose value fits.
pub open spec fn parses_as_u128(s: Seq<char>) -> bool {
    s.len() > 0 && all_dec_digits(s) && dec_val(s) <= u128::MAX
}

/// A string parses as a 64-bit unsigned integer exactly when it is a
/// nonempty digit string whose value fits.
pub open spec fn parses_as_u64(s: Seq<char>) -> bool {
    s.len() > 0 && all_dec_digits(s) && dec_val(s) <= u64::MAX
}

/// The canonical numeral denotes the number it was formed from: parsing is a
/// left inverse of formatting, so a reading survives the event-attribute
/// channel unchanged.
pub proof fn lemma_dec_round_trip(n: nat)
    ensures
        dec_val(dec_of(n)) == n,
        all_dec_digits(dec_of(n)),
        dec_of(n).len() >= 1,
    decreases n,
{
    if n < 10 {
        let s = seq![dec_digit(n)];
        assert(s.drop_last() =~= Seq::<char>::empty());
        assert(dec_val(Seq::<char>::empty()) == 0);
        assert(dec_val(s) == digit_val(dec_digit(n)));
    } else {
        lemma_dec_round_trip(n / 10);
        let s = dec_of(n / 10).push(dec_digit(n % 10));
        assert(s.drop_last() =~= dec_of(n / 10));
        assert(s.last() == dec_digit(n % 10));
        assert(dec_val(s) == (n / 10) * 10 + n % 10);
        assert(forall|i: int|
            0 <= i < s.len() ==> is_dec_digit(#[trigger] s[i]));
    }
}

/// A prefix of a digit string never denotes more than the whole string.
proof fn lemma_dec_val_prefix_le(s: Seq<char>, i: int)
    requires
        0 <= i <= s.len(),
    ensures
        dec_val(s.subrange(0, i)) <= dec_val(s),
    decreases s.len() - i,
{
    if i == s.len() {
        assert(s.subrange(0, i) =~= s);
    } else {
        assert(s.subrange(0, i + 1).drop_last() =~= s.subrange(0, i));
        assert(dec_val(s.subrange(0, i + 1)) == dec_val(s.subrange(0, i)) * 10 + digit_val(
            s.subrange(0, i + 1).last(),
        ));
        lemma_dec_val_prefix_le(s, i + 1);
    }
}

/// The digit character for a value below ten, as a string slice.
fn digit_str(d: u128) -> (r: &'static str)
    requires
        d < 10,
    ensures
        r@ =~= seq![dec_digit(d as nat)],
{
    proof {
        reveal_strlit("0");
        reveal_strlit("1");
        reveal_strlit("2");
        reveal_strlit("3");
        reveal_strlit("4");
        reveal_strlit("5");
        reveal_strlit("6");
        reveal_strlit("7");
        reveal_strlit("8");
        reveal_strlit("9");
    }
    if d == 0 {
        "0"
    } else if d == 1 {
        "1"
    } else if d == 2 {
        "2"
    } else if d == 3 {
        "3"
    } else if d == 4 {
        "4"
    } else if d == 5 {
        "5"
    } else if d == 6 {
        "6"
    } else if d == 7 {
        "7"
    } else if d == 8 {
        "8"
    } else {
        "9"
    }
}

/// Formats `n` as its canonical decimal numeral.
pub fn u128_to_dec(n: u128) -> (r: String)
    ensures
        r@ == dec_of(n as nat),
    decreases n,
{
    if n < 10 {
        let r = digit_str(n).to_owned();
        r
    } else {
        let mut r = u128_to_dec(n / 10);
        r.append(digit_str(n % 10));
        proof {
            assert(r@ =~= dec_of((n / 10) as nat).push(dec_digit((n % 10) as nat)));
        }
        r
    }
}

/// Parses a nonempty decimal digit string as a 128-bit unsigned integer;
/// rejects anything else, including values that overflow.
pub fn parse_u128(s: &str) -> (r: Option<u128>)
    ensures
        parses_as_u128(s@) ==> r == Some(dec_val(s@) as u128),
        !parses_as_u128(s@) ==> r is None,
{
    let n = s.unicode_len();
    if n == 0 {
        return None;
    }
    let mut acc: u128 = 0;
    let mut i: usize = 0;
    while i < n
        invariant
            0 <= i <= n,
            n == s@.len(),
            all_dec_digits(s@.subrange(0, i as int)),
            acc == dec_val(s@.subrange(0, i as int)),
        decreases n - i,
    {
        let c = s.get_char(i);
        if !('0' <= c && c <= '9') {
            assert(!all_dec_digits(s@));
            return None;
        }
        let d: u128 = ((c as u32) - ('0' as u32)) as u128;
        assert(d == digit_val(c));
        let ghost prefix = s@.subrange(0, i as int);
        let ghost prefix1 = s@.subrange(0, i as int + 1);
        proof {
            assert(prefix1.drop_last() =~= prefix);
            assert(prefix1.last() == c);
            assert(dec_val(prefix1) == acc * 10 + d);
        }
        let shifted = match acc.checked_mul(10) {
            Some(m) => m,
            None => {
                proof {
                    lemma_dec_val_prefix_le(s@, i as int + 1);
                }
                return None;
            },
        };
        acc = match shifted.checked_add(d) {
            Some(v) => v,
            None => {
                proof {
                    lemma_dec_val_prefix_le(s@, i as int + 1);
                }
                return None;
            },
        };
        i = i + 1;
    }
    proof {
        assert(s@.subrange(0, n as int) =~= s@);
    }
    Some(acc)
}

/// Parses a nonempty decimal digit string as a 64-bit unsigned integer;
/// rejects anything else, including values that overflow.
pub fn parse_u64(s: &str) -> (r: Option<u64>)
    ensures
        parses_as_u64(s@) ==> r == Some(dec_val(s@) as u64),
        !parses_as_u64(s@) ==> r is None,
{
    match parse_u128(s) {
        Some(v) => {
            if v <= u64::MAX as u128 {
                Some(v as u64)
            } else {
                None
            }
        },
        None => None,
    }
}

} // verus!
