//! Verified parsing of unsigned decimal strings.
//!
//! Record ids and player ids arrive from the source API as decimal
//! strings; this module turns them into integers with an exact
//! characterization of when parsing succeeds.

use vstd::prelude::*;
use vstd::string::StringSliceAdditionalSpecFns;

verus! {

/// ASCII decimal digit.
pub open spec fn is_digit(b: u8) -> bool {
    48 <= b <= 57
}

pub open spec fn all_digits(s: Seq<u8>) -> bool {
    forall|i: int| 0 <= i < s.len() ==> #[trigger] is_digit(s[i])
}

/// Value of a digit string, most significant digit first.
pub open spec fn digits_val(s: Seq<u8>) -> int
    decreases s.len(),
{
    if s.len() == 0 {
        0
    } else {
        digits_val(s.drop_last()) * 10 + (s.last() - 48)
    }
}

/// The UTF-8 bytes of an owned string; lets contracts about `String`
/// values line up with contracts about `&str` values.
pub open spec fn string_bytes(s: String) -> Seq<u8> {
    vstd::utf8::encode_utf8(s@)
}

/// What parsing an unsigned decimal string yields.
pub open spec fn spec_parse_u64(s: Seq<u8>) -> Option<u64> {
    if s.len() > 0 && all_digits(s) && digits_val(s) <= u64::MAX {
        Some(digits_val(s) as u64)
    } else {
        None
    }
}

/// What parsing a record id yields.
pub open spec fn spec_parse_i64(s: Seq<u8>) -> Option<i64> {
    if s.len() > 0 && all_digits(s) && digits_val(s) <= i64::MAX {
        Some(digits_val(s) as i64)
    } else {
        None
    }
}

/// What parsing a player id yields.
pub open spec fn spec_parse_i32(s: Seq<u8>) -> Option<i32> {
    if s.len() > 0 && all_digits(s) && digits_val(s) <= i32::MAX {
        Some(digits_val(s) as i32)
    } else {
        None
    }
}

pub proof fn lemma_digits_val_nonneg(s: Seq<u8>)
    requires
        all_digits(s),
    ensures
        digits_val(s) >= 0,
    decreases s.len(),
{
    if s.len() > 0 {
        assert forall|i: int| 0 <= i < s.drop_last().len() implies #[trigger] is_digit(
            s.drop_last()[i],
        ) by {
            assert(s.drop_last()[i] == s[i]);
        }
        lemma_digits_val_nonneg(s.drop_last());
        assert(is_digit(s[s.len() - 1]));
        assert(s.last() == s[s.len() - 1]);
    }
}

proof fn lemma_digits_val_take_succ(s: Seq<u8>, n: int)
    requires
        0 <= n < s.len(),
    ensures
        digits_val(s.take(n + 1)) == digits_val(s.take(n)) * 10 + (s[n] - 48),
{
    assert(s.take(n + 1).drop_last() =~= s.take(n));
    assert(s.take(n + 1).last() == s[n]);
}

/// A longer digit prefix never has a smaller value.
proof fn lemma_digits_val_take_le(s: Seq<u8>, n: int)
    requires
        all_digits(s),
        0 <= n <= s.len(),
    ensures
        digits_val(s.take(n)) <= digits_val(s),
    decreases s.len() - n,
{
    if n == s.len() {
        assert(s.take(n) =~= s);
    } else {
        lemma_digits_val_take_succ(s, n);
        assert forall|i: int| 0 <= i < s.take(n).len() implies #[trigger] is_digit(
            s.take(n)[i],
        ) by {
            assert(s.take(n)[i] == s[i]);
        }
        lemma_digits_val_nonneg(s.take(n));
        assert(is_digit(s[n]));
        assert(digits_val(s.take(n + 1)) >= digits_val(s.take(n)));
        lemma_digits_val_take_le(s, n + 1);
    }
}

/// Parses an unsigned decimal number.  Returns `Some` exactly on
/// non-empty all-digit strings whose value fits in a `u64`.
pub fn parse_u64_digits(s: &[u8]) -> (r: Option<u64>)
    ensures
        r == spec_parse_u64(s@),
{
    if s.len() == 0 {
        return None;
    }
    let mut acc: u64 = 0;
    let mut i: usize = 0;
    while i < s.len()
        invariant
            0 <= i <= s@.len(),
            s@.len() > 0,
            all_digits(s@.take(i as int)),
            acc == digits_val(s@.take(i as int)),
        decreases s@.len() - i,
    {
        let b = s[i];
        if b < 48 || b > 57 {
            assert(!is_digit(s@[i as int]));
            return None;
        }
        let d: u64 = (b - 48) as u64;
        let wide: u128 = acc as u128 * 10 + d as u128;
        proof {
            lemma_digits_val_take_succ(s@, i as int);
        }
        if wide > u64::MAX as u128 {
            proof {
                assert(all_digits(s@.take(i as int + 1)));
                if all_digits(s@) {
                    lemma_digits_val_take_le(s@, i as int + 1);
                }
            }
            return None;
        }
        acc = wide as u64;
        i = i + 1;
    }
    proof {
        assert(s@.take(i as int) =~= s@);
        lemma_digits_val_nonneg(s@);
    }
    Some(acc)
}

/// `str::parse`-style entry point for record ids, which must fit in an
/// `i64`.
pub fn parse_i64_id(s: &str) -> (r: Option<i64>)
    ensures
        r == spec_parse_i64(s.spec_bytes()),
{
    match parse_u64_digits(s.as_bytes()) {
        Some(v) => {
            proof {
                lemma_digits_val_nonneg(s.spec_bytes());
            }
            if v <= i64::MAX as u64 {
                Some(v as i64)
            } else {
                None
            }
        },
        None => None,
    }
}

/// Entry point for player ids, which must fit in an `i32`.
pub fn parse_i32_uid(s: &str) -> (r: Option<i32>)
    ensures
        r == spec_parse_i32(s.spec_bytes()),
{
    match parse_u64_digits(s.as_bytes()) {
        Some(v) => {
            proof {
                lemma_digits_val_nonneg(s.spec_bytes());
            }
            if v <= i32::MAX as u64 {
                Some(v as i32)
            } else {
                None
            }
        },
        None => None,
    }
}

/// Byte-for-byte equality of two slices, the basis of every string
/// comparison in this crate.
pub fn bytes_eq(a: &[u8], b: &[u8]) -> (r: bool)
    ensures
        r <==> a@ == b@,
{
    if a.len() != b.len() {
        assert(a@.len() != b@.len());
        return false;
    }
    let mut i: usize = 0;
    while i < a.len()
        invariant
            0 <= i <= a@.len(),
            a@.len() == b@.len(),
            forall|j: int| 0 <= j < i ==> a@[j] == b@[j],
        decreases a@.len() - i,
    {
        if a[i] != b[i] {
            return false;
        }
        i = i + 1;
    }
    proof {
        assert(a@ =~= b@);
    }
    true
}

/// String equality, stated over the UTF-8 bytes of both sides.
pub fn str_eq(a: &str, b: &str) -> (r: bool)
    ensures
        r <==> a.spec_bytes() == b.spec_bytes(),
{
    bytes_eq(a.as_bytes(), b.as_bytes())
}

} // verus!
