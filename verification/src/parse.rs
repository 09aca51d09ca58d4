//! Verified field coercions used by the listening-history adapter: the
//! service's loose string booleans, its string-encoded Unix timestamps, and
//! the nested now-playing flag.

use vstd::prelude::*;
use vstd::string::StrSliceExecFns;

verus! {

/// ASCII lower-case code of a character: the letters A..Z map to a..z,
/// every other character keeps its own code point.
pub open spec fn lower_code(c: char) -> int {
    if 65 <= c as int && c as int <= 90 {
        c as int + 32
    } else {
        c as int
    }
}

/// Equal up to ASCII letter case.
pub open spec fn ascii_ieq(a: Seq<char>, b: Seq<char>) -> bool {
    &&& a.len() == b.len()
    &&& forall|i: int| 0 <= i < a.len() ==> lower_code(a[i]) == lower_code(b[i])
}

/// The service's loose boolean encoding: "1", or "true" in any letter case,
/// is true; everything else, absence included, is false.
pub open spec fn spec_loose_bool(s: Seq<char>) -> bool {
    ||| ascii_ieq(s, "true"@)
    ||| ascii_ieq(s, "1"@)
}

/// Whether two strings are equal up to ASCII letter case.
pub fn eq_ignore_ascii_case(a: &str, b: &str) -> (r: bool)
    ensures
        r == ascii_ieq(a@, b@),
{
    let a_len = a.unicode_len();
    let b_len = b.unicode_len();
    if a_len != b_len {
        return false;
    }
    let mut i: usize = 0;
    while i < a_len
        invariant
            a_len == a@.len(),
            a_len == b@.len(),
            i <= a_len,
            forall|k: int| 0 <= k < i ==> lower_code(a@[k]) == lower_code(b@[k]),
        decreases a_len - i,
    {
        let ca = a.get_char(i) as u32;
        let cb = b.get_char(i) as u32;
        let la = if 65 <= ca && ca <= 90 {
            ca + 32
        } else {
            ca
        };
        let lb = if 65 <= cb && cb <= 90 {
            cb + 32
        } else {
            cb
        };
        if la != lb {
            return false;
        }
        i += 1;
    }
    true
}

/// The loose boolean read of an optional field: absence and any string
/// other than "1" or a casing of "true" are false.
pub fn parse_loose_bool(s: &Option<String>) -> (r: bool)
    ensures
        r == (s matches Some(t) && spec_loose_bool(t@)),
{
    match s {
        Some(t) => eq_ignore_ascii_case(t.as_str(), "true") || eq_ignore_ascii_case(
            t.as_str(),
            "1",
        ),
        None => false,
    }
}

/// The nested now-playing flag: set exactly when the attribute holds the
/// string "true", letter for letter.
pub fn attr_flag_is_true(v: &Option<String>) -> (r: bool)
    ensures
        r == (v matches Some(t) && t@ == "true"@),
{
    match v {
        Some(t) => {
            let lit: String = "true".to_owned();
            *t == lit
        },
        None => false,
    }
}

/// The character is a decimal digit.
pub open spec fn is_digit(c: char) -> bool {
    48 <= c as int && c as int <= 57
}

/// The numeric value of a decimal digit character.
pub open spec fn digit_val(c: char) -> nat {
    (c as int - 48) as nat
}

/// Every character of the sequence is a decimal digit.
pub open spec fn all_digits(s: Seq<char>) -> bool {
    forall|i: int| 0 <= i < s.len() ==> is_digit(s[i])
}

/// The number a sequence of decimal digits denotes, most significant first.
pub open spec fn digits_value(s: Seq<char>) -> nat
    decreases s.len(),
{
    if s.len() == 0 {
        0
    } else {
        digits_value(s.drop_last()) * 10 + digit_val(s.last())
    }
}

proof fn lemma_prefix_value_le(s: Seq<char>, i: int)
    requires
        0 <= i <= s.len(),
    ensures
        digits_value(s.subrange(0, i)) <= digits_value(s),
    decreases s.len() - i,
{
    if i == s.len() {
        assert(s.subrange(0, i) =~= s);
    } else {
        lemma_prefix_value_le(s, i + 1);
        let longer = s.subrange(0, i + 1);
        assert(longer.drop_last() =~= s.subrange(0, i));
        assert(digits_value(s.subrange(0, i)) <= digits_value(s.subrange(0, i)) * 10 + digit_val(
            longer.last(),
        ));
    }
}

/// Reads a string-encoded Unix timestamp: the value of a non-empty run of
/// decimal digits, and nothing else; a value beyond `u64::MAX` is rejected
/// rather than wrapped.
pub fn parse_unix_seconds(s: &str) -> (r: Option<u64>)
    ensures
        r is Some <==> (s@.len() > 0 && all_digits(s@) && digits_value(s@) <= u64::MAX),
        r matches Some(v) ==> v == digits_value(s@),
{
    let n = s.unicode_len();
    if n == 0 {
        return None;
    }
    let mut acc: u64 = 0;
    let mut i: usize = 0;
    while i < n
        invariant
            n == s@.len(),
            i <= n,
            all_digits(s@.subrange(0, i as int)),
            acc == digits_value(s@.subrange(0, i as int)),
        decreases n - i,
    {
        let c = s.get_char(i) as u32;
        if c < 48 || c > 57 {
            proof {
                assert(!is_digit(s@[i as int]));
            }
            return None;
        }
        let d = (c - 48) as u64;
        proof {
            assert(s@.subrange(0, i + 1 as int).drop_last() =~= s@.subrange(0, i as int));
        }
        let widened = match acc.checked_mul(10) {
            Some(m) => m,
            None => {
                proof {
                    lemma_prefix_value_le(s@, i + 1 as int);
                }
                return None;
            },
        };
        let next = match widened.checked_add(d) {
            Some(v) => v,
            None => {
                proof {
                    lemma_prefix_value_le(s@, i + 1 as int);
                }
                return None;
            },
        };
        acc = next;
        i += 1;
    }
    proof {
        assert(s@.subrange(0, n as int) =~= s@);
    }
    Some(acc)
}

} // verus!
