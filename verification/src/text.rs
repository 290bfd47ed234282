use vstd::prelude::*;
use vstd::string::StrSliceExecFns;

verus! {

/// The character is a decimal digit `'0'..='9'`.
pub open spec fn is_dec_digit(c: char) -> bool {
    48 <= c as int <= 57
}

/// The numeric value of one digit character.
pub open spec fn digit_value(c: char) -> int {
    c as int - 48
}

/// Every character of the sequence is a decimal digit.
pub open spec fn all_dec_digits(s: Seq<char>) -> bool {
    forall|i: int| 0 <= i < s.len() ==> is_dec_digit(#[trigger] s[i])
}

/// The integer a digit sequence denotes in base ten.
pub open spec fn digits_value(s: Seq<char>) -> int
    decreases s.len(),
{
    if s.len() == 0 {
        0
    } else {
        digits_value(s.drop_last()) * 10 + digit_value(s.last())
    }
}

/// The digit part of unsigned decimal text: one optional leading `+` sign
/// is dropped, everything else is kept.
pub open spec fn unsigned_digits(s: Seq<char>) -> Seq<char> {
    if s.len() > 0 && s[0] == '+' {
        s.drop_first()
    } else {
        s
    }
}

/// The text is a valid unsigned decimal for `u64`: after the optional sign
/// there is at least one character, all characters are digits, and the
/// denoted value fits.
pub open spec fn is_valid_u64_text(s: Seq<char>) -> bool {
    let d = unsigned_digits(s);
    d.len() > 0 && all_dec_digits(d) && digits_value(d) <= u64::MAX
}

/// The value that valid unsigned decimal text denotes.
pub open spec fn u64_text_value(s: Seq<char>) -> int {
    digits_value(unsigned_digits(s))
}

/// A digit sequence denotes a non-negative integer.
pub proof fn lemma_digits_value_nonneg(s: Seq<char>)
    requires
        all_dec_digits(s),
    ensures
        digits_value(s) >= 0,
    decreases s.len(),
{
    if s.len() > 0 {
        assert(all_dec_digits(s.drop_last()));
        lemma_digits_value_nonneg(s.drop_last());
    }
}

/// Dropping trailing digits never increases the denoted value.
pub proof fn lemma_digits_value_prefix_le(s: Seq<char>, i: int)
    requires
        all_dec_digits(s),
        0 <= i <= s.len(),
    ensures
        digits_value(s.subrange(0, i)) <= digits_value(s),
    decreases s.len() - i,
{
    if i < s.len() {
        lemma_digits_value_prefix_le(s, i + 1);
        let p = s.subrange(0, i);
        let q = s.subrange(0, i + 1);
        assert(q.drop_last() =~= p);
        assert(all_dec_digits(p));
        lemma_digits_value_nonneg(p);
        assert(digits_value(q) == digits_value(p) * 10 + digit_value(s[i]));
    } else {
        assert(s.subrange(0, i) =~= s);
    }
}

/// Character-for-character equality of two string slices.
pub fn str_eq(a: &str, b: &str) -> (r: bool)
    ensures
        r == (a@ == b@),
{
    let alen: usize = a.unicode_len();
    let blen: usize = b.unicode_len();
    if alen != blen {
        return false;
    }
    let mut i: usize = 0;
    while i < alen
        invariant
            0 <= i <= alen,
            alen == a@.len(),
            alen == b@.len(),
            forall|j: int| 0 <= j < i ==> a@[j] == b@[j],
        decreases alen - i,
    {
        if a.get_char(i) != b.get_char(i) {
            return false;
        }
        i += 1;
    }
    proof {
        assert(a@ =~= b@);
    }
    true
}

/// Parse unsigned decimal text into a `u64`: an optional leading `+`, then
/// one or more digit characters. Any other character, an empty digit part,
/// or a value beyond `u64::MAX` is rejected.
pub fn parse_u64(s: &str) -> (r: Option<u64>)
    ensures
        match r {
            Some(n) => is_valid_u64_text(s@) && n == u64_text_value(s@),
            None => !is_valid_u64_text(s@),
        },
{
    let len: usize = s.unicode_len();
    let start: usize = if len > 0 && s.get_char(0) == '+' {
        1
    } else {
        0
    };
    let ghost d = unsigned_digits(s@);
    proof {
        assert(d =~= s@.subrange(start as int, len as int));
    }
    if start >= len {
        proof {
            assert(d.len() == 0);
        }
        return None;
    }
    let mut acc: u64 = 0;
    let mut i: usize = start;
    while i < len
        invariant
            start <= i <= len,
            len == s@.len(),
            d == unsigned_digits(s@),
            d =~= s@.subrange(start as int, len as int),
            all_dec_digits(s@.subrange(start as int, i as int)),
            acc == digits_value(s@.subrange(start as int, i as int)),
        decreases len - i,
    {
        let c = s.get_char(i);
        let v: u32 = c as u32;
        if v < 48 || v > 57 {
            proof {
                assert(d[i - start] == s@[i as int]);
                assert(!all_dec_digits(d));
            }
            return None;
        }
        let digit: u64 = (v - 48) as u64;
        let ghost p = s@.subrange(start as int, i as int);
        let ghost q = s@.subrange(start as int, i + 1);
        proof {
            assert(q.drop_last() =~= p);
            assert(q.last() == s@[i as int]);
            assert(digit == digit_value(s@[i as int]));
            assert(digits_value(q) == acc * 10 + digit);
            assert forall|j: int| 0 <= j < q.len() implies is_dec_digit(q[j]) by {
                if j < i - start {
                    assert(q[j] == p[j]);
                } else {
                    assert(q[j] == s@[i as int]);
                }
            }
        }
        let next: Option<u64> = match acc.checked_mul(10) {
            Some(m) => m.checked_add(digit),
            None => None,
        };
        match next {
            Some(n) => {
                acc = n;
                i += 1;
            },
            None => {
                proof {
                    assert(digits_value(q) > u64::MAX);
                    if all_dec_digits(d) {
                        assert(q =~= d.subrange(0, i + 1 - start));
                        lemma_digits_value_prefix_le(d, i + 1 - start);
                    }
                }
                return None;
            },
        }
    }
    proof {
        assert(s@.subrange(start as int, len as int) =~= d);
        assert(d.len() > 0);
    }
    Some(acc)
}

} // verus!
