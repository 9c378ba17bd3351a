//! Base-10 integers as they stand in a header value: an optional sign, then
//! one or more ASCII digits, with nothing before or after.

use vstd::prelude::*;

verus! {

/// Whether a character is an ASCII digit.
pub open spec fn is_digit(c: char) -> bool {
    '0' <= c <= '9'
}

/// The number a digit stands for.
pub open spec fn digit_value(c: char) -> int {
    c as int - '0' as int
}

/// Whether every character is an ASCII digit.
pub open spec fn all_digits(s: Seq<char>) -> bool {
    forall|i: int| 0 <= i < s.len() ==> is_digit(#[trigger] s[i])
}

/// The number a string of digits stands for, read left to right.
pub open spec fn digits_value(s: Seq<char>) -> int
    decreases s.len(),
{
    if s.len() == 0 {
        0
    } else {
        digits_value(s.drop_last()) * 10 + digit_value(s.last())
    }
}

/// Whether a string starts with a sign.
pub open spec fn has_sign(s: Seq<char>) -> bool {
    s.len() > 0 && (s[0] == '-' || s[0] == '+')
}

/// The part of a string behind its sign, if it has one.
pub open spec fn unsigned_part(s: Seq<char>) -> Seq<char> {
    if has_sign(s) {
        s.subrange(1, s.len() as int)
    } else {
        s
    }
}

/// The digits among the first `count` characters of a string.
pub open spec fn digits_seen(s: Seq<char>, count: int) -> Seq<char> {
    unsigned_part(s.subrange(0, count))
}

/// The integer a string stands for: `None` unless it is an optional `+` or
/// `-` followed by at least one digit and nothing else.
pub open spec fn signed_value(s: Seq<char>) -> Option<int> {
    let digits = unsigned_part(s);
    if digits.len() == 0 || !all_digits(digits) {
        None
    } else if s[0] == '-' {
        Some(-digits_value(digits))
    } else {
        Some(digits_value(digits))
    }
}

/// The 64-bit integer a string stands for: `None` where it is no integer or
/// does not fit.
pub open spec fn decimal_value(s: Seq<char>) -> Option<i64> {
    match signed_value(s) {
        Some(v) => if i64::MIN <= v <= i64::MAX {
            Some(v as i64)
        } else {
            None
        },
        None => None,
    }
}

/// Appending digits never makes the number smaller.
pub proof fn lemma_digits_value_grows(s: Seq<char>, shorter: int)
    requires
        all_digits(s),
        0 <= shorter <= s.len(),
    ensures
        0 <= digits_value(s.subrange(0, shorter)) <= digits_value(s),
    decreases s.len() - shorter,
{
    let head = s.subrange(0, shorter);
    lemma_digits_value_nonnegative(head);
    if shorter < s.len() {
        let next = s.subrange(0, shorter + 1);
        assert(next.drop_last() =~= head);
        assert(is_digit(s[shorter]));
        assert(next.last() == s[shorter]);
        lemma_digits_value_grows(s, shorter + 1);
    } else {
        assert(head =~= s);
    }
}

/// A string of digits stands for no negative number.
pub proof fn lemma_digits_value_nonnegative(s: Seq<char>)
    requires
        all_digits(s),
    ensures
        0 <= digits_value(s),
    decreases s.len(),
{
    if s.len() > 0 {
        assert(is_digit(s[s.len() - 1]));
        lemma_digits_value_nonnegative(s.drop_last());
    }
}

/// Reads a base-10 integer: an optional `+` or `-`, then one or more ASCII
/// digits. Anything else, and any number outside the 64-bit range, is `None`.
pub fn parse_decimal(text: &str) -> (parsed: Option<i64>)
    ensures
        parsed == decimal_value(text@),
{
    let mut at_start = true;
    let mut negative = false;
    let mut any_digit = false;
    let mut acc: i64 = 0;
    for c in it: text.chars()
        invariant
            it.seq() == text@,
            at_start == (it.index() == 0),
            negative == (it.index() > 0 && text@[0] == '-'),
            any_digit ==> it.index() > 0,
            all_digits(digits_seen(text@, it.index() as int)),
            any_digit == (digits_seen(text@, it.index() as int).len() > 0),
            acc == if negative {
                -digits_value(digits_seen(text@, it.index() as int))
            } else {
                digits_value(digits_seen(text@, it.index() as int))
            },
    {
        let ghost i = it.index() as int;
        let ghost seen = text@.subrange(0, i);
        let ghost next = text@.subrange(0, i + 1);
        proof {
            assert(next.drop_last() =~= seen);
            assert(next.last() == c);
        }
        if at_start && (c == '-' || c == '+') {
            negative = c == '-';
            proof {
                assert(unsigned_part(next) =~= Seq::<char>::empty());
            }
        } else if '0' <= c && c <= '9' {
            let digit: i64 = (c as u32 - '0' as u32) as i64;
            proof {
                assert(unsigned_part(next).drop_last() =~= unsigned_part(seen));
                assert(unsigned_part(next).last() == c);
                assert(digit == digit_value(c));
            }
            let scaled = acc.checked_mul(10);
            let stepped = match scaled {
                Some(scaled) => if negative {
                    scaled.checked_sub(digit)
                } else {
                    scaled.checked_add(digit)
                },
                None => None,
            };
            match stepped {
                Some(value) => {
                    acc = value;
                    any_digit = true;
                    assert(all_digits(digits_seen(text@, i + 1))) by {
                        let before = digits_seen(text@, i);
                        let after = digits_seen(text@, i + 1);
                        assert forall|j: int| 0 <= j < after.len() implies is_digit(
                            #[trigger] after[j],
                        ) by {
                            if j < after.len() - 1 {
                                assert(after[j] == before[j]);
                            }
                        }
                    }
                },
                None => {
                    proof {
                        let all = unsigned_part(text@);
                        if all_digits(all) {
                            let offset = if has_sign(text@) { 1int } else { 0int };
                            assert(all.subrange(0, i + 1 - offset) =~= unsigned_part(next));
                            lemma_digits_value_grows(all, i + 1 - offset);
                        }
                    }
                    return None;
                },
            }
        } else {
            proof {
                let all = unsigned_part(text@);
                let offset = if has_sign(text@) { 1int } else { 0int };
                assert(all[i - offset] == c);
            }
            return None;
        }
        at_start = false;
    }
    proof {
        assert(text@.subrange(0, text@.len() as int) =~= text@);
    }
    if any_digit {
        Some(acc)
    } else {
        None
    }
}

} // verus!
