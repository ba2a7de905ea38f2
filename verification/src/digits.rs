//! Decimal numbers as text: reading one at the head of a string, and writing one.

use vstd::prelude::*;
use vstd::string::StrSliceExecFns;

verus! {

/// `c` is one of the ten decimal digits.
pub open spec fn is_digit(c: char) -> bool {
    '0' <= c && c <= '9'
}

/// The number that a decimal digit stands for.
pub open spec fn digit_value(c: char) -> nat
    recommends
        is_digit(c),
{
    (c as u32 - '0' as u32) as nat
}

/// How many digits stand at the head of `s` before the first other character.
pub open spec fn digit_run(s: Seq<char>) -> nat
    decreases s.len(),
{
    if s.len() > 0 && is_digit(s[0]) {
        1 + digit_run(s.skip(1))
    } else {
        0
    }
}

/// The number that a sequence of digits denotes in base ten; the empty
/// sequence denotes 0.
pub open spec fn decimal_value(s: Seq<char>) -> nat
    decreases s.len(),
{
    if s.len() == 0 {
        0
    } else {
        decimal_value(s.drop_last()) * 10 + digit_value(s.last())
    }
}

/// `k` is the length of the digit run of `s` when the first `k` characters
/// are digits and the one after them, if there is one, is not.
pub proof fn lemma_digit_run(s: Seq<char>, k: nat)
    requires
        k <= s.len(),
        forall|j: int| 0 <= j < k ==> is_digit(#[trigger] s[j]),
        k == s.len() || !is_digit(s[k as int]),
    ensures
        digit_run(s) == k,
    decreases k,
{
    if k > 0 {
        let t = s.skip(1);
        assert forall|j: int| 0 <= j < k - 1 implies is_digit(#[trigger] t[j]) by {
            assert(t[j] == s[j + 1]);
        }
        lemma_digit_run(t, (k - 1) as nat);
    }
}

/// The value of the digit `c`, or `None` where `c` is no digit.
pub fn digit_of(c: char) -> (d: Option<usize>)
    ensures
        d == if is_digit(c) {
            Some(digit_value(c) as usize)
        } else {
            None
        },
{
    let n: u32 = c as u32;
    if 48 <= n && n <= 57 {
        Some((n - 48) as usize)
    } else {
        None
    }
}

/// Reads the number at the head of `s`: the length of the digit run and the
/// number it denotes. The number is `None` where it does not fit in `usize`.
pub fn read_number(s: &str) -> (r: (usize, Option<usize>))
    ensures
        r.0 == digit_run(s@),
        r.0 <= s@.len(),
        r.1 == if decimal_value(s@.take(r.0 as int)) <= usize::MAX {
            Some(decimal_value(s@.take(r.0 as int)) as usize)
        } else {
            None
        },
{
    let len: usize = s.unicode_len();
    let mut i: usize = 0;
    let mut value: Option<usize> = Some(0);
    while i < len
        invariant
            len == s@.len(),
            i <= len,
            forall|j: int| 0 <= j < i ==> is_digit(#[trigger] s@[j]),
            value == if decimal_value(s@.take(i as int)) <= usize::MAX {
                Some(decimal_value(s@.take(i as int)) as usize)
            } else {
                None
            },
        decreases len - i,
    {
        let d = match digit_of(s.get_char(i)) {
            Some(d) => d,
            None => {
                proof {
                    lemma_digit_run(s@, i as nat);
                }
                return (i, value);
            },
        };
        proof {
            assert(s@.take(i + 1).drop_last() =~= s@.take(i as int));
        }
        value = match value {
            Some(v) => match v.checked_mul(10) {
                Some(w) => w.checked_add(d),
                None => None,
            },
            None => None,
        };
        i = i + 1;
    }
    proof {
        lemma_digit_run(s@, i as nat);
    }
    (i, value)
}

} // verus!
