//! The built-in string-format checks.
//!
//! These are the registry implementations behind the string-format
//! validators.  Each predicate is deliberately simple and stated exactly:
//! an email is one `@` with text on both sides; a URL contains a scheme
//! separator after a non-empty scheme; a phone is seven to fifteen digits
//! with an optional leading `+`; a card number is twelve to nineteen
//! digits; a non-control string has no control character.

use vstd::prelude::*;
use crate::text::{chars_of, occurs_at, occurs_at_exec};

verus! {

/// A decimal digit.
pub open spec fn is_digit(c: char) -> bool {
    '0' <= c && c <= '9'
}

/// A control character: the low control range or delete.
pub open spec fn is_control(c: char) -> bool {
    (c as u32) < 32 || (c as u32) == 127
}

/// An acceptable email: exactly one `@`, neither first nor last.
pub open spec fn email_ok(s: Seq<char>) -> bool {
    exists|i: int|
        1 <= i && i + 1 < s.len() && s[i] == '@' && (forall|j: int|
            0 <= j < s.len() && j != i ==> s[j] != '@')
}

/// An acceptable URL: a scheme separator after a non-empty scheme.
pub open spec fn url_ok(s: Seq<char>) -> bool {
    exists|i: int| 1 <= i && occurs_at(s, "://"@, i)
}

/// The digits of a phone value: everything after an optional leading `+`.
pub open spec fn phone_digits(s: Seq<char>) -> Seq<char> {
    if s.len() > 0 && s[0] == '+' {
        s.drop_first()
    } else {
        s
    }
}

/// An acceptable phone value: seven to fifteen digits, optionally led by
/// `+`.
pub open spec fn phone_ok(s: Seq<char>) -> bool {
    let d = phone_digits(s);
    7 <= d.len() <= 15 && (forall|j: int| 0 <= j < d.len() ==> is_digit(d[j]))
}

/// The numeric value of a digit character.
pub open spec fn digit_val(c: char) -> int {
    c as int - '0' as int
}

/// The checksum of a digit string, peeling from the rightmost digit:
/// every second digit (counting from the right, starting with the
/// second) is doubled, a doubled value above nine reduced by nine, and
/// all contributions summed.
pub open spec fn luhn_sum(s: Seq<char>, double: bool) -> int
    decreases s.len(),
{
    if s.len() == 0 {
        0
    } else {
        let d = digit_val(s[s.len() - 1]);
        let dd = if double {
            if 2 * d > 9 {
                2 * d - 9
            } else {
                2 * d
            }
        } else {
            d
        };
        dd + luhn_sum(s.drop_last(), !double)
    }
}

/// An acceptable card number: twelve to nineteen digits whose checksum is
/// divisible by ten.
pub open spec fn credit_card_ok(s: Seq<char>) -> bool {
    12 <= s.len() <= 19 && (forall|j: int| 0 <= j < s.len() ==> is_digit(s[j])) && luhn_sum(
        s,
        false,
    ) % 10 == 0
}

/// A string free of control characters.
pub open spec fn non_control_ok(s: Seq<char>) -> bool {
    forall|j: int| 0 <= j < s.len() ==> !is_control(s[j])
}

/// Decides [`email_ok`].
pub fn email_check(s: &Vec<char>) -> (r: bool)
    ensures
        r == email_ok(s@),
{
    let n = s.len();
    let mut i: usize = 0;
    while i < n
        invariant
            n == s@.len(),
            0 <= i <= n,
            forall|j: int| 0 <= j < i ==> s@[j] != '@',
        decreases n - i,
    {
        if s[i] == '@' {
            let mut j: usize = i + 1;
            while j < n
                invariant
                    n == s@.len(),
                    0 <= i < n,
                    s@[i as int] == '@',
                    forall|k: int| 0 <= k < i ==> s@[k] != '@',
                    i < j <= n,
                    forall|k: int| i < k < j ==> s@[k] != '@',
                decreases n - j,
            {
                if s[j] == '@' {
                    assert forall|c: int|
                        !(1 <= c && c + 1 < s@.len() && s@[c] == '@' && (forall|l: int|
                            0 <= l < s@.len() && l != c ==> s@[l] != '@')) by {
                        if c == i as int {
                            assert(s@[j as int] == '@');
                        } else if 0 <= c < s@.len() && s@[c] == '@' {
                            assert(s@[i as int] == '@');
                        }
                    }
                    return false;
                }
                j = j + 1;
            }
            if i >= 1 && i + 1 < n {
                assert(email_ok(s@));
                return true;
            } else {
                assert forall|c: int|
                    !(1 <= c && c + 1 < s@.len() && s@[c] == '@' && (forall|l: int|
                        0 <= l < s@.len() && l != c ==> s@[l] != '@')) by {
                    if 1 <= c && c + 1 < s@.len() && s@[c] == '@' && c != i as int {
                        assert(s@[i as int] == '@');
                    }
                }
                return false;
            }
        }
        i = i + 1;
    }
    assert(!email_ok(s@));
    false
}

/// Decides [`url_ok`].
pub fn url_check(s: &Vec<char>) -> (r: bool)
    ensures
        r == url_ok(s@),
{
    let sep = chars_of("://");
    proof {
        reveal_strlit("://");
    }
    let sl = sep.len();
    assert(sl == 3);
    let n = s.len();
    if n < sl + 1 {
        assert(!url_ok(s@));
        return false;
    }
    let last = n - sl;
    let mut i: usize = 1;
    while i <= last
        invariant
            n == s@.len(),
            sep@ == "://"@,
            sl == sep@.len(),
            sl == 3,
            n >= sl + 1,
            last == n - sl,
            1 <= i <= last + 1,
            forall|k: int| 1 <= k < i ==> !occurs_at(s@, "://"@, k),
        decreases last + 1 - i,
    {
        if occurs_at_exec(s, &sep, i) {
            return true;
        }
        i = i + 1;
    }
    assert(forall|k: int| 1 <= k && occurs_at(s@, "://"@, k) ==> k <= last);
    false
}

/// Whether every character of `s` from `from` on is a digit.
fn digits_from(s: &Vec<char>, from: usize) -> (r: bool)
    requires
        from <= s@.len(),
    ensures
        r == (forall|j: int| from <= j < s@.len() ==> is_digit(s@[j])),
{
    let n = s.len();
    let mut i: usize = from;
    while i < n
        invariant
            n == s@.len(),
            from <= i <= n,
            forall|j: int| from <= j < i ==> is_digit(s@[j]),
        decreases n - i,
    {
        if s[i] < '0' || s[i] > '9' {
            return false;
        }
        i = i + 1;
    }
    true
}

/// Decides [`phone_ok`].
pub fn phone_check(s: &Vec<char>) -> (r: bool)
    ensures
        r == phone_ok(s@),
{
    let n = s.len();
    let start: usize = if n > 0 && s[0] == '+' {
        1
    } else {
        0
    };
    proof {
        if start == 1 {
            assert(phone_digits(s@) =~= s@.skip(1));
        } else {
            assert(phone_digits(s@) =~= s@);
        }
    }
    let dn = n - start;
    if dn < 7 || dn > 15 {
        return false;
    }
    let r = digits_from(s, start);
    proof {
        assert forall|j: int| 0 <= j < phone_digits(s@).len() implies phone_digits(s@)[j] == s@[j
            + start] by {}
        if r {
            assert forall|j: int| 0 <= j < phone_digits(s@).len() implies is_digit(
                phone_digits(s@)[j],
            ) by {
                assert(phone_digits(s@)[j] == s@[j + start]);
            }
        } else {
            let k = choose|j: int| start <= j < s@.len() && !is_digit(s@[j]);
            assert(phone_digits(s@)[k - start] == s@[k]);
            assert(!phone_ok(s@));
        }
    }
    r
}

/// Decides [`credit_card_ok`].
#[verifier::loop_isolation(false)]
pub fn credit_card_check(s: &Vec<char>) -> (r: bool)
    ensures
        r == credit_card_ok(s@),
{
    let n = s.len();
    if n < 12 || n > 19 {
        return false;
    }
    if !digits_from(s, 0) {
        return false;
    }
    let mut idx: usize = n;
    let mut double = false;
    let mut sum: u32 = 0;
    proof {
        assert(s@.take(n as int) =~= s@);
    }
    while idx > 0
        invariant
            0 <= idx <= n,
            sum <= 18 * (n - idx),
            double == (((n - idx) % 2) == 1),
            luhn_sum(s@, false) == sum + luhn_sum(s@.take(idx as int), double),
        decreases idx,
    {
        let c = s[idx - 1];
        assert(is_digit(s@[idx - 1]));
        let d = (c as u32) - 48;
        let dd = if double {
            if 2 * d > 9 {
                2 * d - 9
            } else {
                2 * d
            }
        } else {
            d
        };
        proof {
            assert(s@.take(idx as int).drop_last() =~= s@.take(idx - 1));
            assert(s@.take(idx as int)[idx - 1] == s@[idx - 1]);
        }
        sum = sum + dd;
        double = !double;
        idx = idx - 1;
    }
    proof {
        assert(s@.take(0) =~= Seq::<char>::empty());
    }
    sum % 10 == 0
}

/// Decides [`non_control_ok`].
pub fn non_control_check(s: &Vec<char>) -> (r: bool)
    ensures
        r == non_control_ok(s@),
{
    let n = s.len();
    let mut i: usize = 0;
    while i < n
        invariant
            n == s@.len(),
            0 <= i <= n,
            forall|j: int| 0 <= j < i ==> !is_control(s@[j]),
        decreases n - i,
    {
        let c = s[i];
        if (c as u32) < 32 || (c as u32) == 127 {
            return false;
        }
        i = i + 1;
    }
    true
}

} // verus!
