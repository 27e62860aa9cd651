//! Named entries and decimal numbers: the two textual forms the job reads.

use vstd::prelude::*;

verus! {

/// The value of the first entry called `name`, if there is one.
pub open spec fn lookup<V>(entries: Seq<(Seq<char>, V)>, name: Seq<char>) -> Option<V>
    decreases entries.len(),
{
    if entries.len() == 0 {
        None
    } else if entries[0].0 == name {
        Some(entries[0].1)
    } else {
        lookup(entries.drop_first(), name)
    }
}

/// An entry that is looked up is found at its first position.
pub proof fn lemma_lookup_first<V>(entries: Seq<(Seq<char>, V)>, name: Seq<char>, i: int)
    requires
        0 <= i < entries.len(),
        entries[i].0 == name,
        forall|j: int| 0 <= j < i ==> entries[j].0 != name,
    ensures
        lookup(entries, name) == Some(entries[i].1),
    decreases i,
{
    if i > 0 {
        let rest = entries.drop_first();
        assert forall|j: int| 0 <= j < i - 1 implies rest[j].0 != name by {
            assert(rest[j] == entries[j + 1]);
        }
        lemma_lookup_first(rest, name, i - 1);
    }
}

/// A name that no entry carries is not found.
pub proof fn lemma_lookup_absent<V>(entries: Seq<(Seq<char>, V)>, name: Seq<char>)
    requires
        forall|j: int| 0 <= j < entries.len() ==> entries[j].0 != name,
    ensures
        lookup(entries, name) is None,
    decreases entries.len(),
{
    if entries.len() > 0 {
        let rest = entries.drop_first();
        assert forall|j: int| 0 <= j < rest.len() implies rest[j].0 != name by {
            assert(rest[j] == entries[j + 1]);
        }
        lemma_lookup_absent(rest, name);
    }
}

/// Index of the first entry called `name`.
pub fn position<T: DeepView>(entries: &Vec<(String, T)>, name: &String) -> (found: Option<usize>)
    ensures
        match found {
            Some(i) => {
                &&& i < entries.len()
                &&& entries[i as int].0@ == name@
                &&& forall|j: int| 0 <= j < i ==> entries[j].0@ != name@
                &&& lookup(entries.deep_view(), name@) == Some(entries[i as int].1.deep_view())
            },
            None => {
                &&& forall|j: int| 0 <= j < entries.len() ==> entries[j].0@ != name@
                &&& lookup(entries.deep_view(), name@) is None
            },
        },
{
    let mut i: usize = 0;
    while i < entries.len()
        invariant
            i <= entries.len(),
            forall|j: int| 0 <= j < i ==> entries[j].0@ != name@,
        decreases entries.len() - i,
    {
        if entries[i].0 == *name {
            proof {
                lemma_lookup_first(entries.deep_view(), name@, i as int);
            }
            return Some(i);
        }
        i += 1;
    }
    proof {
        lemma_lookup_absent(entries.deep_view(), name@);
    }
    None
}

/// Whether `c` is one of the ten decimal digits.
pub open spec fn is_digit(c: char) -> bool {
    '0' <= c <= '9'
}

/// Whether every character of `digits` is a decimal digit.
pub open spec fn all_digits(digits: Seq<char>) -> bool {
    forall|i: int| 0 <= i < digits.len() ==> is_digit(#[trigger] digits[i])
}

/// The number that a run of decimal digits writes, most significant digit first.
pub open spec fn digits_value(digits: Seq<char>) -> int
    decreases digits.len(),
{
    if digits.len() == 0 {
        0
    } else {
        10 * digits_value(digits.drop_last()) + (digits.last() as int - '0' as int)
    }
}

/// The integer that `text` writes in decimal: an optional `+` or `-`, then one
/// or more digits and nothing else.
pub open spec fn decimal(text: Seq<char>) -> Option<int> {
    let signed = text.len() > 0 && (text[0] == '-' || text[0] == '+');
    let digits = if signed {
        text.skip(1)
    } else {
        text
    };
    if digits.len() == 0 || !all_digits(digits) {
        None
    } else if text[0] == '-' {
        Some(-digits_value(digits))
    } else {
        Some(digits_value(digits))
    }
}

/// The integer that `text` writes in decimal, if it fits in 64 bits.
pub open spec fn decimal_i64(text: Seq<char>) -> Option<i64> {
    match decimal(text) {
        Some(value) => if i64::MIN <= value <= i64::MAX {
            Some(value as i64)
        } else {
            None
        },
        None => None,
    }
}

/// Digits never write a negative number, and more digits never write a smaller one.
pub proof fn lemma_digits_value_grows(digits: Seq<char>, k: int)
    requires
        all_digits(digits),
        0 <= k <= digits.len(),
    ensures
        0 <= digits_value(digits.take(k)) <= digits_value(digits),
    decreases digits.len() - k,
{
    if k == digits.len() {
        assert(digits.take(k) =~= digits);
        lemma_digits_value_nonnegative(digits);
    } else {
        let shorter = digits.drop_last();
        assert(shorter.take(k) =~= digits.take(k));
        assert forall|i: int| 0 <= i < shorter.len() implies is_digit(#[trigger] shorter[i]) by {
            assert(shorter[i] == digits[i]);
        }
        lemma_digits_value_grows(shorter, k);
        assert(is_digit(digits[digits.len() - 1]));
    }
}

/// Digits never write a negative number.
pub proof fn lemma_digits_value_nonnegative(digits: Seq<char>)
    requires
        all_digits(digits),
    ensures
        0 <= digits_value(digits),
    decreases digits.len(),
{
    if digits.len() > 0 {
        let shorter = digits.drop_last();
        assert forall|i: int| 0 <= i < shorter.len() implies is_digit(#[trigger] shorter[i]) by {
            assert(shorter[i] == digits[i]);
        }
        lemma_digits_value_nonnegative(shorter);
        assert(is_digit(digits[digits.len() - 1]));
    }
}

/// Reads a signed decimal integer of 64 bits.
pub fn parse_i64(text: &str) -> (parsed: Option<i64>)
    ensures
        parsed == decimal_i64(text@),
{
    let n = text.unicode_len();
    if n == 0 {
        return None;
    }
    let first = text.get_char(0);
    let negative = first == '-';
    let start: usize = if first == '-' || first == '+' {
        1
    } else {
        0
    };
    let ghost digits = text@.skip(start as int);
    if start == n {
        return None;
    }
    let mut value: i64 = 0;
    let mut i: usize = start;
    while i < n
        invariant
            start <= i <= n,
            start < n,
            n == text@.len(),
            negative == (text@[0] == '-'),
            start == if text@[0] == '-' || text@[0] == '+' { 1usize } else { 0usize },
            digits == text@.skip(start as int),
            all_digits(digits.take(i - start)),
            negative ==> value == -digits_value(digits.take(i - start)),
            !negative ==> value == digits_value(digits.take(i - start)),
        decreases n - i,
    {
        let c = text.get_char(i);
        let ghost seen = digits.take(i - start);
        let ghost more = digits.take(i - start + 1);
        proof {
            assert(digits[i - start] == c);
            assert(more.drop_last() =~= seen);
            assert(more.last() == c);
        }
        if !('0' <= c && c <= '9') {
            return None;
        }
        proof {
            assert forall|j: int| 0 <= j < more.len() implies is_digit(#[trigger] more[j]) by {
                if j < seen.len() {
                    assert(more[j] == seen[j]);
                }
            }
            lemma_digits_value_nonnegative(seen);
        }
        let digit: i128 = (c as u32 - '0' as u32) as i128;
        let wide: i128 = if negative {
            value as i128 * 10 - digit
        } else {
            value as i128 * 10 + digit
        };
        if wide < i64::MIN as i128 || wide > i64::MAX as i128 {
            proof {
                assert(text@.skip(0) =~= text@);
                if all_digits(digits) {
                    lemma_digits_value_grows(digits, i - start + 1);
                }
            }
            return None;
        }
        value = wide as i64;
        i += 1;
    }
    proof {
        assert(text@.skip(0) =~= text@);
        assert(digits.take(n - start) =~= digits);
    }
    Some(value)
}

} // verus!
