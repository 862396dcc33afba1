//! Small text routines that the rest of the library is stated over: decimal
//! rendering, the prefix test, and the split of a `KEY=VALUE` entry.

use vstd::prelude::*;
use vstd::string::StringExecFns;
use vstd::string::StrSliceExecFns;

verus! {

/// The character of a decimal digit.
pub open spec fn digit_char(d: nat) -> char {
    if d == 0 {
        '0'
    } else if d == 1 {
        '1'
    } else if d == 2 {
        '2'
    } else if d == 3 {
        '3'
    } else if d == 4 {
        '4'
    } else if d == 5 {
        '5'
    } else if d == 6 {
        '6'
    } else if d == 7 {
        '7'
    } else if d == 8 {
        '8'
    } else {
        '9'
    }
}

/// The decimal numeral of `n`: most significant digit first, no sign, no
/// leading zero but for zero itself.
pub open spec fn decimal_text(n: nat) -> Seq<char>
    decreases n,
{
    if n < 10 {
        seq![digit_char(n)]
    } else {
        decimal_text(n / 10).push(digit_char(n % 10))
    }
}

fn digit_str(d: u64) -> (s: &'static str)
    requires
        d < 10,
    ensures
        s@ == seq![digit_char(d as nat)],
{
    proof {
        reveal_strlit("0");
        reveal_strlit("1");
        reveal_strlit("2");
        reveal_strlit("3");
        reveal_strlit("4");
        reveal_strlit("5");
        reveal_strlit("6");
        reveal_strlit("7");
        reveal_strlit("8");
        reveal_strlit("9");
    }
    let s = if d == 0 {
        "0"
    } else if d == 1 {
        "1"
    } else if d == 2 {
        "2"
    } else if d == 3 {
        "3"
    } else if d == 4 {
        "4"
    } else if d == 5 {
        "5"
    } else if d == 6 {
        "6"
    } else if d == 7 {
        "7"
    } else if d == 8 {
        "8"
    } else {
        "9"
    };
    assert(s@ =~= seq![digit_char(d as nat)]);
    s
}

/// Renders `n` as its decimal numeral.
pub fn decimal(n: u64) -> (text: String)
    ensures
        text@ == decimal_text(n as nat),
    decreases n,
{
    if n < 10 {
        String::from_str(digit_str(n))
    } else {
        let mut text = decimal(n / 10);
        text.append(digit_str(n % 10));
        text
    }
}

/// Numerals of different numbers differ.
pub proof fn lemma_decimal_text_injective(a: nat, b: nat)
    requires
        decimal_text(a) == decimal_text(b),
    ensures
        a == b,
    decreases a + b,
{
    if a < 10 && b < 10 {
        assert(decimal_text(a)[0] == digit_char(a));
        assert(decimal_text(b)[0] == digit_char(b));
    } else if a >= 10 && b >= 10 {
        let ta = decimal_text(a / 10);
        let tb = decimal_text(b / 10);
        assert(decimal_text(a).drop_last() == ta);
        assert(decimal_text(b).drop_last() == tb);
        assert(decimal_text(a).last() == digit_char(a % 10));
        assert(decimal_text(b).last() == digit_char(b % 10));
        lemma_decimal_text_injective(a / 10, b / 10);
    } else if a >= 10 {
        lemma_decimal_text_len(a / 10);
        assert(decimal_text(a).len() >= 2);
        assert(decimal_text(b).len() == 1);
    } else {
        lemma_decimal_text_len(b / 10);
        assert(decimal_text(b).len() >= 2);
        assert(decimal_text(a).len() == 1);
    }
}

/// A numeral has at least one digit.
pub proof fn lemma_decimal_text_len(n: nat)
    ensures
        decimal_text(n).len() >= 1,
    decreases n,
{
    if n >= 10 {
        lemma_decimal_text_len(n / 10);
    }
}

/// `text` begins with `prefix`.
pub open spec fn has_prefix(text: Seq<char>, prefix: Seq<char>) -> bool {
    prefix.len() <= text.len() && text.subrange(0, prefix.len() as int) == prefix
}

/// Tests whether `text` begins with `prefix`, character by character.
pub fn starts_with(text: &str, prefix: &str) -> (yes: bool)
    ensures
        yes == has_prefix(text@, prefix@),
{
    let n = prefix.unicode_len();
    if text.unicode_len() < n {
        return false;
    }
    let mut i: usize = 0;
    while i < n
        invariant
            i <= n,
            n == prefix@.len(),
            n <= text@.len(),
            forall|j: int| 0 <= j < i ==> text@[j] == prefix@[j],
        decreases n - i,
    {
        if text.get_char(i) != prefix.get_char(i) {
            assert(text@.subrange(0, n as int)[i as int] != prefix@[i as int]);
            return false;
        }
        i += 1;
    }
    assert(text@.subrange(0, n as int) =~= prefix@);
    true
}

/// `c` is one of the ten ASCII digits.
pub open spec fn is_digit(c: char) -> bool {
    48 <= c as u32 <= 57
}

/// The value of a digit; 0 for any other character.
pub open spec fn digit_of(c: char) -> nat {
    if is_digit(c) {
        (c as u32 - 48) as nat
    } else {
        0
    }
}

/// The number that a run of digits denotes, most significant digit first.
pub open spec fn digits_value(digits: Seq<char>) -> nat
    decreases digits.len(),
{
    if digits.len() == 0 {
        0
    } else {
        digits_value(digits.drop_last()) * 10 + digit_of(digits.last())
    }
}

/// Every character of `text` is a digit.
pub open spec fn all_digits(text: Seq<char>) -> bool {
    forall|i: int| 0 <= i < text.len() ==> is_digit(#[trigger] text[i])
}

/// `text` without the plus sign that may stand in front of a number.
pub open spec fn unsigned_part(text: Seq<char>) -> Seq<char> {
    if text.len() > 0 && text[0] == '+' {
        text.skip(1)
    } else {
        text
    }
}

/// The number that `text` denotes as a `u32`: an optional plus sign and then
/// digits, at least one, and nothing else; `None` for any other text and for
/// a number that does not fit.
pub open spec fn parsed_u32(text: Seq<char>) -> Option<u32> {
    let digits = unsigned_part(text);
    if digits.len() > 0 && all_digits(digits) && digits_value(digits) <= u32::MAX {
        Some(digits_value(digits) as u32)
    } else {
        None
    }
}

/// A run of digits denotes no less than any run that it begins with.
pub proof fn lemma_digits_value_prefix(digits: Seq<char>, n: int)
    requires
        0 <= n <= digits.len(),
    ensures
        digits_value(digits.take(n)) <= digits_value(digits),
    decreases digits.len(),
{
    if n == digits.len() {
        assert(digits.take(n) == digits);
    } else {
        lemma_digits_value_prefix(digits.drop_last(), n);
        assert(digits.drop_last().take(n) == digits.take(n));
    }
}

/// Reads a decimal number that fits a `u32`.
pub fn parse_u32(text: &str) -> (number: Option<u32>)
    ensures
        number == parsed_u32(text@),
{
    let n = text.unicode_len();
    let start: usize = if n > 0 && text.get_char(0) == '+' {
        1
    } else {
        0
    };
    let ghost digits = unsigned_part(text@);
    assert(digits == text@.skip(start as int));
    if start == n {
        return None;
    }
    let mut value: u64 = 0;
    let mut i: usize = start;
    while i < n
        invariant
            start <= i <= n,
            n == text@.len(),
            digits == text@.skip(start as int),
            digits == unsigned_part(text@),
            value == digits_value(digits.take(i - start)),
            value <= u32::MAX,
            forall|j: int| 0 <= j < i - start ==> is_digit(#[trigger] digits[j]),
        decreases n - i,
    {
        let c = text.get_char(i);
        let code = c as u32;
        assert(digits[i - start] == c);
        if code < 48 || code > 57 {
            assert(!is_digit(digits[i - start]));
            return None;
        }
        let next = value * 10 + (code - 48) as u64;
        proof {
            let longer = digits.take(i + 1 - start);
            assert(longer.drop_last() == digits.take(i - start));
            assert(longer.last() == c);
            assert(next == digits_value(longer));
            lemma_digits_value_prefix(digits, i + 1 - start);
        }
        if next > u32::MAX as u64 {
            assert(digits_value(digits) > u32::MAX);
            return None;
        }
        value = next;
        i += 1;
    }
    proof {
        assert(digits.take(i - start) == digits);
    }
    Some(value as u32)
}

/// Tests whether two texts are the same.
pub fn same_text(a: &str, b: &str) -> (same: bool)
    ensures
        same == (a@ == b@),
{
    if a.unicode_len() != b.unicode_len() {
        return false;
    }
    let same = starts_with(a, b);
    proof {
        if same {
            assert(a@.subrange(0, b@.len() as int) == a@);
        }
        if a@ == b@ {
            assert(a@.subrange(0, b@.len() as int) == b@);
        }
    }
    same
}

/// The number of characters before the first `=` of `entry`; its whole
/// length where it holds none.
pub open spec fn key_len(entry: Seq<char>) -> nat
    decreases entry.len(),
{
    if entry.len() == 0 || entry.first() == '=' {
        0
    } else {
        1 + key_len(entry.drop_first())
    }
}

/// The key of a `KEY=VALUE` entry: what stands before the first `=`.
pub open spec fn entry_key(entry: Seq<char>) -> Seq<char> {
    entry.take(key_len(entry) as int)
}

/// The value of a `KEY=VALUE` entry: what stands behind the first `=`, and
/// nothing where there is none.
pub open spec fn entry_value(entry: Seq<char>) -> Seq<char> {
    if key_len(entry) < entry.len() {
        entry.skip(key_len(entry) as int + 1)
    } else {
        Seq::empty()
    }
}

/// `key_len` is the least position of an `=`, or the length.
pub proof fn lemma_key_len(entry: Seq<char>, k: int)
    requires
        0 <= k <= entry.len(),
        forall|j: int| 0 <= j < k ==> entry[j] != '=',
        k < entry.len() ==> entry[k] == '=',
    ensures
        key_len(entry) == k,
    decreases k,
{
    if k > 0 {
        let rest = entry.drop_first();
        assert forall|j: int| 0 <= j < k - 1 implies rest[j] != '=' by {
            assert(rest[j] == entry[j + 1]);
        }
        lemma_key_len(rest, k - 1);
    }
}

/// Splits a `KEY=VALUE` entry at its first `=`. An entry without one is a
/// key with the empty value.
pub fn split_entry(entry: &str) -> (pair: (String, String))
    ensures
        pair.0@ == entry_key(entry@),
        pair.1@ == entry_value(entry@),
{
    let n = entry.unicode_len();
    let mut k: usize = 0;
    while k < n && entry.get_char(k) != '='
        invariant
            k <= n,
            n == entry@.len(),
            forall|j: int| 0 <= j < k ==> entry@[j] != '=',
        decreases n - k,
    {
        k += 1;
    }
    proof {
        lemma_key_len(entry@, k as int);
    }
    let key = String::from_str(entry.substring_char(0, k));
    let value = if k < n {
        String::from_str(entry.substring_char(k + 1, n))
    } else {
        String::new()
    };
    (key, value)
}

} // verus!
