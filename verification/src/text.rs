//! Helpers on text: comparing and copying, and reading and writing decimal numbers.

use vstd::prelude::*;

verus! {

/// Whether two string slices hold the same characters.
pub fn same_text(a: &str, b: &str) -> (r: bool)
    ensures
        r == (a@ == b@),
{
    let n = a.unicode_len();
    if b.unicode_len() != n {
        return false;
    }
    let mut i: usize = 0;
    while i < n
        invariant
            n == a@.len(),
            n == b@.len(),
            i <= n,
            forall|j: int| 0 <= j < i ==> a@[j] == b@[j],
        decreases n - i,
    {
        if a.get_char(i) != b.get_char(i) {
            return false;
        }
        i += 1;
    }
    assert(a@ =~= b@);
    true
}

/// A fresh `String` with the characters of `s`.
pub fn owned(s: &str) -> (r: String)
    ensures
        r@ == s@,
{
    s.to_owned()
}

/// Appends one character to `text` with std's `String::push`. Trusted: afterwards the
/// text is what it was before, with `c` at its end.
#[verifier::external_body]
pub(crate) fn push_char(text: &mut String, c: char)
    ensures
        final(text)@ == old(text)@.push(c),
{
    text.push(c);
}

/// Whether `c` is one of the ten decimal digits.
pub open spec fn is_digit(c: char) -> bool {
    '0' <= c && c <= '9'
}

/// What a decimal digit counts for; 0 for any other character.
pub open spec fn digit_value(c: char) -> nat {
    if is_digit(c) {
        (c as u32 - '0' as u32) as nat
    } else {
        0
    }
}

/// The number that a run of decimal digits writes, leading zeros allowed.
pub open spec fn digits_value(digits: Seq<char>) -> nat
    decreases digits.len(),
{
    if digits.len() == 0 {
        0
    } else {
        digits_value(digits.drop_last()) * 10 + digit_value(digits.last())
    }
}

/// Whether a run of characters holds decimal digits only.
pub open spec fn all_digits(digits: Seq<char>) -> bool {
    forall|i: int| 0 <= i < digits.len() ==> is_digit(#[trigger] digits[i])
}

/// A word without the plus sign that may lead it.
pub open spec fn unsigned_part(word: Seq<char>) -> Seq<char> {
    if word.len() > 0 && word[0] == '+' {
        word.drop_first()
    } else {
        word
    }
}

/// The number that a word writes: an optional plus sign, then one or more decimal
/// digits whose value fits in 32 bits. Any other word writes no number.
pub open spec fn number_of_word(word: Seq<char>) -> Option<u32> {
    let digits = unsigned_part(word);
    if digits.len() > 0 && all_digits(digits) && digits_value(digits) <= u32::MAX {
        Some(digits_value(digits) as u32)
    } else {
        None
    }
}

/// The digits read so far never write more than the whole run does.
pub proof fn lemma_digits_value_grows(digits: Seq<char>, k: int)
    requires
        0 <= k <= digits.len(),
    ensures
        digits_value(digits.take(k)) <= digits_value(digits),
    decreases digits.len() - k,
{
    if k < digits.len() {
        lemma_digits_value_grows(digits, k + 1);
        assert(digits.take(k + 1).drop_last() =~= digits.take(k));
    } else {
        assert(digits.take(k) =~= digits);
    }
}

/// Reads a word as an unsigned 32-bit number.
pub fn try_get_number(word: &str) -> (r: Result<u32, ()>)
    ensures
        r == match number_of_word(word@) {
            Some(number) => Ok::<u32, ()>(number),
            None => Err(()),
        },
{
    let n = word.unicode_len();
    let mut start: usize = 0;
    if n > 0 && word.get_char(0) == '+' {
        start = 1;
    }
    if start == n {
        return Err(());
    }
    let ghost digits = unsigned_part(word@);
    assert(digits =~= word@.subrange(start as int, n as int));
    let mut value: u64 = 0;
    let mut i: usize = start;
    while i < n
        invariant
            n == word@.len(),
            start <= i <= n,
            digits == word@.subrange(start as int, n as int),
            digits == unsigned_part(word@),
            all_digits(digits.take(i - start)),
            value == digits_value(digits.take(i - start)),
            value <= u32::MAX,
        decreases n - i,
    {
        let c = word.get_char(i);
        assert(c == digits[i - start]);
        if !('0' <= c && c <= '9') {
            assert(!is_digit(digits[i - start]));
            return Err(());
        }
        let digit: u64 = (c as u32 - '0' as u32) as u64;
        value = value * 10 + digit;
        proof {
            let k = i - start;
            assert(digits.take(k + 1).drop_last() =~= digits.take(k));
            assert(digits.take(k + 1).last() == c);
        }
        if value > u32::MAX as u64 {
            proof {
                lemma_digits_value_grows(digits, i - start + 1);
            }
            return Err(());
        }
        i += 1;
    }
    assert(digits.take(i - start) =~= digits);
    Ok(value as u32)
}

/// The character that writes a digit: `'0'` for 0, and so on up to `'9'` for 9.
pub open spec fn digit_char(digit: nat) -> char {
    (0x30 + digit) as u8 as char
}

/// A number written in decimal digits, without leading zeros.
pub open spec fn decimal_text(n: nat) -> Seq<char>
    decreases n,
{
    if n < 10 {
        seq![digit_char(n)]
    } else {
        decimal_text(n / 10).push(digit_char(n % 10))
    }
}

/// How many decimal digits write a number.
pub open spec fn digit_count(n: nat) -> nat {
    decimal_text(n).len()
}

/// A run of zeros.
pub open spec fn zeros(count: nat) -> Seq<char> {
    Seq::new(count, |i: int| '0')
}

/// A number written in decimal digits, with zeros in front of it where it has fewer
/// than `width` digits.
pub open spec fn zero_padded(n: nat, width: nat) -> Seq<char> {
    if digit_count(n) < width {
        zeros((width - digit_count(n)) as nat) + decimal_text(n)
    } else {
        decimal_text(n)
    }
}

/// Ten to the power of `exponent`.
pub open spec fn pow10(exponent: nat) -> nat
    decreases exponent,
{
    if exponent == 0 {
        1
    } else {
        10 * pow10((exponent - 1) as nat)
    }
}

/// A number below ten to the power of `digits` has at most that many digits.
pub proof fn lemma_digit_count_bounded(n: nat, digits: nat)
    requires
        digits >= 1,
        n < pow10(digits),
    ensures
        1 <= digit_count(n) <= digits,
    decreases n,
{
    if n >= 10 {
        if digits == 1 {
            assert(pow10(1) == 10) by {
                assert(pow10(0) == 1);
            }
        } else {
            lemma_digit_count_bounded(n / 10, (digits - 1) as nat);
        }
    }
}

/// A number that fits in 64 bits has at most twenty digits.
pub proof fn lemma_digit_count_u64(n: nat)
    requires
        n <= u64::MAX,
    ensures
        1 <= digit_count(n) <= 20,
{
    assert(pow10(20) == 100_000_000_000_000_000_000nat) by {
        reveal_with_fuel(pow10, 21);
    }
    lemma_digit_count_bounded(n, 20);
}

/// Writes a number in decimal digits at the end of `text`.
pub fn push_decimal(text: &mut String, n: u64)
    ensures
        final(text)@ == old(text)@ + decimal_text(n as nat),
    decreases n,
{
    if n >= 10 {
        push_decimal(text, n / 10);
    }
    let digit: u8 = (n % 10) as u8;
    push_char(text, (0x30 + digit) as char);
    assert(final(text)@ =~= old(text)@ + decimal_text(n as nat));
}

/// How many decimal digits write a number.
pub fn decimal_digits(n: u64) -> (r: u64)
    ensures
        r == digit_count(n as nat),
        1 <= r <= 20,
{
    let mut rest = n;
    let mut count: u64 = 1;
    proof {
        lemma_digit_count_u64(n as nat);
    }
    while rest >= 10
        invariant
            count >= 1,
            digit_count(n as nat) == digit_count(rest as nat) + count - 1,
            digit_count(n as nat) <= 20,
        decreases rest,
    {
        rest = rest / 10;
        count += 1;
    }
    count
}

} // verus!
