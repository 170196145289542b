//! Duration text handling: parsing the edited text into a whole number of
//! seconds (with the committed fallback of 60 seconds for malformed text),
//! and formatting a number of seconds back into decimal digits for display.

use vstd::prelude::*;

verus! {

/// Seconds substituted when the edited duration text cannot be parsed.
pub const FALLBACK_SECS: u64 = 60;

/// Is `c` an ASCII decimal digit?
pub open spec fn is_digit(c: char) -> bool {
    48 <= c as u32 <= 57
}

/// Numeric value of an ASCII decimal digit.
pub open spec fn digit_val(c: char) -> nat {
    (c as u32 - 48) as nat
}

/// Every character of `s` is an ASCII decimal digit.
pub open spec fn all_digits(s: Seq<char>) -> bool {
    forall|i: int| 0 <= i < s.len() ==> is_digit(s[i])
}

/// Value of a sequence of decimal digits, most significant first.
pub open spec fn dec_value(s: Seq<char>) -> nat
    decreases s.len(),
{
    if s.len() == 0 {
        0
    } else {
        dec_value(s.drop_last()) * 10 + digit_val(s.last())
    }
}

/// The digit portion of duration text: an optional leading plus sign is
/// accepted (as integer parsing accepts it) and stripped.
pub open spec fn digits_part(s: Seq<char>) -> Seq<char> {
    if s.len() > 0 && s[0] == '+' {
        s.subrange(1, s.len() as int)
    } else {
        s
    }
}

/// Text is valid duration text when, after stripping an optional leading
/// plus sign, it is one or more decimal digits whose value fits the parsed
/// integer width. Empty text, any other non-digit character (a negative
/// sign included) and an out-of-range value are all malformed.
pub open spec fn is_valid_duration_text(s: Seq<char>) -> bool {
    &&& digits_part(s).len() > 0
    &&& all_digits(digits_part(s))
    &&& dec_value(digits_part(s)) <= u32::MAX
}

/// What parsing duration text yields: the decimal value of valid text,
/// nothing for malformed text.
pub open spec fn parse_duration_spec(s: Seq<char>) -> Option<u32> {
    if is_valid_duration_text(s) {
        Some(dec_value(digits_part(s)) as u32)
    } else {
        None
    }
}

/// The duration that committing text yields: its parsed value, or the
/// fallback of 60 seconds when the text is malformed.
pub open spec fn committed_duration(s: Seq<char>) -> u64 {
    match parse_duration_spec(s) {
        Some(v) => v as u64,
        None => FALLBACK_SECS,
    }
}

/// A longer prefix of a digit string never has a smaller value.
proof fn lemma_dec_value_take_monotone(s: Seq<char>, i: int, j: int)
    requires
        0 <= i <= j <= s.len(),
    ensures
        dec_value(s.take(i)) <= dec_value(s.take(j)),
    decreases j - i,
{
    if i < j {
        lemma_dec_value_take_monotone(s, i, j - 1);
        assert(s.take(j).drop_last() =~= s.take(j - 1));
        assert(dec_value(s.take(j)) == dec_value(s.take(j - 1)) * 10 + digit_val(s.take(j).last()));
    }
}

/// Parse duration text as a non-negative integer number of seconds.
/// Returns the decimal value of valid text and `None` for malformed text,
/// exactly as `parse_duration_spec` says.
pub fn parse_duration(text: &Vec<char>) -> (r: Option<u32>)
    ensures
        r == parse_duration_spec(text@),
{
    let ghost whole: Seq<char> = text@;
    let ghost digits: Seq<char> = digits_part(text@);
    let start: usize = if text.len() > 0 && text[0] == '+' {
        1
    } else {
        0
    };
    assert(digits =~= whole.subrange(start as int, whole.len() as int));
    if text.len() == start {
        return None;
    }
    let mut acc: u64 = 0;
    let mut i: usize = start;
    while i < text.len()
        invariant
            start <= i <= text.len(),
            text.len() > start,
            digits == digits_part(text@),
            digits =~= text@.subrange(start as int, text@.len() as int),
            all_digits(digits.take(i - start)),
            acc == dec_value(digits.take(i - start)),
            acc <= u32::MAX,
        decreases text.len() - i,
    {
        let c = text[i];
        let code = c as u32;
        if code < 48 || code > 57 {
            proof {
                assert(digits[i - start] == c);
                assert(!is_digit(digits[i - start]));
                assert(!all_digits(digits_part(text@)));
            }
            return None;
        }
        let d = (code - 48) as u64;
        let next = acc * 10 + d;
        assert(digits.take(i + 1 - start).drop_last() =~= digits.take(i - start));
        assert(digits.take(i + 1 - start).last() == digits[i - start]);
        if next > u32::MAX as u64 {
            proof {
                assert(digit_val(digits.take(i + 1 - start).last()) == d);
                assert(dec_value(digits.take(i + 1 - start)) == acc * 10 + d);
                lemma_dec_value_take_monotone(digits, i + 1 - start, digits.len() as int);
                assert(digits.take(digits.len() as int) =~= digits);
                assert(dec_value(digits_part(text@)) > u32::MAX);
            }
            return None;
        }
        acc = next;
        i = i + 1;
    }
    assert(digits.take(i - start) =~= digits);
    Some(acc as u32)
}

/// Parse-and-commit: the seconds value that duration text commits to,
/// substituting the fallback of 60 seconds for malformed text.
pub fn commit_duration_text(text: &Vec<char>) -> (secs: u64)
    ensures
        secs == committed_duration(text@),
{
    match parse_duration(text) {
        Some(v) => v as u64,
        None => FALLBACK_SECS,
    }
}

/// The decimal digit character for a value below ten.
pub open spec fn digit_char(n: nat) -> char {
    if n == 0 {
        '0'
    } else if n == 1 {
        '1'
    } else if n == 2 {
        '2'
    } else if n == 3 {
        '3'
    } else if n == 4 {
        '4'
    } else if n == 5 {
        '5'
    } else if n == 6 {
        '6'
    } else if n == 7 {
        '7'
    } else if n == 8 {
        '8'
    } else {
        '9'
    }
}

/// Decimal digits of `n`, most significant first, no leading zeros
/// (`0` itself is the single digit `'0'`).
pub open spec fn dec_digits(n: nat) -> Seq<char>
    decreases n,
{
    if n < 10 {
        seq![digit_char(n)]
    } else {
        dec_digits(n / 10).push(digit_char(n % 10))
    }
}

fn digit_to_char(d: u64) -> (c: char)
    requires
        d < 10,
    ensures
        c == digit_char(d as nat),
{
    if d == 0 {
        '0'
    } else if d == 1 {
        '1'
    } else if d == 2 {
        '2'
    } else if d == 3 {
        '3'
    } else if d == 4 {
        '4'
    } else if d == 5 {
        '5'
    } else if d == 6 {
        '6'
    } else if d == 7 {
        '7'
    } else if d == 8 {
        '8'
    } else {
        '9'
    }
}

/// The decimal digits of a number are digits, start with one, and read back
/// as the number itself.
proof fn lemma_dec_digits_value(n: nat)
    ensures
        dec_digits(n).len() > 0,
        all_digits(dec_digits(n)),
        dec_value(dec_digits(n)) == n,
    decreases n,
{
    if n < 10 {
        assert(dec_value(dec_digits(n)) == dec_value(dec_digits(n).drop_last()) * 10 + digit_val(
            dec_digits(n).last(),
        ));
        assert(dec_digits(n).drop_last() =~= Seq::<char>::empty());
    } else {
        lemma_dec_digits_value(n / 10);
        let s = dec_digits(n);
        assert(s.drop_last() =~= dec_digits(n / 10));
        assert(dec_value(s) == (n / 10) * 10 + (n % 10));
        assert(all_digits(s)) by {
            assert(forall|i: int|
                0 <= i < s.len() - 1 ==> s[i] == dec_digits(n / 10)[i] && is_digit(s[i]));
        }
    }
}

/// Committing valid decimal text yields exactly its value: for every
/// representable number of seconds `d`, committing the decimal digits of `d`
/// commits `d` itself, not the fallback.
pub proof fn lemma_commit_of_decimal_text(d: u32)
    ensures
        is_valid_duration_text(dec_digits(d as nat)),
        committed_duration(dec_digits(d as nat)) == d,
{
    lemma_dec_digits_value(d as nat);
    let s = dec_digits(d as nat);
    assert(is_digit(s[0]));
    assert(s[0] != '+');
    assert(digits_part(s) == s);
}

/// Committing malformed duration text always yields the fallback of 60
/// seconds: the user is never blocked by a parse error.
pub proof fn lemma_malformed_commits_fallback(s: Seq<char>)
    requires
        !is_valid_duration_text(s),
    ensures
        committed_duration(s) == FALLBACK_SECS,
{
}

/// Format a number of seconds as its decimal digits, for display.
pub fn format_seconds(n: u64) -> (r: Vec<char>)
    ensures
        r@ == dec_digits(n as nat),
    decreases n,
{
    if n < 10 {
        let mut v: Vec<char> = Vec::new();
        v.push(digit_to_char(n));
        assert(v@ =~= dec_digits(n as nat));
        v
    } else {
        let mut v = format_seconds(n / 10);
        v.push(digit_to_char(n % 10));
        assert(v@ =~= dec_digits(n as nat));
        v
    }
}

} // verus!
