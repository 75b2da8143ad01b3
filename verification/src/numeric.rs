//! Decimal text for unsigned integers: rendering a number in base ten, and
//! reading a port number back the way `str::parse::<u16>` reads it.
use vstd::prelude::*;
use vstd::string::*;

verus! {

/// Why a text is not a `u16`; the same three kinds that
/// `core::num::IntErrorKind` reports for an unsigned parse.
#[derive(Clone, Copy, Debug, PartialEq, Eq, Structural)]
pub enum IntErrorKind {
    /// The text is empty.
    Empty,
    /// The text holds a character that is not a decimal digit where a digit
    /// is due (a lone `+` included).
    InvalidDigit,
    /// The digits name a number above `u16::MAX`.
    PosOverflow,
}

/// The largest value of a `u16`, as a mathematical integer.
pub open spec fn u16_max() -> nat {
    65535
}

pub open spec fn is_decimal_digit(c: char) -> bool {
    '0' <= c && c <= '9'
}

pub open spec fn all_decimal_digits(s: Seq<char>) -> bool {
    forall|i: int| 0 <= i < s.len() ==> is_decimal_digit(#[trigger] s[i])
}

/// The value of one decimal digit.
pub open spec fn digit_value(c: char) -> nat {
    ((c as int) - ('0' as int)) as nat
}

/// The digit that stands for `n` (below ten).
pub open spec fn digit_char(n: nat) -> char {
    (('0' as int) + n) as char
}

/// The number that a string of decimal digits names, most significant first.
pub open spec fn decimal_value(s: Seq<char>) -> nat
    decreases s.len(),
{
    if s.len() == 0 {
        0
    } else {
        decimal_value(s.drop_last()) * 10 + digit_value(s.last())
    }
}

/// How many decimal digits `s` starts with.
pub open spec fn digit_run(s: Seq<char>) -> nat
    decreases s.len(),
{
    if s.len() == 0 || !is_decimal_digit(s[0]) {
        0
    } else {
        1 + digit_run(s.drop_first())
    }
}

/// The text after an optional leading `+`.
pub open spec fn unsigned_digits(s: Seq<char>) -> Seq<char> {
    if s.len() > 0 && s[0] == '+' {
        s.drop_first()
    } else {
        s
    }
}

/// What `str::parse::<u16>` gives for `s`: an optional `+`, then one or more
/// decimal digits whose value fits in a `u16`. Digits are read from the left,
/// so an overflow among the leading digits is reported before a bad
/// character that follows them.
pub open spec fn spec_parse_u16(s: Seq<char>) -> Result<u16, IntErrorKind> {
    let d = unsigned_digits(s);
    let run = digit_run(d);
    if s.len() == 0 {
        Err(IntErrorKind::Empty)
    } else if d.len() == 0 {
        Err(IntErrorKind::InvalidDigit)
    } else if decimal_value(d.take(run as int)) > u16_max() {
        Err(IntErrorKind::PosOverflow)
    } else if run < d.len() {
        Err(IntErrorKind::InvalidDigit)
    } else {
        Ok(decimal_value(d) as u16)
    }
}

/// The shortest decimal text of `n`: its digits, most significant first,
/// with no leading zero unless `n` is zero.
pub open spec fn decimal_chars(n: nat) -> Seq<char>
    decreases n,
{
    if n < 10 {
        seq![digit_char(n)]
    } else {
        decimal_chars(n / 10).push(digit_char(n % 10))
    }
}

/// `String::push`: appends one character to the end of the string.
#[verifier::external_body]
pub(crate) fn push_char(s: &mut String, c: char)
    ensures
        final(s)@ == old(s)@.push(c),
{
    s.push(c);
}

proof fn lemma_digit_char(n: nat)
    requires
        n < 10,
    ensures
        is_decimal_digit(digit_char(n)),
        digit_value(digit_char(n)) == n,
        digit_char(n) != '+',
{
}

fn digit_char_of(n: u64) -> (c: char)
    requires
        n < 10,
    ensures
        c == digit_char(n as nat),
{
    let b: u8 = 48u8 + (n as u8);
    b as char
}

/// The decimal text of `n`, as `n.to_string()` writes it.
pub fn decimal(n: u64) -> (s: String)
    ensures
        s@ == decimal_chars(n as nat),
    decreases n,
{
    if n < 10 {
        let mut s = String::new();
        push_char(&mut s, digit_char_of(n));
        s
    } else {
        let mut s = decimal(n / 10);
        push_char(&mut s, digit_char_of(n % 10));
        s
    }
}

/// Shape of `digit_run`: the run is made of digits and ends at a non-digit
/// or at the end of the text.
proof fn lemma_digit_run(s: Seq<char>)
    ensures
        digit_run(s) <= s.len(),
        forall|i: int| 0 <= i < digit_run(s) ==> is_decimal_digit(#[trigger] s[i]),
        digit_run(s) < s.len() ==> !is_decimal_digit(s[digit_run(s) as int]),
    decreases s.len(),
{
    if s.len() > 0 && is_decimal_digit(s[0]) {
        let t = s.drop_first();
        lemma_digit_run(t);
        assert forall|i: int| 0 <= i < digit_run(s) implies is_decimal_digit(#[trigger] s[i]) by {
            if i > 0 {
                assert(s[i] == t[i - 1]);
            }
        }
        if digit_run(s) < s.len() {
            assert(s[digit_run(s) as int] == t[digit_run(t) as int]);
        }
    }
}

/// The run of digits at the front of `s` is exactly `j` long when the first
/// `j` characters are digits and the next one is not (or there is none).
proof fn lemma_digit_run_is(s: Seq<char>, j: int)
    requires
        0 <= j <= s.len(),
        forall|i: int| 0 <= i < j ==> is_decimal_digit(#[trigger] s[i]),
        j == s.len() || !is_decimal_digit(s[j]),
    ensures
        digit_run(s) == j,
{
    lemma_digit_run(s);
    if digit_run(s) < j {
        assert(is_decimal_digit(s[digit_run(s) as int]));
    }
    if digit_run(s) > j {
        assert(is_decimal_digit(s[j]));
    }
}

proof fn lemma_decimal_value_step(d: Seq<char>, i: int)
    requires
        0 <= i < d.len(),
    ensures
        decimal_value(d.take(i + 1)) == decimal_value(d.take(i)) * 10 + digit_value(d[i]),
{
    assert(d.take(i + 1).drop_last() =~= d.take(i));
}

/// Reading more digits never makes the value smaller.
proof fn lemma_decimal_value_monotone(d: Seq<char>, j: int, k: int)
    requires
        0 <= j <= k <= d.len(),
    ensures
        decimal_value(d.take(j)) <= decimal_value(d.take(k)),
    decreases k - j,
{
    if j < k {
        lemma_decimal_value_step(d, k - 1);
        lemma_decimal_value_monotone(d, j, k - 1);
    }
}

/// Reads a port number as `text.parse::<u16>()` does.
pub fn parse_u16(text: &str) -> (res: Result<u16, IntErrorKind>)
    ensures
        res == spec_parse_u16(text@),
{
    let n = text.unicode_len();
    if n == 0 {
        return Err(IntErrorKind::Empty);
    }
    let start: usize = if text.get_char(0) == '+' {
        1
    } else {
        0
    };
    let ghost d = unsigned_digits(text@);
    assert(d.len() == n - start);
    assert(forall|j: int| 0 <= j < d.len() ==> d[j] == text@[j + start]);
    if start == n {
        return Err(IntErrorKind::InvalidDigit);
    }
    let mut acc: u32 = 0;
    let mut i: usize = start;
    assert(d.take(0) =~= Seq::<char>::empty());
    while i < n
        invariant
            start <= i <= n,
            n == text@.len(),
            d == unsigned_digits(text@),
            d.len() == n - start,
            forall|j: int| 0 <= j < d.len() ==> d[j] == text@[j + start],
            forall|j: int| 0 <= j < i - start ==> is_decimal_digit(#[trigger] d[j]),
            acc == decimal_value(d.take(i - start)),
            acc <= u16_max(),
        decreases n - i,
    {
        let c = text.get_char(i);
        let ghost k: int = i - start;
        assert(d[k] == c);
        if !('0' <= c && c <= '9') {
            proof {
                lemma_digit_run_is(d, k);
            }
            return Err(IntErrorKind::InvalidDigit);
        }
        let v: u32 = (c as u32) - 48u32;
        proof {
            lemma_decimal_value_step(d, k);
        }
        acc = acc * 10 + v;
        if acc > 65535 {
            proof {
                lemma_digit_run(d);
                if digit_run(d) < k + 1 {
                    assert(is_decimal_digit(d[digit_run(d) as int]));
                }
                lemma_decimal_value_monotone(d, k + 1, digit_run(d) as int);
            }
            return Err(IntErrorKind::PosOverflow);
        }
        i = i + 1;
    }
    proof {
        lemma_digit_run_is(d, d.len() as int);
        assert(d.take(d.len() as int) =~= d);
    }
    Ok(acc as u16)
}

/// The decimal text of a number is a run of digits, with no sign, that names
/// the number.
proof fn lemma_decimal_chars(n: nat)
    ensures
        decimal_chars(n).len() >= 1,
        all_decimal_digits(decimal_chars(n)),
        decimal_value(decimal_chars(n)) == n,
        decimal_chars(n)[0] != '+',
    decreases n,
{
    if n < 10 {
        lemma_digit_char(n);
        let s = decimal_chars(n);
        assert(s.drop_last() =~= Seq::<char>::empty());
        assert(decimal_value(s.drop_last()) == 0);
        assert(decimal_value(s) == digit_value(s.last()));
    } else {
        let p = decimal_chars(n / 10);
        lemma_decimal_chars(n / 10);
        lemma_digit_char(n % 10);
        assert(decimal_chars(n).drop_last() =~= p);
        assert(decimal_chars(n)[0] == p[0]);
        assert(decimal_chars(n).last() == digit_char(n % 10));
        assert(n == (n / 10) * 10 + n % 10);
        assert(decimal_value(decimal_chars(n)) == decimal_value(p) * 10 + digit_value(
            digit_char(n % 10),
        ));
    }
}

/// Reading back the decimal text of a port gives the port: the text that
/// `decimal` writes is one that `parse_u16` accepts, with the same value.
pub proof fn lemma_parse_decimal_roundtrip(port: u16)
    ensures
        spec_parse_u16(decimal_chars(port as nat)) == Ok::<u16, IntErrorKind>(port),
{
    let s = decimal_chars(port as nat);
    lemma_decimal_chars(port as nat);
    assert(unsigned_digits(s) == s);
    lemma_digit_run_is(s, s.len() as int);
    assert(s.take(s.len() as int) =~= s);
}

} // verus!
