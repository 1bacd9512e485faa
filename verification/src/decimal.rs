//! Decimal notation for unsigned integers: reading a number from text and
//! writing one as text.
//!
//! The accepted notation is an optional `+` followed by one or more ASCII
//! digits. Nothing else may appear, neither blanks nor underscores nor a `-`.

use vstd::prelude::*;
use vstd::std_specs::iter::IteratorSpec;

verus! {

/// Why a text is not an unsigned decimal number within the bound.
#[derive(Clone, Copy, Debug, PartialEq, Eq, Structural)]
pub enum IntParseError {
    /// The text is empty.
    Empty,
    /// The text holds a character that is not a digit where one is needed,
    /// or nothing but a sign.
    InvalidDigit,
    /// The digits denote a number above the bound.
    PosOverflow,
}

/// Whether `c` is one of the ten ASCII decimal digits.
pub open spec fn is_digit(c: char) -> bool {
    '0' <= c && c <= '9'
}

/// The number a decimal digit stands for (0 for any other character).
pub open spec fn digit_value(c: char) -> nat {
    if is_digit(c) {
        (c as int - '0' as int) as nat
    } else {
        0
    }
}

/// The number that a sequence of digits denotes, most significant first.
pub open spec fn decimal_value(digits: Seq<char>) -> nat
    decreases digits.len(),
{
    if digits.len() == 0 {
        0
    } else {
        decimal_value(digits.drop_last()) * 10 + digit_value(digits.last())
    }
}

/// Length of the longest prefix of `s` that consists of digits.
pub open spec fn digit_run(s: Seq<char>) -> nat
    decreases s.len(),
{
    if s.len() > 0 && is_digit(s[0]) {
        1 + digit_run(s.drop_first())
    } else {
        0
    }
}

/// The longest prefix of `s` that consists of digits.
pub open spec fn leading_digits(s: Seq<char>) -> Seq<char> {
    s.take(digit_run(s) as int)
}

/// `s` without its sign, if it starts with `+`.
pub open spec fn unsigned_body(s: Seq<char>) -> Seq<char> {
    if s.len() > 0 && s[0] == '+' {
        s.drop_first()
    } else {
        s
    }
}

/// Whether `s` is an optional `+` followed by one or more digits that denote
/// a number of at most `max`.
pub open spec fn is_unsigned_decimal(s: Seq<char>, max: nat) -> bool {
    let body = unsigned_body(s);
    &&& body.len() > 0
    &&& forall|j: int| 0 <= j < body.len() ==> is_digit(#[trigger] body[j])
    &&& decimal_value(body) <= max
}

/// What reading `s` as an unsigned decimal number of at most `max` gives.
///
/// The text is read from the left, so the first defect decides the error: a
/// run of digits that already exceeds `max` is an overflow whatever follows
/// it, and a character that is no digit is invalid if the digits before it
/// stay within `max`.
pub open spec fn unsigned_of(s: Seq<char>, max: nat) -> Result<nat, IntParseError> {
    let body = unsigned_body(s);
    let digits = leading_digits(body);
    if s.len() == 0 {
        Err(IntParseError::Empty)
    } else if body.len() == 0 {
        Err(IntParseError::InvalidDigit)
    } else if decimal_value(digits) > max {
        Err(IntParseError::PosOverflow)
    } else if digits.len() < body.len() {
        Err(IntParseError::InvalidDigit)
    } else {
        Ok(decimal_value(digits))
    }
}

/// What reading `s` as a `u16` gives.
pub open spec fn u16_of(s: Seq<char>) -> Result<u16, IntParseError> {
    match unsigned_of(s, u16::MAX as nat) {
        Ok(v) => Ok(v as u16),
        Err(e) => Err(e),
    }
}

/// What reading `s` as a `u8` gives.
pub open spec fn u8_of(s: Seq<char>) -> Result<u8, IntParseError> {
    match unsigned_of(s, u8::MAX as nat) {
        Ok(v) => Ok(v as u8),
        Err(e) => Err(e),
    }
}

/// The character for a digit below ten.
pub open spec fn digit_char(d: nat) -> char {
    ('0' as int + d) as char
}

/// `n` in decimal notation, without sign or leading zeros.
pub open spec fn decimal_digits(n: nat) -> Seq<char>
    decreases n,
{
    if n < 10 {
        seq![digit_char(n)]
    } else {
        decimal_digits(n / 10).push(digit_char(n % 10))
    }
}

/// `digit_run` is characterised by three facts: it stays within the text,
/// everything before it is a digit, and what stands at it, if anything, is
/// not.
pub proof fn lemma_digit_run(s: Seq<char>)
    ensures
        digit_run(s) <= s.len(),
        forall|j: int| 0 <= j < digit_run(s) ==> is_digit(#[trigger] s[j]),
        digit_run(s) < s.len() ==> !is_digit(s[digit_run(s) as int]),
    decreases s.len(),
{
    if s.len() > 0 && is_digit(s[0]) {
        let rest = s.drop_first();
        lemma_digit_run(rest);
        assert forall|j: int| 0 <= j < digit_run(s) implies is_digit(#[trigger] s[j]) by {
            if j > 0 {
                assert(s[j] == rest[j - 1]);
            }
        }
        if digit_run(s) < s.len() {
            assert(s[digit_run(s) as int] == rest[digit_run(rest) as int]);
        }
    }
}

/// A prefix of `n` digits that ends the text or is followed by a character
/// that is no digit is the whole run.
pub proof fn lemma_digit_run_is(s: Seq<char>, n: int)
    requires
        0 <= n <= s.len(),
        forall|j: int| 0 <= j < n ==> is_digit(#[trigger] s[j]),
        n < s.len() ==> !is_digit(s[n]),
    ensures
        digit_run(s) == n,
        leading_digits(s) == s.take(n),
{
    lemma_digit_run(s);
    if digit_run(s) < n {
        assert(is_digit(s[digit_run(s) as int]));
    } else if digit_run(s) > n {
        assert(is_digit(s[n]));
    }
}

/// A text is read as a number exactly when it is an optional `+` followed by
/// one or more digits that denote a number within the bound; the number read
/// is the one they denote.
pub proof fn lemma_unsigned_of_accepts(s: Seq<char>, max: nat)
    ensures
        unsigned_of(s, max) is Ok <==> is_unsigned_decimal(s, max),
        unsigned_of(s, max) matches Ok(v) ==> v == decimal_value(unsigned_body(s)),
{
    let body = unsigned_body(s);
    lemma_digit_run(body);
    if body.len() > 0 && forall|j: int| 0 <= j < body.len() ==> is_digit(#[trigger] body[j]) {
        lemma_digit_run_is(body, body.len() as int);
    }
    if digit_run(body) == body.len() {
        assert(leading_digits(body) =~= body);
    }
}

/// Appending a character multiplies the value by ten and adds the digit.
pub proof fn lemma_decimal_value_step(s: Seq<char>, n: int)
    requires
        0 <= n < s.len(),
    ensures
        decimal_value(s.take(n + 1)) == decimal_value(s.take(n)) * 10 + digit_value(s[n]),
{
    assert(s.take(n + 1).drop_last() =~= s.take(n));
    assert(s.take(n + 1).last() == s[n]);
}

/// A longer prefix never denotes a smaller number.
pub proof fn lemma_decimal_value_grows(s: Seq<char>, j: int, k: int)
    requires
        0 <= j <= k <= s.len(),
    ensures
        decimal_value(s.take(j)) <= decimal_value(s.take(k)),
    decreases k - j,
{
    if j < k {
        lemma_decimal_value_grows(s, j, k - 1);
        lemma_decimal_value_step(s, k - 1);
    }
}

/// Reads one decimal digit.
pub fn digit_of(c: char) -> (d: Option<u8>)
    ensures
        d is Some <==> is_digit(c),
        d matches Some(v) ==> v as nat == digit_value(c) && v <= 9,
{
    if '0' <= c && c <= '9' {
        Some(((c as u32) - ('0' as u32)) as u8)
    } else {
        None
    }
}

/// Reads `s` as an unsigned decimal number of at most `max`.
pub fn parse_unsigned(s: &str, max: u32) -> (r: Result<u32, IntParseError>)
    ensures
        r matches Ok(v) ==> unsigned_of(s@, max as nat) == Ok::<nat, IntParseError>(v as nat),
        r matches Err(e) ==> unsigned_of(s@, max as nat) == Err::<nat, IntParseError>(e),
{
    broadcast use vstd::string::group_string_axioms;

    let ghost body = unsigned_body(s@);
    let mut rest = s.chars();
    let mut next = match rest.next() {
        None => {
            return Err(IntParseError::Empty);
        },
        Some(c) => if c == '+' {
            rest.next()
        } else {
            Some(c)
        },
    };
    if next.is_none() {
        return Err(IntParseError::InvalidDigit);
    }
    let mut acc: u32 = 0;
    let ghost mut n: int = 0;
    loop
        invariant
            body == unsigned_body(s@),
            0 < s@.len(),
            0 < body.len(),
            0 <= n <= body.len(),
            next == (if n < body.len() {
                Some(body[n])
            } else {
                None
            }),
            rest.remaining() == (if n < body.len() {
                body.skip(n + 1)
            } else {
                Seq::empty()
            }),
            rest.obeys_prophetic_iter_laws(),
            forall|j: int| 0 <= j < n ==> is_digit(#[trigger] body[j]),
            acc as nat == decimal_value(body.take(n)),
            acc <= max,
        decreases body.len() - n,
    {
        let c = match next {
            None => {
                proof {
                    lemma_digit_run_is(body, n);
                    assert(body.take(n) =~= body);
                }
                return Ok(acc);
            },
            Some(c) => c,
        };
        let d: u8 = match digit_of(c) {
            None => {
                proof {
                    lemma_digit_run_is(body, n);
                }
                return Err(IntParseError::InvalidDigit);
            },
            Some(d) => d,
        };
        proof {
            lemma_decimal_value_step(body, n);
        }
        let longer: u64 = acc as u64 * 10 + d as u64;
        if longer > max as u64 {
            proof {
                lemma_digit_run(body);
                lemma_decimal_value_grows(body, n + 1, digit_run(body) as int);
            }
            return Err(IntParseError::PosOverflow);
        }
        acc = longer as u32;
        next = rest.next();
        proof {
            n = n + 1;
            if n < body.len() {
                assert(body.skip(n).drop_first() =~= body.skip(n + 1));
            }
        }
    }
}

/// Reads `s` as a `u16`.
pub fn parse_u16(s: &str) -> (r: Result<u16, IntParseError>)
    ensures
        r == u16_of(s@),
{
    match parse_unsigned(s, 65535) {
        Ok(v) => Ok(v as u16),
        Err(e) => Err(e),
    }
}

/// Reads `s` as a `u8`.
pub fn parse_u8(s: &str) -> (r: Result<u8, IntParseError>)
    ensures
        r == u8_of(s@),
{
    match parse_unsigned(s, 255) {
        Ok(v) => Ok(v as u8),
        Err(e) => Err(e),
    }
}

/// The text of a single digit.
fn digit_text(d: u8) -> (text: &'static str)
    requires
        d <= 9,
    ensures
        text@ == seq![digit_char(d as nat)],
{
    proof {
        reveal_strlit("0");
        reveal_strlit("1");
        reveal_strlit("2");
        reveal_strlit("3");
        reveal_strlit("4");
        reveal_strlit("5");
        reveal_strlit("6");
        reveal_strlit("7");
        reveal_strlit("8");
        reveal_strlit("9");
    }
    let text = match d {
        0 => "0",
        1 => "1",
        2 => "2",
        3 => "3",
        4 => "4",
        5 => "5",
        6 => "6",
        7 => "7",
        8 => "8",
        _ => "9",
    };
    assert(text@ =~= seq![digit_char(d as nat)]);
    text
}

/// Writes `n` in decimal notation, without sign or leading zeros.
pub fn to_decimal(n: u32) -> (text: String)
    ensures
        text@ == decimal_digits(n as nat),
    decreases n,
{
    if n < 10 {
        String::from_str(digit_text(n as u8))
    } else {
        let text = to_decimal(n / 10).concat(digit_text((n % 10) as u8));
        assert(text@ =~= decimal_digits(n as nat));
        text
    }
}

/// What `to_decimal` writes consists of digits and denotes the number
/// written.
pub proof fn lemma_decimal_digits(n: nat)
    ensures
        decimal_digits(n).len() > 0,
        forall|j: int| 0 <= j < decimal_digits(n).len() ==> is_digit(#[trigger] decimal_digits(n)[j]),
        decimal_value(decimal_digits(n)) == n,
    decreases n,
{
    if n < 10 {
        let one = seq![digit_char(n)];
        assert(one.drop_last() =~= Seq::<char>::empty());
        assert(decimal_value(one.drop_last()) == 0);
    } else {
        lemma_decimal_digits(n / 10);
        let all = decimal_digits(n);
        assert(all.drop_last() =~= decimal_digits(n / 10));
        assert(all.last() == digit_char(n % 10));
    }
}

/// Reading what was written gives the number back, provided it is within
/// the bound.
pub proof fn lemma_parse_decimal_digits(n: nat, max: nat)
    requires
        n <= max,
    ensures
        unsigned_of(decimal_digits(n), max) == Ok::<nat, IntParseError>(n),
{
    let text = decimal_digits(n);
    lemma_decimal_digits(n);
    assert(is_digit(text[0]));
    assert(unsigned_body(text) == text);
    lemma_digit_run_is(text, text.len() as int);
    assert(text.take(text.len() as int) =~= text);
}

} // verus!
