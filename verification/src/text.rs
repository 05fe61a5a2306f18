//! Text helpers: comparing spellings, and reading and writing decimal numbers.

use vstd::prelude::*;
use vstd::string::*;

verus! {

/// Why a piece of text is not a number that fits `usize`.
#[derive(Clone, Copy, Debug, PartialEq, Eq, Structural)]
pub enum NumberError {
    /// There is no text at all.
    Empty,
    /// A character that is not a decimal digit, or a sign with nothing after it.
    InvalidDigit,
    /// The digits name a number above `usize::MAX`.
    TooLarge,
}

/// Whether `c` is one of `0` to `9`.
pub open spec fn is_digit(c: char) -> bool {
    '0' <= c <= '9'
}

/// The number a digit stands for.
pub open spec fn digit_value(c: char) -> nat {
    (c as nat - '0' as nat) as nat
}

/// The digit that stands for a number below ten.
pub open spec fn digit_char(d: nat) -> char {
    (d + '0' as nat) as char
}

/// Whether every character is a decimal digit.
pub open spec fn all_digits(digits: Seq<char>) -> bool {
    forall|i: int| 0 <= i < digits.len() ==> is_digit(#[trigger] digits[i])
}

/// The number that a run of decimal digits spells, most significant first.
pub open spec fn decimal_value(digits: Seq<char>) -> nat
    decreases digits.len(),
{
    if digits.len() == 0 {
        0
    } else {
        decimal_value(digits.drop_last()) * 10 + digit_value(digits.last())
    }
}

/// Whether a run of characters consists of digits and spells a number that fits `usize`.
pub open spec fn readable(digits: Seq<char>) -> bool {
    all_digits(digits) && decimal_value(digits) <= usize::MAX
}

/// What is wrong with a run of characters that is not `readable`: the
/// complaint is about the first character that cannot be taken in, a
/// non-digit, or a digit that carries the number past `usize::MAX`.
pub open spec fn first_fault(digits: Seq<char>) -> NumberError
    decreases digits.len(),
{
    if digits.len() == 0 {
        NumberError::Empty
    } else if !readable(digits.drop_last()) {
        first_fault(digits.drop_last())
    } else if !is_digit(digits.last()) {
        NumberError::InvalidDigit
    } else {
        NumberError::TooLarge
    }
}

/// The characters after an optional leading `+`.
pub open spec fn unsigned_part(text: Seq<char>) -> Seq<char> {
    if text.len() > 0 && text[0] == '+' {
        text.skip(1)
    } else {
        text
    }
}

/// The number that `text` spells: an optional `+`, then one or more decimal
/// digits whose value fits `usize`. Anything else is an error.
pub open spec fn parse_usize_spec(text: Seq<char>) -> Result<usize, NumberError> {
    let digits = unsigned_part(text);
    if text.len() == 0 {
        Err(NumberError::Empty)
    } else if digits.len() == 0 {
        Err(NumberError::InvalidDigit)
    } else if readable(digits) {
        Ok(decimal_value(digits) as usize)
    } else {
        Err(first_fault(digits))
    }
}

/// The decimal spelling of a number, without leading zeros.
pub open spec fn decimal_text(n: nat) -> Seq<char>
    decreases n,
{
    if n < 10 {
        seq![digit_char(n)]
    } else {
        decimal_text(n / 10).push(digit_char(n % 10))
    }
}

/// Where the first `k` characters are readable and the first `k + 1` are
/// not, the fault is decided by the character at `k`.
pub proof fn lemma_first_fault_at(digits: Seq<char>, k: int)
    requires
        0 <= k < digits.len(),
        readable(digits.take(k)),
        !readable(digits.take(k + 1)),
    ensures
        !readable(digits),
        first_fault(digits) == if is_digit(digits[k]) {
            NumberError::TooLarge
        } else {
            NumberError::InvalidDigit
        },
    decreases digits.len(),
{
    if k + 1 == digits.len() {
        assert(digits.take(k + 1) =~= digits);
    } else {
        let shorter = digits.drop_last();
        assert(shorter.take(k) =~= digits.take(k));
        assert(shorter.take(k + 1) =~= digits.take(k + 1));
        lemma_first_fault_at(shorter, k);
    }
}

/// The decimal spelling of a number consists of digits and spells that number.
pub proof fn lemma_decimal_text(n: nat)
    ensures
        decimal_text(n).len() > 0,
        all_digits(decimal_text(n)),
        decimal_value(decimal_text(n)) == n,
        decimal_text(n)[0] != '+',
    decreases n,
{
    if n < 10 {
        let s = decimal_text(n);
        assert(decimal_value(s.drop_last()) == 0);
    } else {
        lemma_decimal_text(n / 10);
        let s = decimal_text(n);
        assert(s.drop_last() =~= decimal_text(n / 10));
    }
}

/// Reading back the decimal spelling of a number gives the number.
pub proof fn lemma_parse_decimal_text(n: usize)
    ensures
        parse_usize_spec(decimal_text(n as nat)) == Ok::<usize, NumberError>(n),
{
    lemma_decimal_text(n as nat);
}

/// Whether two pieces of text are spelled the same.
pub fn same_text(text: &str, word: &str) -> (same: bool)
    ensures
        same == (text@ == word@),
{
    let a = String::from_str(text);
    let b = String::from_str(word);
    a == b
}

/// The three pieces of text joined.
pub fn concat3(a: &str, b: &str, c: &str) -> (text: String)
    ensures
        text@ == a@ + b@ + c@,
{
    String::from_str(a).concat(b).concat(c)
}

/// Reads a `usize` written in decimal, as `str::parse::<usize>` does.
pub fn parse_usize(text: &str) -> (res: Result<usize, NumberError>)
    ensures
        res == parse_usize_spec(text@),
{
    let len = text.unicode_len();
    if len == 0 {
        return Err(NumberError::Empty);
    }
    let start: usize = if text.get_char(0) == '+' {
        1
    } else {
        0
    };
    if start == len {
        return Err(NumberError::InvalidDigit);
    }
    let ghost digits = unsigned_part(text@);
    let mut value: usize = 0;
    let mut i: usize = start;
    while i < len
        invariant
            start <= i <= len,
            len == text@.len(),
            text@.len() > 0,
            digits == unsigned_part(text@),
            digits.len() == len - start,
            forall|j: int| 0 <= j < digits.len() ==> digits[j] == text@[j + start],
            readable(digits.take(i - start)),
            value == decimal_value(digits.take(i - start)),
        decreases len - i,
    {
        let c = text.get_char(i);
        let ghost k = i - start;
        proof {
            assert(digits.take(k + 1).drop_last() =~= digits.take(k));
            assert(digits.take(k + 1).last() == c);
            assert forall|j: int| 0 <= j < k implies is_digit(#[trigger] digits.take(k + 1)[j]) by {
                assert(digits.take(k + 1)[j] == digits.take(k)[j]);
            }
        }
        if c < '0' || c > '9' {
            proof {
                lemma_first_fault_at(digits, k);
            }
            return Err(NumberError::InvalidDigit);
        }
        let d: usize = (c as u32 - '0' as u32) as usize;
        if value > usize::MAX / 10 || value * 10 > usize::MAX - d {
            proof {
                lemma_first_fault_at(digits, k);
            }
            return Err(NumberError::TooLarge);
        }
        value = value * 10 + d;
        i += 1;
    }
    assert(digits.take(len - start) =~= digits);
    Ok(value)
}

/// The spelling of one decimal digit.
fn digit_text(d: usize) -> (text: &'static str)
    requires
        d < 10,
    ensures
        text@ == seq![digit_char(d as nat)],
{
    let text = if d == 0 {
        "0"
    } else if d == 1 {
        "1"
    } else if d == 2 {
        "2"
    } else if d == 3 {
        "3"
    } else if d == 4 {
        "4"
    } else if d == 5 {
        "5"
    } else if d == 6 {
        "6"
    } else if d == 7 {
        "7"
    } else if d == 8 {
        "8"
    } else {
        "9"
    };
    proof {
        reveal_strlit("0");
        reveal_strlit("1");
        reveal_strlit("2");
        reveal_strlit("3");
        reveal_strlit("4");
        reveal_strlit("5");
        reveal_strlit("6");
        reveal_strlit("7");
        reveal_strlit("8");
        reveal_strlit("9");
    }
    text
}

/// Writes a number in decimal.
pub fn usize_to_text(n: usize) -> (text: String)
    ensures
        text@ == decimal_text(n as nat),
{
    let mut text = String::from_str(digit_text(n % 10));
    let mut rest: usize = n / 10;
    while rest > 0
        invariant
            decimal_text(n as nat) == if rest > 0 {
                decimal_text(rest as nat) + text@
            } else {
                text@
            },
        decreases rest,
    {
        let head = String::from_str(digit_text(rest % 10));
        text = head.concat(text.as_str());
        let ghost r = rest as nat;
        rest = rest / 10;
        proof {
            assert(decimal_text(r) =~= if r < 10 {
                seq![digit_char(r)]
            } else {
                decimal_text(r / 10).push(digit_char(r % 10))
            });
        }
    }
    text
}

} // verus!
