//! Reading a port number.
use vstd::prelude::*;

use crate::text::chars_of;

verus! {

/// Why a text is not a port number.
#[derive(Clone, Copy, Debug, PartialEq, Eq, Structural)]
pub enum PortError {
    /// The text is empty.
    Empty,
    /// Some character is not a decimal digit.
    InvalidDigit,
    /// The number does not fit sixteen bits.
    TooLarge,
}

/// Whether `c` is a decimal digit.
pub open spec fn is_digit(c: char) -> bool {
    '0' <= c <= '9'
}

/// Whether `s` holds nothing but decimal digits.
pub open spec fn all_digits(s: Seq<char>) -> bool {
    forall|i: int| 0 <= i < s.len() ==> is_digit(#[trigger] s[i])
}

/// The number that the digits of `s` write in decimal.
pub open spec fn decimal(s: Seq<char>) -> nat
    decreases s.len(),
{
    if s.len() == 0 {
        0
    } else {
        (decimal(s.drop_last()) * 10 + (s.last() as int - '0' as int)) as nat
    }
}

/// `s` without the one plus sign that may stand before the digits.
pub open spec fn unsigned_part(s: Seq<char>) -> Seq<char> {
    if s.len() > 1 && s[0] == '+' {
        s.skip(1)
    } else {
        s
    }
}

/// Whether the digits at the front of `s` already write a number past the largest
/// port.
pub open spec fn overflows(s: Seq<char>) -> bool {
    exists|k: int| 0 <= k <= s.len() && all_digits(s.take(k)) && #[trigger] decimal(s.take(k)) > u16::MAX
}

/// The port that `s` writes: decimal digits, perhaps behind a plus sign.
pub open spec fn port_of(s: Seq<char>) -> Result<u16, PortError> {
    let digits = unsigned_part(s);
    if s.len() == 0 {
        Err(PortError::Empty)
    } else if overflows(digits) {
        Err(PortError::TooLarge)
    } else if !all_digits(digits) {
        Err(PortError::InvalidDigit)
    } else {
        Ok(decimal(digits) as u16)
    }
}

proof fn lemma_decimal_grows(s: Seq<char>, k: int)
    requires
        all_digits(s),
        0 <= k <= s.len(),
    ensures
        decimal(s.take(k)) <= decimal(s),
    decreases s.len(),
{
    if k == s.len() {
        assert(s.take(k) =~= s);
    } else {
        assert(is_digit(s[s.len() - 1]));
        lemma_decimal_grows(s.drop_last(), k);
        assert(s.drop_last().take(k) =~= s.take(k));
    }
}

/// The port that `s` writes.
pub fn parse_port(s: &str) -> (r: Result<u16, PortError>)
    ensures
        r == port_of(s@),
{
    let chars = chars_of(s);
    let n: usize = chars.len();
    if n == 0 {
        return Err(PortError::Empty);
    }
    let first: usize = if n > 1 && chars[0] == '+' {
        1
    } else {
        0
    };
    let ghost digits = unsigned_part(s@);
    assert(digits =~= s@.skip(first as int));
    let mut value: u32 = 0;
    let mut i: usize = first;
    assert(digits.take(0) =~= Seq::<char>::empty());
    while i < n
        invariant
            chars@ == s@,
            n == chars.len(),
            n > 0,
            first <= i <= n,
            digits == s@.skip(first as int),
            digits == unsigned_part(s@),
            all_digits(digits.take(i - first)),
            value == decimal(digits.take(i - first)),
            value <= u16::MAX,
        decreases n - i,
    {
        let c = chars[i];
        let ghost done = digits.take(i - first);
        let ghost more = digits.take(i - first + 1);
        assert(more.drop_last() =~= done);
        assert(more.last() == c);
        if !('0' <= c && c <= '9') {
            proof {
                assert(!is_digit(digits[i - first]));
                assert(!all_digits(digits));
                assert forall|k: int|
                    0 <= k <= digits.len() && all_digits(digits.take(k)) implies #[trigger] decimal(
                    digits.take(k),
                ) <= u16::MAX by {
                    if k > i - first {
                        assert(is_digit(digits.take(k)[i - first]));
                    }
                    lemma_decimal_grows(done, k);
                    assert(done.take(k) =~= digits.take(k));
                }
            }
            return Err(PortError::InvalidDigit);
        }
        assert(all_digits(more)) by {
            assert forall|k: int| 0 <= k < more.len() implies is_digit(#[trigger] more[k]) by {
                if k < done.len() {
                    assert(is_digit(done[k]));
                }
            }
        }
        value = value * 10 + (c as u32 - '0' as u32);
        if value > 65535 {
            assert(decimal(digits.take(i - first + 1)) > u16::MAX);
            return Err(PortError::TooLarge);
        }
        i = i + 1;
    }
    proof {
        assert(digits.take(n - first) =~= digits);
        assert forall|k: int| 0 <= k <= digits.len() implies #[trigger] decimal(digits.take(k))
            <= u16::MAX by {
            lemma_decimal_grows(digits, k);
        }
    }
    Ok(value as u16)
}

impl PortError {
    /// The message of the error.
    pub open spec fn message_text(self) -> Seq<char> {
        match self {
            PortError::Empty => "cannot parse integer from empty string"@,
            PortError::InvalidDigit => "invalid digit found in string"@,
            PortError::TooLarge => "number too large to fit in target type"@,
        }
    }

    /// The message of the error.
    pub fn message(self) -> (r: String)
        ensures
            r@ == self.message_text(),
    {
        match self {
            PortError::Empty => "cannot parse integer from empty string".to_string(),
            PortError::InvalidDigit => "invalid digit found in string".to_string(),
            PortError::TooLarge => "number too large to fit in target type".to_string(),
        }
    }
}

/// The value of a digit.
pub open spec fn digit_value(c: char) -> int {
    c as int - '0' as int
}

/// A port is read digit by digit: a first digit writes its value, and one more behind a
/// number writes ten times that number and its own value, unless that is past the largest
/// port. What is no digit spoils the text, and what is spoilt stays so, with the same
/// error. A plus sign counts at the front alone, where something follows it.
pub proof fn port_is_read_digit_by_digit(s: Seq<char>, c: char)
    ensures
        port_of(Seq::empty()) == Err::<u16, PortError>(PortError::Empty),
        port_of(seq![c]) == if '0' <= c <= '9' {
            Ok(digit_value(c) as u16)
        } else {
            Err(PortError::InvalidDigit)
        },
        s.len() > 0 && s != seq!['+'] ==> port_of(s.push(c)) == match port_of(s) {
            Err(e) => Err(e),
            Ok(p) => if !('0' <= c <= '9') {
                Err(PortError::InvalidDigit)
            } else if 10 * p + digit_value(c) > 65535 {
                Err(PortError::TooLarge)
            } else {
                Ok((10 * p + digit_value(c)) as u16)
            },
        },
        s.len() > 0 && s[0] != '+' ==> port_of(seq!['+'] + s) == port_of(s),
        port_of(seq!['+', '+'] + s) == Err::<u16, PortError>(PortError::InvalidDigit),
{
    lemma_one_character(c);
    if s.len() > 0 && s != seq!['+'] {
        lemma_one_more(s, c);
    }
    if s.len() > 0 && s[0] != '+' {
        assert((seq!['+'] + s).skip(1) =~= s);
    }
    lemma_no_digit_first(seq!['+'] + s);
    assert((seq!['+', '+'] + s).skip(1) =~= seq!['+'] + s);
}

proof fn lemma_no_digit_first(s: Seq<char>)
    requires
        s.len() > 0,
        !is_digit(s[0]),
    ensures
        !all_digits(s),
        !overflows(s),
{
    assert(!is_digit(s[0]));
    assert forall|k: int| 0 <= k <= s.len() && all_digits(s.take(k)) implies #[trigger] decimal(
        s.take(k),
    ) <= u16::MAX by {
        if k > 0 {
            assert(is_digit(s.take(k)[0]));
        }
    }
}

proof fn lemma_one_character(c: char)
    ensures
        port_of(seq![c]) == if '0' <= c <= '9' {
            Ok(digit_value(c) as u16)
        } else {
            Err(PortError::InvalidDigit)
        },
{
    let s = seq![c];
    reveal_with_fuel(decimal, 3);
    assert(s.drop_last() =~= Seq::<char>::empty());
    if is_digit(c) {
        assert(all_digits(s));
        assert(decimal(s) == digit_value(c));
        assert forall|k: int| 0 <= k <= s.len() implies #[trigger] decimal(s.take(k))
            <= u16::MAX by {
            if k == 1 {
                assert(s.take(k) =~= s);
            }
        }
    } else {
        lemma_no_digit_first(s);
    }
}

proof fn lemma_one_more(s: Seq<char>, c: char)
    requires
        s.len() > 0,
        s != seq!['+'],
    ensures
        port_of(s.push(c)) == match port_of(s) {
            Err(e) => Err(e),
            Ok(p) => if !('0' <= c <= '9') {
                Err(PortError::InvalidDigit)
            } else if 10 * p + digit_value(c) > 65535 {
                Err(PortError::TooLarge)
            } else {
                Ok((10 * p + digit_value(c)) as u16)
            },
        },
{
    if s.len() == 1 && s[0] == '+' {
        assert(s =~= seq!['+']);
    }
    let d = unsigned_part(s);
    let more = d.push(c);
    assert(unsigned_part(s.push(c)) =~= more);
    assert(more.drop_last() =~= d);
    assert forall|k: int| 0 <= k <= d.len() implies #[trigger] more.take(k) == d.take(k) by {
        assert(more.take(k) =~= d.take(k));
    }
    assert(more.take(more.len() as int) =~= more);
    assert(d.take(d.len() as int) =~= d);
    assert(all_digits(more) <==> all_digits(d) && is_digit(c)) by {
        if all_digits(more) {
            assert(is_digit(more[d.len() as int]));
            assert forall|i: int| 0 <= i < d.len() implies is_digit(#[trigger] d[i]) by {
                assert(is_digit(more[i]));
            }
        }
    }
    if overflows(d) {
        let k = choose|k: int|
            0 <= k <= d.len() && all_digits(d.take(k)) && #[trigger] decimal(d.take(k)) > u16::MAX;
        assert(decimal(more.take(k)) > u16::MAX);
        assert(overflows(more));
    } else {
        assert forall|k: int| 0 <= k <= d.len() && all_digits(more.take(k)) implies #[trigger] decimal(
            more.take(k),
        ) <= u16::MAX by {
            assert(!(decimal(d.take(k)) > u16::MAX));
        }
        if all_digits(d) {
            assert(decimal(d.take(d.len() as int)) <= u16::MAX);
            if is_digit(c) {
                assert(decimal(more) == decimal(d) * 10 + digit_value(c));
                assert(overflows(more) <==> decimal(more) > u16::MAX) by {
                    if decimal(more) > u16::MAX {
                        assert(decimal(more.take(more.len() as int)) > u16::MAX);
                    }
                }
            }
        }
    }
}

/// What is read from a text depends on the text alone, and its errors are told in the
/// words of a number that cannot be read.
pub proof fn port_errors_are_told(s: &str, r: Result<u16, PortError>, e: PortError, m: String)
    requires
        call_ensures(parse_port, (s,), r),
        call_ensures(PortError::message, (e,), m),
    ensures
        r == port_of(s@),
        m@ == match e {
            PortError::Empty => "cannot parse integer from empty string"@,
            PortError::InvalidDigit => "invalid digit found in string"@,
            PortError::TooLarge => "number too large to fit in target type"@,
        },
{
}

} // verus!
