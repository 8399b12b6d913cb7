//! Text building blocks: concatenation, decimal numerals and the reading of numerals.

use vstd::prelude::*;
use vstd::string::*;

verus! {

/// The numeral character of a value below ten.
pub open spec fn digit_char(digit: nat) -> char {
    (('0' as u32) + digit) as char
}

/// The decimal numeral of `value`, without leading zeros.
pub open spec fn decimal_text(value: nat) -> Seq<char>
    decreases value,
{
    if value < 10 {
        seq![digit_char(value)]
    } else {
        decimal_text(value / 10).push(digit_char(value % 10))
    }
}

/// `first` followed by `second`.
pub fn concat_text(first: &str, second: &str) -> (joined: String)
    ensures
        joined@ == first@ + second@,
{
    first.to_owned().concat(second)
}

/// The numeral of a value below ten, as text.
fn digit_text(digit: u64) -> (text: &'static str)
    requires
        digit < 10,
    ensures
        text@ == seq![digit_char(digit as nat)],
{
    proof {
        reveal_strlit("0");
        reveal_strlit("1");
        reveal_strlit("2");
        reveal_strlit("3");
        reveal_strlit("4");
        reveal_strlit("5");
        reveal_strlit("6");
        reveal_strlit("7");
        reveal_strlit("8");
        reveal_strlit("9");
    }
    match digit {
        0 => "0",
        1 => "1",
        2 => "2",
        3 => "3",
        4 => "4",
        5 => "5",
        6 => "6",
        7 => "7",
        8 => "8",
        _ => "9",
    }
}

/// The decimal numeral of `value`.
pub fn decimal(value: u64) -> (text: String)
    ensures
        text@ == decimal_text(value as nat),
    decreases value,
{
    if value < 10 {
        digit_text(value).to_owned()
    } else {
        decimal(value / 10).concat(digit_text(value % 10))
    }
}

/// Whether `c` is a numeral character.
pub open spec fn is_digit(c: char) -> bool {
    '0' <= c <= '9'
}

/// The value of a numeral character.
pub open spec fn digit_value(c: char) -> nat {
    (c as u32 - '0' as u32) as nat
}

/// The value of a row of numeral characters.
pub open spec fn numeral_value(digits: Seq<char>) -> nat
    decreases digits.len(),
{
    if digits.len() == 0 {
        0
    } else {
        numeral_value(digits.drop_last()) * 10 + digit_value(digits.last())
    }
}

/// The numeral of a text: what follows an optional plus sign.
pub open spec fn unsigned_numeral(text: Seq<char>) -> Seq<char> {
    if text.len() > 0 && text[0] == '+' {
        text.skip(1)
    } else {
        text
    }
}

/// Whether a text is a decimal number, with an optional plus sign, that fits into 32 bits.
pub open spec fn is_u32_text(text: Seq<char>) -> bool {
    let digits = unsigned_numeral(text);
    &&& digits.len() > 0
    &&& forall|i: int| 0 <= i < digits.len() ==> is_digit(#[trigger] digits[i])
    &&& numeral_value(digits) <= u32::MAX
}

/// The number that a text stands for, if it is one.
pub open spec fn u32_of_text(text: Seq<char>) -> Option<u32> {
    if is_u32_text(text) {
        Some(numeral_value(unsigned_numeral(text)) as u32)
    } else {
        None
    }
}

/// The value of a row of numeral characters is no less than that of its beginning.
proof fn lemma_numeral_grows(digits: Seq<char>, n: int)
    requires
        0 <= n <= digits.len(),
    ensures
        numeral_value(digits.take(n)) <= numeral_value(digits),
    decreases digits.len(),
{
    if n == digits.len() {
        assert(digits.take(n) == digits);
    } else {
        lemma_numeral_grows(digits.drop_last(), n);
        assert(digits.drop_last().take(n) == digits.take(n));
    }
}

/// A decimal numeral consists of numeral characters and has the value it was made of.
proof fn lemma_decimal_value(value: nat)
    ensures
        decimal_text(value).len() > 0,
        forall|i: int| 0 <= i < decimal_text(value).len() ==> is_digit(#[trigger] decimal_text(value)[i]),
        numeral_value(decimal_text(value)) == value,
    decreases value,
{
    if value < 10 {
        let text = decimal_text(value);
        assert(text.drop_last() == Seq::<char>::empty());
        assert(numeral_value(text.drop_last()) == 0);
    } else {
        lemma_decimal_value(value / 10);
        assert(decimal_text(value).drop_last() == decimal_text(value / 10));
    }
}

/// The decimal numeral of a number of 32 bits reads back as that number.
pub proof fn law_decimal_reads_back(value: u32)
    ensures
        u32_of_text(decimal_text(value as nat)) == Some(value),
{
    lemma_decimal_value(value as nat);
    let text = decimal_text(value as nat);
    assert(is_digit(text[0]));
    assert(unsigned_numeral(text) == text);
}

/// Reads a decimal number of 32 bits, with an optional plus sign before it.
pub fn parse_u32(text: &str) -> (number: Option<u32>)
    ensures
        number == u32_of_text(text@),
{
    let length: usize = text.unicode_len();
    let start: usize = if length > 0 && text.get_char(0) == '+' {
        1
    } else {
        0
    };
    let ghost digits = unsigned_numeral(text@);
    assert(digits =~= text@.skip(start as int));
    if start == length {
        return None;
    }
    let mut value: u32 = 0;
    let mut i: usize = start;
    while i < length
        invariant
            length == text@.len(),
            start <= i <= length,
            start < length,
            digits == text@.skip(start as int),
            digits == unsigned_numeral(text@),
            forall|j: int| 0 <= j < i - start ==> is_digit(#[trigger] digits[j]),
            value == numeral_value(digits.take(i - start)),
        decreases length - i,
    {
        let c: char = text.get_char(i);
        let ghost next = digits.take(i - start + 1);
        proof {
            assert(c == digits[i - start]);
            assert(next.drop_last() == digits.take(i - start));
            assert(next.last() == c);
            lemma_numeral_grows(digits, i - start + 1);
        }
        if !('0' <= c && c <= '9') {
            return None;
        }
        let digit: u32 = c as u32 - '0' as u32;
        match value.checked_mul(10) {
            None => {
                return None;
            },
            Some(shifted) => match shifted.checked_add(digit) {
                None => {
                    return None;
                },
                Some(sum) => {
                    value = sum;
                },
            },
        }
        i = i + 1;
    }
    assert(digits.take(i - start) == digits);
    Some(value)
}

/// A decimal numeral consists of decimal digits, does not begin with a zero unless it is that of
/// zero, and has the value it was made of, however large.
pub proof fn law_decimal_has_its_value(value: nat)
    ensures
        decimal_text(value).len() > 0,
        forall|i: int|
            0 <= i < decimal_text(value).len() ==> '0' <= #[trigger] decimal_text(value)[i] <= '9',
        numeral_value(decimal_text(value)) == value,
        value > 0 ==> decimal_text(value)[0] != '0',
    decreases value,
{
    lemma_decimal_value(value);
    if value >= 10 {
        law_decimal_has_its_value(value / 10);
    }
}

/// The value of a row of digits goes by its places: each further digit, from zero to nine, makes ten
/// times what it was and adds its own.
pub proof fn law_digits_count_by_place(digits: Seq<char>, c: char)
    requires
        '0' <= c <= '9',
    ensures
        numeral_value(Seq::empty()) == 0,
        numeral_value(digits.push(c)) == 10 * numeral_value(digits) + (c as u32 - 48),
{
    assert(digits.push(c).drop_last() == digits);
}

/// What is read as a number: a text is read as `number` exactly if it is a row of one or more
/// decimal digits of that value, alone or after one plus sign.
pub proof fn law_numbers_are_read_as_written(text: Seq<char>, digits: Seq<char>, number: u32)
    ensures
        ({
            let row = digits.len() > 0 && forall|i: int|
                0 <= i < digits.len() ==> '0' <= #[trigger] digits[i] <= '9';
            &&& row && numeral_value(digits) == number && (text == digits || text == seq!['+'] + digits)
                ==> u32_of_text(text) == Some(number)
            &&& row && numeral_value(digits) > u32::MAX && (text == digits || text == seq!['+']
                + digits) ==> u32_of_text(text) is None
        }),
        u32_of_text(text) == Some(number) ==> {
            let read = if text[0] == '+' {
                text.skip(1)
            } else {
                text
            };
            &&& text.len() > 0
            &&& read.len() > 0
            &&& forall|i: int| 0 <= i < read.len() ==> '0' <= #[trigger] read[i] <= '9'
            &&& numeral_value(read) == number
        },
{
    let row = digits.len() > 0 && forall|i: int|
        0 <= i < digits.len() ==> '0' <= #[trigger] digits[i] <= '9';
    if row && text == digits {
        assert('0' <= digits[0]);
        assert(unsigned_numeral(text) == digits);
    }
    if row && text == seq!['+'] + digits {
        assert(text.skip(1) =~= digits);
        assert(unsigned_numeral(text) == digits);
    }
}

} // verus!
