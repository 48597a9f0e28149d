//! Text as sequences of characters: digits, numbers and search.

use vstd::prelude::*;

verus! {

/// `str::eq` of std, the `==` of two string slices: they are equal when they
/// hold the same characters in the same order.
pub assume_specification[ <str as PartialEq>::eq ](left: &str, right: &str) -> (same: bool)
    ensures
        same == (left@ == right@),
;

/// The characters of `text`, one by one.
pub fn chars_of(text: &str) -> (chars: Vec<char>)
    ensures
        chars@ == text@,
{
    let mut chars: Vec<char> = Vec::new();
    for c in it: text.chars()
        invariant
            it.seq() == text@,
            chars@ == text@.subrange(0, it.index() as int),
    {
        chars.push(c);
    }
    chars
}

/// Whether `c` is one of the ten decimal digits.
pub open spec fn is_digit(c: char) -> bool {
    '0' <= c <= '9'
}

/// The number that the digit `c` stands for.
pub open spec fn digit_value(c: char) -> nat {
    (c as u32 - '0' as u32) as nat
}

/// Whether `text` is made of decimal digits alone.
pub open spec fn all_digits(text: Seq<char>) -> bool {
    forall|i: int| 0 <= i < text.len() ==> is_digit(#[trigger] text[i])
}

/// The number that the decimal digits `digits` write.
pub open spec fn digits_value(digits: Seq<char>) -> nat
    decreases digits.len(),
{
    if digits.len() == 0 {
        0
    } else {
        digits_value(digits.drop_last()) * 10 + digit_value(digits.last())
    }
}

/// Tests whether `c` is a decimal digit.
pub fn is_decimal_digit(c: char) -> (digit: bool)
    ensures
        digit == is_digit(c),
{
    '0' <= c && c <= '9'
}

/// The number that the digit `c` stands for.
pub fn decimal_digit(c: char) -> (value: u8)
    requires
        is_digit(c),
    ensures
        value == digit_value(c),
        value <= 9,
{
    (c as u32 - '0' as u32) as u8
}

/// The digits of a prefix write a number that is no larger than the
/// number of the whole.
proof fn lemma_digits_value_prefix(digits: Seq<char>, k: int)
    requires
        0 <= k <= digits.len(),
    ensures
        digits_value(digits.subrange(0, k)) <= digits_value(digits),
    decreases digits.len() - k,
{
    if k == digits.len() {
        assert(digits.subrange(0, k) =~= digits);
    } else {
        lemma_digits_value_prefix(digits.drop_last(), k);
        assert(digits.drop_last().subrange(0, k) =~= digits.subrange(0, k));
    }
}

/// Reads the characters from `from` up to `to` as decimal digits. Gives the
/// number they write if they are all digits and the number is at most
/// `limit`; no digits at all write 0.
pub fn parse_digits(
    chars: &Vec<char>,
    from: usize,
    to: usize,
    limit: u128,
) -> (number: Option<u128>)
    requires
        from <= to <= chars@.len(),
    ensures
        match number {
            Some(value) => {
                &&& all_digits(chars@.subrange(from as int, to as int))
                &&& value == digits_value(chars@.subrange(from as int, to as int))
                &&& value <= limit
            },
            None => !all_digits(chars@.subrange(from as int, to as int)) || digits_value(
                chars@.subrange(from as int, to as int),
            ) > limit,
        },
{
    let ghost range = chars@.subrange(from as int, to as int);
    let mut value: u128 = 0;
    let mut i: usize = from;
    while i < to
        invariant
            from <= i <= to <= chars@.len(),
            range == chars@.subrange(from as int, to as int),
            all_digits(range.subrange(0, i - from)),
            value == digits_value(range.subrange(0, i - from)),
            value <= limit,
        decreases to - i,
    {
        let c = chars[i];
        assert(c == range[i - from]);
        if !is_decimal_digit(c) {
            return None;
        }
        let digit = decimal_digit(c) as u128;
        proof {
            let longer = range.subrange(0, i - from + 1);
            assert(longer.drop_last() =~= range.subrange(0, i - from));
            lemma_digits_value_prefix(range, i - from + 1);
        }
        if digit > limit || value > (limit - digit) / 10 {
            return None;
        }
        value = value * 10 + digit;
        i = i + 1;
    }
    assert(range.subrange(0, to - from) =~= range);
    Some(value)
}

/// Tests whether the characters from `from` up to `to` are all digits.
pub fn are_digits(chars: &Vec<char>, from: usize, to: usize) -> (digits: bool)
    requires
        from <= to <= chars@.len(),
    ensures
        digits == all_digits(chars@.subrange(from as int, to as int)),
{
    let mut i: usize = from;
    while i < to
        invariant
            from <= i <= to <= chars@.len(),
            forall|k: int| from <= k < i ==> is_digit(#[trigger] chars@[k]),
        decreases to - i,
    {
        if !is_decimal_digit(chars[i]) {
            assert(chars@.subrange(from as int, to as int)[i - from] == chars@[i as int]);
            return false;
        }
        i = i + 1;
    }
    assert forall|k: int| 0 <= k < to - from implies is_digit(
        #[trigger] chars@.subrange(from as int, to as int)[k],
    ) by {
        assert(chars@.subrange(from as int, to as int)[k] == chars@[from + k]);
    }
    true
}

/// The number that `text` writes as an unsigned decimal integer: digits, at
/// least one, after an optional plus sign. Nothing else writes a number.
pub open spec fn unsigned_of(text: Seq<char>) -> Option<nat> {
    let digits = if text.len() > 0 && text[0] == '+' {
        text.drop_first()
    } else {
        text
    };
    if digits.len() > 0 && all_digits(digits) {
        Some(digits_value(digits))
    } else {
        None
    }
}

/// The 32-bit number that `text` writes, if it writes one that fits.
pub open spec fn u32_of(text: Seq<char>) -> Option<u32> {
    match unsigned_of(text) {
        Some(value) => if value <= u32::MAX {
            Some(value as u32)
        } else {
            None
        },
        None => None,
    }
}

/// Reads the characters from `from` up to `to` as an unsigned 32-bit number.
pub fn parse_u32(chars: &Vec<char>, from: usize, to: usize) -> (number: Option<u32>)
    requires
        from <= to <= chars@.len(),
    ensures
        number == u32_of(chars@.subrange(from as int, to as int)),
{
    let ghost text = chars@.subrange(from as int, to as int);
    let start = if from < to && chars[from] == '+' {
        from + 1
    } else {
        from
    };
    assert(start > from ==> text.drop_first() =~= chars@.subrange(start as int, to as int));
    if start == to {
        return None;
    }
    match parse_digits(chars, start, to, 0xffff_ffff) {
        Some(value) => Some(value as u32),
        None => None,
    }
}

/// Whether `word` stands in `text` at the place `at`.
pub open spec fn occurs_at(text: Seq<char>, word: Seq<char>, at: int) -> bool {
    0 <= at && at + word.len() <= text.len() && text.subrange(at, at + word.len()) == word
}

/// Whether `at` is the first place at which `word` stands in `text`.
pub open spec fn is_first(text: Seq<char>, word: Seq<char>, at: int) -> bool {
    occurs_at(text, word, at) && forall|before: int|
        0 <= before < at ==> !occurs_at(text, word, before)
}

/// Whether `word` stands nowhere in `text` at the place `from` or after it.
pub open spec fn absent_from(text: Seq<char>, word: Seq<char>, from: int) -> bool {
    forall|at: int| from <= at ==> !occurs_at(text, word, at)
}

/// Tests whether `word` stands in `text` at the place `at`.
pub fn stands_at(text: &Vec<char>, word: &Vec<char>, at: usize) -> (found: bool)
    ensures
        found == occurs_at(text@, word@, at as int),
{
    if word.len() > text.len() || at > text.len() - word.len() {
        return false;
    }
    let mut i: usize = 0;
    while i < word.len()
        invariant
            i <= word.len(),
            at + word.len() <= text.len(),
            forall|k: int| 0 <= k < i ==> text@[at + k] == word@[k],
        decreases word.len() - i,
    {
        if text[at + i] != word[i] {
            return false;
        }
        i = i + 1;
    }
    assert(text@.subrange(at as int, at + word@.len()) =~= word@);
    true
}

/// The first place at `from` or after it at which `word` stands in `text`.
pub fn find(text: &Vec<char>, word: &Vec<char>, from: usize) -> (place: Option<usize>)
    ensures
        match place {
            Some(at) => {
                &&& from <= at
                &&& occurs_at(text@, word@, at as int)
                &&& forall|before: int| from <= before < at ==> !occurs_at(text@, word@, before)
            },
            None => absent_from(text@, word@, from as int),
        },
{
    let mut at: usize = from;
    while at < text.len()
        invariant
            from <= at,
            forall|before: int| from <= before < at ==> !occurs_at(text@, word@, before),
        decreases text.len() - at,
    {
        if stands_at(text, word, at) {
            return Some(at);
        }
        at = at + 1;
    }
    if stands_at(text, word, at) {
        Some(at)
    } else {
        None
    }
}

/// The character that writes the digit `d`.
pub open spec fn digit_char(d: nat) -> char {
    if d == 0 {
        '0'
    } else if d == 1 {
        '1'
    } else if d == 2 {
        '2'
    } else if d == 3 {
        '3'
    } else if d == 4 {
        '4'
    } else if d == 5 {
        '5'
    } else if d == 6 {
        '6'
    } else if d == 7 {
        '7'
    } else if d == 8 {
        '8'
    } else {
        '9'
    }
}

/// The decimal digits that write `n`, without leading zeros.
pub open spec fn digits_of(n: nat) -> Seq<char>
    decreases n,
{
    if n < 10 {
        seq![digit_char(n)]
    } else {
        digits_of(n / 10).push(digit_char(n % 10))
    }
}

/// What is written is read back: the digits that write a number are
/// digits, at least one, and the number they write is that number.
pub proof fn digits_write_their_number(n: nat)
    ensures
        all_digits(digits_of(n)),
        digits_of(n).len() > 0,
        digits_value(digits_of(n)) == n,
    decreases n,
{
    if n < 10 {
        assert(digits_value(seq![digit_char(n)].drop_last()) == 0);
    } else {
        digits_write_their_number(n / 10);
        assert(digits_of(n).drop_last() =~= digits_of(n / 10));
    }
}

/// The digit `d` as text.
fn digit_text(d: usize) -> (text: &'static str)
    requires
        d < 10,
    ensures
        text@ == seq![digit_char(d as nat)],
{
    proof {
        reveal_strlit("0");
        reveal_strlit("1");
        reveal_strlit("2");
        reveal_strlit("3");
        reveal_strlit("4");
        reveal_strlit("5");
        reveal_strlit("6");
        reveal_strlit("7");
        reveal_strlit("8");
        reveal_strlit("9");
    }
    if d == 0 {
        "0"
    } else if d == 1 {
        "1"
    } else if d == 2 {
        "2"
    } else if d == 3 {
        "3"
    } else if d == 4 {
        "4"
    } else if d == 5 {
        "5"
    } else if d == 6 {
        "6"
    } else if d == 7 {
        "7"
    } else if d == 8 {
        "8"
    } else {
        "9"
    }
}

/// Writes `n` in decimal digits.
pub fn decimal_text(n: usize) -> (text: String)
    ensures
        text@ == digits_of(n as nat),
    decreases n,
{
    if n < 10 {
        String::from_str(digit_text(n))
    } else {
        let mut text = decimal_text(n / 10);
        text.append(digit_text(n % 10));
        text
    }
}

} // verus!
