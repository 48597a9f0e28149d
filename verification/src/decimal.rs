//! Exact decimal numbers, as the upstream interfaces write their amounts.

use crate::error::Error;
use crate::text::{all_digits, are_digits, chars_of, digits_value, is_digit, parse_digits};
use vstd::prelude::*;

verus! {

/// The number `mantissa / 10^scale`.
///
/// Amounts, weights and scores are kept as the digits that were received:
/// nothing is rounded, and two decimals are the same only if they were
/// written with the same number of fraction digits.
#[derive(Copy, Clone, Debug, PartialEq, Eq, Structural)]
pub struct Decimal {
    pub mantissa: i128,
    pub scale: u32,
}

/// Whether `text` begins with a sign, which is a plus or a minus.
pub open spec fn has_sign(text: Seq<char>) -> bool {
    text.len() > 0 && (text[0] == '+' || text[0] == '-')
}

/// What follows the sign of `text`, or all of it where there is no sign.
pub open spec fn unsigned_part(text: Seq<char>) -> Seq<char> {
    if has_sign(text) {
        text.drop_first()
    } else {
        text
    }
}

/// Whether `c` marks the exponent of a number.
pub open spec fn is_marker(c: char) -> bool {
    c == 'e' || c == 'E'
}

/// Whether `at` is the place of the first exponent marker of `body`.
pub open spec fn is_first_marker(body: Seq<char>, at: int) -> bool {
    &&& 0 <= at < body.len()
    &&& is_marker(body[at])
    &&& forall|before: int| 0 <= before < at ==> !is_marker(#[trigger] body[before])
}

/// The place of the first exponent marker of `body`, or its length where it
/// has none.
pub open spec fn marker_of(body: Seq<char>) -> int {
    if exists|at: int| is_first_marker(body, at) {
        choose|at: int| is_first_marker(body, at)
    } else {
        body.len() as int
    }
}

/// Whether `at` is the place of the first decimal point of `digits`.
pub open spec fn is_first_point(digits: Seq<char>, at: int) -> bool {
    &&& 0 <= at < digits.len()
    &&& digits[at] == '.'
    &&& forall|before: int| 0 <= before < at ==> #[trigger] digits[before] != '.'
}

/// The place of the first decimal point of `digits`, or its length where it
/// has none.
pub open spec fn point_of(digits: Seq<char>) -> int {
    if exists|at: int| is_first_point(digits, at) {
        choose|at: int| is_first_point(digits, at)
    } else {
        digits.len() as int
    }
}

/// What `text` writes before its exponent, without the sign: the digits
/// with their decimal point.
pub open spec fn significand(text: Seq<char>) -> Seq<char> {
    unsigned_part(text).subrange(0, marker_of(unsigned_part(text)))
}

/// Whether `text` writes an exponent.
pub open spec fn has_exponent(text: Seq<char>) -> bool {
    marker_of(unsigned_part(text)) < unsigned_part(text).len()
}

/// What `text` writes behind its exponent marker: the exponent with its
/// sign.
pub open spec fn exponent_part(text: Seq<char>) -> Seq<char> {
    unsigned_part(text).subrange(
        marker_of(unsigned_part(text)) + 1,
        unsigned_part(text).len() as int,
    )
}

/// The digits of `text` before its decimal point.
pub open spec fn whole_digits(text: Seq<char>) -> Seq<char> {
    significand(text).subrange(0, point_of(significand(text)))
}

/// The digits of `text` between its decimal point and its exponent, none
/// where it has no point.
pub open spec fn fraction_digits(text: Seq<char>) -> Seq<char> {
    if point_of(significand(text)) < significand(text).len() {
        significand(text).subrange(
            point_of(significand(text)) + 1,
            significand(text).len() as int,
        )
    } else {
        Seq::empty()
    }
}

/// Whether `text` writes a decimal number: an optional sign; then digits
/// with at most one decimal point among them, before them or after them,
/// and at least one digit; then, where there is an exponent, the letter `e`
/// or `E`, an optional sign and at least one digit. Spaces and names of
/// special values write no decimal number.
pub open spec fn is_decimal_text(text: Seq<char>) -> bool {
    &&& all_digits(whole_digits(text))
    &&& all_digits(fraction_digits(text))
    &&& whole_digits(text).len() + fraction_digits(text).len() > 0
    &&& has_exponent(text) ==> {
        &&& unsigned_part(exponent_part(text)).len() > 0
        &&& all_digits(unsigned_part(exponent_part(text)))
    }
}

/// The exponent that `text` writes, 0 where it writes none.
pub open spec fn exponent_of(text: Seq<char>) -> int {
    if !has_exponent(text) {
        0
    } else if exponent_part(text)[0] == '-' {
        -(digits_value(unsigned_part(exponent_part(text))) as int)
    } else {
        digits_value(unsigned_part(exponent_part(text))) as int
    }
}

/// The number that the digits of `text` write when the decimal point, the
/// sign and the exponent are set aside.
pub open spec fn digits_of_text(text: Seq<char>) -> nat {
    digits_value(whole_digits(text) + fraction_digits(text))
}

/// The power of ten with the exponent `n`.
pub open spec fn pow10(n: nat) -> nat
    decreases n,
{
    if n == 0 {
        1
    } else {
        10 * pow10((n - 1) as nat)
    }
}

/// The decimal of the number `digits * 10^(exponent - fraction)`, with a
/// minus sign where `negative`, as mantissa and scale, if a [`Decimal`] can
/// hold it. Where the exponent is less than the number of fraction digits,
/// the mantissa is `digits` and the scale is what is left of the fraction
/// digits; otherwise the scale is 0 and the mantissa is `digits` followed by
/// the zeros that the exponent asks for beyond the fraction digits.
pub open spec fn placed(negative: bool, digits: nat, fraction: nat, exponent: int) -> Option<
    (int, nat),
> {
    let magnitude = if exponent >= fraction {
        digits * pow10((exponent - fraction) as nat)
    } else {
        digits
    };
    let scale = if exponent >= fraction {
        0
    } else {
        (fraction - exponent) as nat
    };
    if magnitude <= i128::MAX && scale <= u32::MAX {
        Some(
            (
                if negative {
                    -(magnitude as int)
                } else {
                    magnitude as int
                },
                scale,
            ),
        )
    } else {
        None
    }
}

/// The decimal that `text` writes, as mantissa and scale, if it writes one
/// that a [`Decimal`] can hold: `1.50` is 150 at scale 2, `1e3` is 1000 at
/// scale 0, `15e-1` is 15 at scale 1.
pub open spec fn decimal_of(text: Seq<char>) -> Option<(int, nat)> {
    if is_decimal_text(text) {
        placed(
            text[0] == '-',
            digits_of_text(text),
            fraction_digits(text).len(),
            exponent_of(text),
        )
    } else {
        None
    }
}

impl Decimal {
    /// The decimal of mantissa 0 and scale 0.
    pub fn zero() -> (zero: Decimal)
        ensures
            zero == (Decimal { mantissa: 0, scale: 0 }),
    {
        Decimal { mantissa: 0, scale: 0 }
    }

    /// Whether the number is greater than 0.
    pub fn is_positive(&self) -> (positive: bool)
        ensures
            positive == (self.mantissa > 0),
    {
        self.mantissa > 0
    }

    /// Reads a decimal number that is written as text, digit by digit, with
    /// or without an exponent.
    ///
    /// Text that writes no decimal number fails, and so does a number with
    /// more digits, before or behind the decimal point, than a [`Decimal`]
    /// holds.
    pub fn parse(text: &str) -> (read: Result<Decimal, Error>)
        ensures
            match read {
                Ok(number) => decimal_of(text@) == Some(
                    (number.mantissa as int, number.scale as nat),
                ),
                Err(failure) => decimal_of(text@) is None && failure is Schema
                    && failure->Schema_0@ == "Invalid decimal number"@,
            },
    {
        let chars = chars_of(text);
        match read_decimal(&chars) {
            Some(number) => Ok(number),
            None => Err(Error::Schema(String::from_str("Invalid decimal number"))),
        }
    }
}

/// The first place from `from` up to `to` that holds a decimal point, or
/// `to` where none does.
fn first_point(chars: &Vec<char>, from: usize, to: usize) -> (at: usize)
    requires
        from <= to <= chars@.len(),
    ensures
        from <= at <= to,
        at < to ==> chars@[at as int] == '.',
        forall|before: int| from <= before < at ==> #[trigger] chars@[before] != '.',
{
    let mut at: usize = from;
    while at < to
        invariant
            from <= at <= to <= chars@.len(),
            forall|before: int| from <= before < at ==> #[trigger] chars@[before] != '.',
        decreases to - at,
    {
        if chars[at] == '.' {
            return at;
        }
        at = at + 1;
    }
    at
}

/// The first place from `from` on that holds an exponent marker, or the
/// length of `chars` where none does.
fn first_marker(chars: &Vec<char>, from: usize) -> (at: usize)
    requires
        from <= chars@.len(),
    ensures
        from <= at <= chars@.len(),
        at < chars@.len() ==> is_marker(chars@[at as int]),
        forall|before: int| from <= before < at ==> !is_marker(#[trigger] chars@[before]),
{
    let mut at: usize = from;
    while at < chars.len()
        invariant
            from <= at <= chars@.len(),
            forall|before: int| from <= before < at ==> !is_marker(#[trigger] chars@[before]),
        decreases chars@.len() - at,
    {
        if chars[at] == 'e' || chars[at] == 'E' {
            return at;
        }
        at = at + 1;
    }
    at
}

/// The digits from `from` up to `to` without the decimal point at `point`.
fn digits_without_point(chars: &Vec<char>, from: usize, point: usize, to: usize) -> (digits: Vec<
    char,
>)
    requires
        from <= point <= to <= chars@.len(),
    ensures
        digits@ == chars@.subrange(from as int, point as int) + if point < to {
            chars@.subrange(point + 1, to as int)
        } else {
            Seq::empty()
        },
{
    let mut digits: Vec<char> = Vec::new();
    let mut i: usize = from;
    while i < to
        invariant
            from <= i <= to <= chars@.len(),
            from <= point <= to,
            digits@ == if i <= point {
                chars@.subrange(from as int, i as int)
            } else {
                chars@.subrange(from as int, point as int) + chars@.subrange(point + 1, i as int)
            },
        decreases to - i,
    {
        if i != point {
            digits.push(chars[i]);
        }
        i = i + 1;
    }
    digits
}

/// `digits` followed by `zeros` zeros, where that is a number that the
/// mantissa of a decimal holds.
fn with_zeros(digits: u128, zeros: u128) -> (number: Option<u128>)
    requires
        1 <= digits <= i128::MAX,
    ensures
        match number {
            Some(value) => value == digits * pow10(zeros as nat) && value <= i128::MAX,
            None => digits * pow10(zeros as nat) > i128::MAX,
        },
{
    let mut value: u128 = digits;
    let mut i: u128 = 0;
    assert(digits * pow10(0) == digits) by (nonlinear_arith)
        requires
            pow10(0) == 1,
    ;
    while i < zeros
        invariant
            i <= zeros,
            digits >= 1,
            value == digits * pow10(i as nat),
            value <= i128::MAX,
        decreases zeros - i,
    {
        proof {
            let p = pow10(i as nat);
            assert(pow10((i + 1) as nat) == 10 * p);
            assert(digits * (10 * p) == 10 * (digits * p)) by (nonlinear_arith);
        }
        if value > 0x7fff_ffff_ffff_ffff_ffff_ffff_ffff_ffff / 10 {
            proof {
                lemma_pow10_increases((i + 1) as nat, zeros as nat);
                let low = pow10((i + 1) as nat);
                let high = pow10(zeros as nat);
                assert(digits * low <= digits * high) by (nonlinear_arith)
                    requires
                        low <= high,
                        digits >= 1,
                ;
            }
            return None;
        }
        value = value * 10;
        i = i + 1;
    }
    Some(value)
}

/// The mathematical value of a decimal that was read, or of none.
pub open spec fn read_view(read: Option<Decimal>) -> Option<(int, nat)> {
    match read {
        Some(number) => Some((number.mantissa as int, number.scale as nat)),
        None => None,
    }
}

/// Places the decimal point: the decimal of `digits` with `fraction`
/// fraction digits and the exponent `size`, which falls below 0 where
/// `falling`. An exponent beyond the largest that is read arrives as none.
fn place(
    negative: bool,
    digits: u128,
    fraction: u128,
    falling: bool,
    exponent: Option<u128>,
    Ghost(size): Ghost<nat>,
) -> (read: Option<Decimal>)
    requires
        digits <= i128::MAX,
        fraction <= u64::MAX,
        match exponent {
            Some(read) => read == size && size <= 0x8000_0000_0000_0001_0000_0000_0000_0000,
            None => size > 0x8000_0000_0000_0001_0000_0000_0000_0000,
        },
    ensures
        read_view(read) == placed(
            negative,
            digits as nat,
            fraction as nat,
            if falling {
                -(size as int)
            } else {
                size as int
            },
        ),
{
    assert(digits * pow10(0) == digits) by (nonlinear_arith)
        requires
            pow10(0) == 1,
    ;
    let (mantissa, scale): (u128, u128) = if falling {
        match exponent {
            Some(size) => (digits, fraction + size),
            None => {
                return None;
            },
        }
    } else if digits == 0 {
        assert(size >= fraction ==> 0 * pow10((size - fraction) as nat) == 0) by (nonlinear_arith);
        match exponent {
            Some(size) => if size >= fraction {
                (0, 0)
            } else {
                (0, fraction - size)
            },
            None => (0, 0),
        }
    } else {
        match exponent {
            Some(size) => if size >= fraction {
                match with_zeros(digits, size - fraction) {
                    Some(mantissa) => (mantissa, 0),
                    None => {
                        return None;
                    },
                }
            } else {
                (digits, fraction - size)
            },
            None => {
                proof {
                    let zeros = (size - fraction) as nat;
                    lemma_pow10_exceeds(zeros);
                    assert(digits * pow10(zeros) > i128::MAX) by (nonlinear_arith)
                        requires
                            digits >= 1,
                            pow10(zeros) > i128::MAX,
                    ;
                }
                return None;
            },
        }
    };
    if scale > 0xffff_ffff {
        return None;
    }
    let mantissa: i128 = if negative {
        -(mantissa as i128)
    } else {
        mantissa as i128
    };
    Some(Decimal { mantissa, scale: scale as u32 })
}

/// Where the parts of a number stand in its characters.
struct Places {
    /// Behind the sign.
    start: usize,
    /// The decimal point, or `mark` where there is none.
    point: usize,
    /// The exponent marker, or the end where there is none.
    mark: usize,
}

/// Finds the parts of a number in its characters.
fn find_places(chars: &Vec<char>) -> (places: Places)
    ensures
        places.start <= places.point <= places.mark <= chars@.len(),
        places.start == if has_sign(chars@) {
            1int
        } else {
            0int
        },
        whole_digits(chars@) == chars@.subrange(places.start as int, places.point as int),
        fraction_digits(chars@) == if places.point < places.mark {
            chars@.subrange(places.point + 1, places.mark as int)
        } else {
            Seq::empty()
        },
        has_exponent(chars@) == (places.mark < chars@.len()),
        places.mark < chars@.len() ==> exponent_part(chars@) == chars@.subrange(
            places.mark + 1,
            chars@.len() as int,
        ),
{
    let length = chars.len();
    let start: usize = if length > 0 && (chars[0] == '+' || chars[0] == '-') {
        1
    } else {
        0
    };
    let mark = first_marker(chars, start);
    let point = first_point(chars, start, mark);
    proof {
        let text = chars@;
        let body = unsigned_part(text);
        assert(body =~= text.subrange(start as int, length as int));
        lemma_marker_found(body, mark - start);
        assert(significand(text) =~= text.subrange(start as int, mark as int));
        lemma_point_found(significand(text), point - start);
        assert(whole_digits(text) =~= text.subrange(start as int, point as int));
        if point < mark {
            assert(fraction_digits(text) =~= text.subrange(point + 1, mark as int));
        }
        if mark < length {
            assert(exponent_part(text) =~= text.subrange(mark + 1, length as int));
        }
    }
    Places { start, point, mark }
}

/// Reads the characters as a decimal number.
fn read_decimal(chars: &Vec<char>) -> (read: Option<Decimal>)
    ensures
        read_view(read) == decimal_of(chars@),
{
    let length = chars.len();
    let negative = length > 0 && chars[0] == '-';
    let places = find_places(chars);
    let written = digits_without_point(chars, places.start, places.point, places.mark);
    proof {
        assert(written@.subrange(0, written@.len() as int) =~= whole_digits(chars@)
            + fraction_digits(chars@));
        lemma_all_digits_of_parts(whole_digits(chars@), fraction_digits(chars@));
    }
    if written.len() == 0 || !are_digits(&written, 0, written.len()) {
        return None;
    }
    let fraction: u128 = if places.point < places.mark {
        (places.mark - places.point - 1) as u128
    } else {
        0
    };
    let behind: usize = if places.mark < length {
        places.mark + 1
    } else {
        length
    };
    let falling = behind < length && chars[behind] == '-';
    let from: usize = if behind < length && (chars[behind] == '+' || chars[behind] == '-') {
        behind + 1
    } else {
        behind
    };
    if places.mark < length {
        assert(unsigned_part(exponent_part(chars@)) =~= chars@.subrange(
            from as int,
            length as int,
        ));
        if from == length || !are_digits(chars, from, length) {
            return None;
        }
    }
    let ghost size = digits_value(chars@.subrange(from as int, length as int));
    let exponent = parse_digits(chars, from, length, 0x8000_0000_0000_0001_0000_0000_0000_0000);
    match parse_digits(&written, 0, written.len(), 0x7fff_ffff_ffff_ffff_ffff_ffff_ffff_ffff) {
        Some(digits) => place(negative, digits, fraction, falling, exponent, Ghost(size)),
        None => {
            proof {
                lemma_placed_holds_its_digits(
                    negative,
                    digits_of_text(chars@),
                    fraction as nat,
                    exponent_of(chars@),
                );
            }
            None
        },
    }
}

/// No decimal holds a number whose digits alone are more than a mantissa
/// holds.
proof fn lemma_placed_holds_its_digits(negative: bool, digits: nat, fraction: nat, exponent: int)
    requires
        digits > i128::MAX,
    ensures
        placed(negative, digits, fraction, exponent) is None,
{
    if exponent >= fraction {
        let zeros = (exponent - fraction) as nat;
        lemma_pow10_positive(zeros as int);
        assert(digits * pow10(zeros) >= digits) by (nonlinear_arith)
            requires
                pow10(zeros) >= 1,
        ;
    }
}

/// The place at which the first exponent marker was found, or the end where
/// none was found, is the place that `marker_of` names.
proof fn lemma_marker_found(body: Seq<char>, at: int)
    requires
        0 <= at <= body.len(),
        at < body.len() ==> is_marker(body[at]),
        forall|before: int| 0 <= before < at ==> !is_marker(#[trigger] body[before]),
    ensures
        marker_of(body) == at,
{
    if at < body.len() {
        assert(is_first_marker(body, at));
    }
}

/// The place at which the first decimal point was found, or the end where
/// none was found, is the place that `point_of` names.
proof fn lemma_point_found(digits: Seq<char>, at: int)
    requires
        0 <= at <= digits.len(),
        at < digits.len() ==> digits[at] == '.',
        forall|before: int| 0 <= before < at ==> #[trigger] digits[before] != '.',
    ensures
        point_of(digits) == at,
{
    if at < digits.len() {
        assert(is_first_point(digits, at));
    }
}

/// Two texts are made of digits exactly if the one followed by the other is.
proof fn lemma_all_digits_of_parts(left: Seq<char>, right: Seq<char>)
    ensures
        all_digits(left + right) <==> all_digits(left) && all_digits(right),
{
    let both = left + right;
    if all_digits(both) {
        assert forall|i: int| 0 <= i < left.len() implies is_digit(#[trigger] left[i]) by {
            assert(both[i] == left[i]);
        }
        assert forall|i: int| 0 <= i < right.len() implies is_digit(#[trigger] right[i]) by {
            assert(both[left.len() + i] == right[i]);
        }
    }
}

/// A power of ten is at least 1.
proof fn lemma_pow10_positive(n: int)
    ensures
        n >= 0 ==> pow10(n as nat) >= 1,
    decreases n,
{
    if n > 0 {
        lemma_pow10_positive(n - 1);
    }
}

/// The powers of ten do not fall as the exponent rises.
proof fn lemma_pow10_increases(low: nat, high: nat)
    requires
        low <= high,
    ensures
        pow10(low) <= pow10(high),
    decreases high - low,
{
    if low < high {
        lemma_pow10_increases(low, (high - 1) as nat);
    }
}

/// A power of ten is greater than its exponent.
proof fn lemma_pow10_exceeds(n: nat)
    ensures
        pow10(n) > n,
    decreases n,
{
    if n > 0 {
        lemma_pow10_exceeds((n - 1) as nat);
    }
}

} // verus!
