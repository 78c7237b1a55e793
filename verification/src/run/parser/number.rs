//! Reads numbers from the fields of splits files: whole numbers for counts,
//! numbers in floating-point notation for durations.

use crate::text::{all_digits, digit_value, is_digit, lemma_pow10_values, number, pow10};
use crate::time::time_span::TimeSpan;
use vstd::prelude::*;

verus! {

/// Why a text is no whole number.
#[derive(Clone, Copy, Debug, PartialEq, Eq, Structural)]
pub enum IntegerError {
    /// The text is empty.
    Empty,
    /// The text holds a character that is no digit, or a sign and nothing
    /// else.
    InvalidDigit,
    /// The number is too large for the counter.
    Overflow,
}

/// Why a text is no number in floating-point notation.
#[derive(Clone, Copy, Debug, PartialEq, Eq, Structural)]
pub enum DecimalError {
    /// The text is empty.
    Empty,
    /// The text is neither of the form `[+-]digits[.digits][e[+-]digits]`
    /// with at least one digit before the exponent, nor one of the words
    /// `inf`, `infinity` and `nan` behind an optional sign.
    Invalid,
}

/// What reading digit by digit from place `at` of `text` gives, with
/// `so_far` read before: the number, an error at the first character that is
/// no digit, or an error as soon as the number passes the highest count.
pub open spec fn count_from(text: Seq<char>, at: int, so_far: nat) -> Result<u32, IntegerError>
    decreases text.len() - at,
{
    if at < 0 || at >= text.len() {
        Ok(so_far as u32)
    } else if !is_digit(text[at]) {
        Err(IntegerError::InvalidDigit)
    } else if so_far * 10 + digit_value(text[at]) > u32::MAX {
        Err(IntegerError::Overflow)
    } else {
        count_from(text, at + 1, so_far * 10 + digit_value(text[at]))
    }
}

/// The count that `text` writes: digits, with an optional plus sign before
/// them. The characters are read from the left, and the first fault decides
/// the error.
pub open spec fn count_of(text: Seq<char>) -> Result<u32, IntegerError> {
    if text.len() == 0 {
        Err(IntegerError::Empty)
    } else if text.len() == 1 && (text[0] == '+' || text[0] == '-') {
        Err(IntegerError::InvalidDigit)
    } else if text[0] == '+' {
        count_from(text, 1, 0)
    } else {
        count_from(text, 0, 0)
    }
}

/// Whether `text` starts with a sign.
pub open spec fn is_signed(text: Seq<char>) -> bool {
    text.len() > 0 && (text[0] == '+' || text[0] == '-')
}

/// The part of a number behind its sign.
pub open spec fn unsigned_part(text: Seq<char>) -> Seq<char> {
    if is_signed(text) {
        text.drop_first()
    } else {
        text
    }
}

/// Whether `text` starts with a minus sign.
pub open spec fn is_negative(text: Seq<char>) -> bool {
    text.len() > 0 && text[0] == '-'
}

/// Whether `c` marks the exponent of a number.
pub open spec fn is_mark(c: char) -> bool {
    c == 'e' || c == 'E'
}

/// The place of the first exponent mark in `text` from `at` on, or the
/// length of `text` if there is none.
pub open spec fn mark_from(text: Seq<char>, at: int) -> int
    decreases text.len() - at,
{
    if at < 0 || at >= text.len() {
        text.len() as int
    } else if is_mark(text[at]) {
        at
    } else {
        mark_from(text, at + 1)
    }
}

/// The place of the first dot in `text` from `at` on, or the length of
/// `text` if there is none.
pub open spec fn dot_from(text: Seq<char>, at: int) -> int
    decreases text.len() - at,
{
    if at < 0 || at >= text.len() {
        text.len() as int
    } else if text[at] == '.' {
        at
    } else {
        dot_from(text, at + 1)
    }
}

/// The part of an unsigned number before its exponent mark.
pub open spec fn significand(body: Seq<char>) -> Seq<char> {
    body.take(mark_from(body, 0))
}

/// The part of an unsigned number behind its exponent mark, if it has one.
pub open spec fn exponent_part(body: Seq<char>) -> Option<Seq<char>> {
    if mark_from(body, 0) < body.len() {
        Some(body.skip(mark_from(body, 0) + 1))
    } else {
        None
    }
}

/// The digits of a significand before its dot.
pub open spec fn whole_part(significand: Seq<char>) -> Seq<char> {
    significand.take(dot_from(significand, 0))
}

/// The digits of a significand behind its dot; none where it has no dot.
pub open spec fn fraction_part(significand: Seq<char>) -> Seq<char> {
    if dot_from(significand, 0) < significand.len() {
        significand.skip(dot_from(significand, 0) + 1)
    } else {
        Seq::empty()
    }
}

/// The digits of a significand, without its dot.
pub open spec fn digits_of(significand: Seq<char>) -> Seq<char> {
    whole_part(significand) + fraction_part(significand)
}

/// Whether `exponent` is an exponent: an optional sign and at least one
/// digit.
pub open spec fn is_exponent(exponent: Seq<char>) -> bool {
    unsigned_part(exponent).len() > 0 && all_digits(unsigned_part(exponent))
}

/// The whole number that the exponent `exponent` writes.
pub open spec fn exponent_value(exponent: Seq<char>) -> int {
    if is_negative(exponent) {
        -(number(unsigned_part(exponent)) as int)
    } else {
        number(unsigned_part(exponent)) as int
    }
}

/// The power of ten of an unsigned number: the value of its exponent, zero
/// where it has none.
pub open spec fn power_of(body: Seq<char>) -> int {
    match exponent_part(body) {
        Some(exponent) => exponent_value(exponent),
        None => 0,
    }
}

/// Whether `body` is an unsigned number: digits, optionally a dot with
/// digits behind it, and optionally an exponent; at least one digit before
/// the exponent.
pub open spec fn is_number(body: Seq<char>) -> bool {
    &&& all_digits(whole_part(significand(body)))
    &&& all_digits(fraction_part(significand(body)))
    &&& digits_of(significand(body)).len() > 0
    &&& match exponent_part(body) {
        Some(exponent) => is_exponent(exponent),
        None => true,
    }
}

/// The small letter of `c`, for the letters of the alphabet; `c` itself
/// otherwise.
pub open spec fn lower(c: char) -> char {
    if 'A' <= c <= 'Z' {
        ((c as u8) + 32) as char
    } else {
        c
    }
}

/// Whether `text` is `word`, in small or capital letters.
pub open spec fn spells(text: Seq<char>, word: Seq<char>) -> bool {
    &&& text.len() == word.len()
    &&& forall|i: int| 0 <= i < text.len() ==> lower(#[trigger] text[i]) == word[i]
}

/// Whether `body` is the word for a number beyond all numbers.
pub open spec fn is_infinite(body: Seq<char>) -> bool {
    spells(body, seq!['i', 'n', 'f']) || spells(
        body,
        seq!['i', 'n', 'f', 'i', 'n', 'i', 't', 'y'],
    )
}

/// Whether `body` is the word for what is no number.
pub open spec fn is_nan(body: Seq<char>) -> bool {
    spells(body, seq!['n', 'a', 'n'])
}

/// Whether `text` is a number in floating-point notation.
pub open spec fn is_float(text: Seq<char>) -> bool {
    let body = unsigned_part(text);
    is_number(body) || is_infinite(body) || is_nan(body)
}

/// The digits `digits` read as a whole number after the dot has moved
/// behind the first `kept` of them: digits beyond it are cut off, and places
/// that `digits` does not have count as zeros.
pub open spec fn shifted(digits: Seq<char>, kept: int) -> nat {
    if kept <= 0 {
        0
    } else if kept <= digits.len() {
        number(digits.take(kept))
    } else {
        number(digits) * pow10((kept - digits.len()) as nat)
    }
}

/// The size of the unsigned number `body` in units of the decimal place
/// `places`, rounded towards zero: the dot stands behind the whole part,
/// the exponent moves it, and the unit moves it `places` places further.
pub open spec fn size_of(body: Seq<char>, places: nat) -> nat
    recommends
        is_number(body),
{
    shifted(
        digits_of(significand(body)),
        whole_part(significand(body)).len() + power_of(body) + places,
    )
}

/// The value of the number `text` in units of the decimal place `places`,
/// rounded towards zero. What is no number counts as zero, and a number
/// beyond all numbers as the bound of the tick counter on its side.
pub open spec fn float_units(text: Seq<char>, places: nat) -> int
    recommends
        is_float(text),
{
    let body = unsigned_part(text);
    if is_nan(body) {
        0
    } else if is_infinite(body) {
        if is_negative(text) {
            i64::MIN as int
        } else {
            i64::MAX as int
        }
    } else if is_negative(text) {
        -(size_of(body, places) as int)
    } else {
        size_of(body, places) as int
    }
}

/// The duration that `text` writes as a number of units of ten to the power
/// of `places` ticks: rounded towards zero to whole ticks, and stopping at
/// the bounds of the tick counter.
pub open spec fn duration_of(text: Seq<char>, places: nat) -> Result<TimeSpan, DecimalError> {
    if text.len() == 0 {
        Err(DecimalError::Empty)
    } else if !is_float(text) {
        Err(DecimalError::Invalid)
    } else {
        Ok(TimeSpan::of(float_units(text, places)))
    }
}

/// The duration that `text` writes in seconds.
pub open spec fn seconds_of_text(text: Seq<char>) -> Result<TimeSpan, DecimalError> {
    duration_of(text, 7)
}

/// The duration that `text` writes in milliseconds.
pub open spec fn milliseconds_of_text(text: Seq<char>) -> Result<TimeSpan, DecimalError> {
    duration_of(text, 4)
}

/// Whether `c` is one of the ten ASCII digits.
pub fn digit_of(c: char) -> (result: Option<u8>)
    ensures
        result is Some == is_digit(c),
        result is Some ==> result->0 == digit_value(c) && result->0 < 10,
{
    if c >= '0' && c <= '9' {
        Some(((c as u32) - ('0' as u32)) as u8)
    } else {
        None
    }
}

/// Reads the count that `text` writes.
pub fn parse_count(text: &Vec<char>) -> (result: Result<u32, IntegerError>)
    ensures
        result == count_of(text@),
{
    if text.len() == 0 {
        return Err(IntegerError::Empty);
    }
    if text.len() == 1 && (text[0] == '+' || text[0] == '-') {
        return Err(IntegerError::InvalidDigit);
    }
    let mut at: usize = if text[0] == '+' {
        1
    } else {
        0
    };
    let mut so_far: u32 = 0;
    while at < text.len()
        invariant
            at <= text.len(),
            count_of(text@) == count_from(text@, at as int, so_far as nat),
        decreases text.len() - at,
    {
        match digit_of(text[at]) {
            None => {
                return Err(IntegerError::InvalidDigit);
            },
            Some(digit) => {
                let next: u64 = (so_far as u64) * 10 + (digit as u64);
                if next > u32::MAX as u64 {
                    return Err(IntegerError::Overflow);
                }
                so_far = next as u32;
            },
        }
        at += 1;
    }
    Ok(so_far)
}

/// The highest size that the reader keeps apart; every size from here on
/// stops at a bound of the tick counter.
const CEILING: u128 = 0x8000_0000_0000_0000;

/// The highest exponent that the reader keeps apart; every exponent from
/// here on moves the dot out of every text.
const LIMIT: i128 = 0x40_0000_0000_0000_0000;

/// `n`, or the ceiling if `n` lies beyond it.
spec fn capped(n: nat) -> nat {
    if n < CEILING {
        n
    } else {
        CEILING as nat
    }
}

/// Where no dot stands from `at` up to `dot`, and `dot` is a dot or the end,
/// `dot` is the place of the first dot from `at` on.
proof fn lemma_first_dot(text: Seq<char>, at: int, dot: int)
    requires
        0 <= at <= dot <= text.len(),
        forall|j: int| at <= j < dot ==> text[j] != '.',
        dot == text.len() || text[dot] == '.',
    ensures
        dot_from(text, at) == dot,
    decreases dot - at,
{
    if at < dot {
        lemma_first_dot(text, at + 1, dot);
    }
}

/// Where no exponent mark stands from `at` up to `mark`, and `mark` is one
/// or the end, `mark` is the place of the first exponent mark from `at` on.
proof fn lemma_first_mark(text: Seq<char>, at: int, mark: int)
    requires
        0 <= at <= mark <= text.len(),
        forall|j: int| at <= j < mark ==> !is_mark(text[j]),
        mark == text.len() || is_mark(text[mark]),
    ensures
        mark_from(text, at) == mark,
    decreases mark - at,
{
    if at < mark {
        lemma_first_mark(text, at + 1, mark);
    }
}

/// Appending a digit to a text multiplies its number by ten and adds the
/// digit.
proof fn lemma_number_step(text: Seq<char>, count: int)
    requires
        0 <= count < text.len(),
    ensures
        number(text.take(count + 1)) == number(text.take(count)) * 10 + digit_value(text[count]),
{
    assert(text.take(count + 1).drop_last() =~= text.take(count));
    assert(text.take(count + 1).last() == text[count]);
}

/// The powers of ten grow with the exponent, and from the nineteenth on
/// they lie beyond the ceiling.
proof fn lemma_pow10_grows(low: nat, high: nat)
    requires
        low <= high,
    ensures
        1 <= pow10(low) <= pow10(high),
        low >= 19 ==> pow10(low) >= CEILING,
    decreases high,
{
    if low < high {
        lemma_pow10_grows(low, (high - 1) as nat);
    } else if low > 0 {
        lemma_pow10_grows((low - 1) as nat, (low - 1) as nat);
        if low == 19 {
            lemma_pow10_values();
            reveal_with_fuel(pow10, 11);
            assert(pow10(19) == 10_000_000_000 * pow10(9)) by {
                assert(pow10(19) == 10 * pow10(18));
                assert(pow10(18) == 10 * pow10(17));
                assert(pow10(17) == 10 * pow10(16));
                assert(pow10(16) == 10 * pow10(15));
                assert(pow10(15) == 10 * pow10(14));
                assert(pow10(14) == 10 * pow10(13));
                assert(pow10(13) == 10 * pow10(12));
                assert(pow10(12) == 10 * pow10(11));
                assert(pow10(11) == 10 * pow10(10));
                assert(pow10(10) == 10 * pow10(9));
            }
        } else if low > 19 {
            lemma_pow10_grows(19, (low - 1) as nat);
        }
    }
}

/// Moving the dot far beyond the digits gives the same capped size wherever
/// it lands, and moving it before all digits gives zero.
proof fn lemma_far_shifts_agree(digits: Seq<char>, near: int, far: int)
    requires
        digits.len() + 19 <= near <= far || far <= near <= 0,
    ensures
        capped(shifted(digits, near)) == capped(shifted(digits, far)),
{
    if near > 0 {
        let value = number(digits);
        let short = (near - digits.len()) as nat;
        let long = (far - digits.len()) as nat;
        lemma_pow10_grows(short, long);
        if value > 0 {
            assert(value * pow10(short) >= CEILING) by (nonlinear_arith)
                requires
                    value >= 1,
                    pow10(short) >= CEILING,
            ;
            assert(value * pow10(long) >= CEILING) by (nonlinear_arith)
                requires
                    value >= 1,
                    pow10(long) >= CEILING,
            ;
        } else {
            assert(value * pow10(short) == 0) by (nonlinear_arith)
                requires
                    value == 0,
            ;
            assert(value * pow10(long) == 0) by (nonlinear_arith)
                requires
                    value == 0,
            ;
        }
    }
}

/// The small letter of `c`.
fn to_lower(c: char) -> (result: char)
    ensures
        result == lower(c),
{
    if c >= 'A' && c <= 'Z' {
        ((c as u8) + 32) as char
    } else {
        c
    }
}

/// Whether `text` from place `from` on is `word`, in small or capital
/// letters.
fn spells_word(text: &Vec<char>, from: usize, word: &Vec<char>) -> (result: bool)
    requires
        from <= text.len(),
    ensures
        result == spells(text@.skip(from as int), word@),
{
    if text.len() - from != word.len() {
        return false;
    }
    let mut at: usize = 0;
    while at < word.len()
        invariant
            at <= word.len(),
            from <= text.len(),
            text.len() - from == word.len(),
            forall|i: int| 0 <= i < at ==> lower(#[trigger] text@.skip(from as int)[i]) == word@[i],
        decreases word.len() - at,
    {
        if to_lower(text[from + at]) != word[at] {
            assert(text@.skip(from as int)[at as int] == text@[from + at]);
            return false;
        }
        assert(text@.skip(from as int)[at as int] == text@[from + at]);
        at += 1;
    }
    true
}

/// The place behind the digits that stand in `text` from place `from` on.
fn digits_end(text: &Vec<char>, from: usize) -> (to: usize)
    requires
        from <= text.len(),
    ensures
        from <= to <= text.len(),
        forall|i: int| from <= i < to ==> is_digit(#[trigger] text@[i]),
        to < text.len() ==> !is_digit(text@[to as int]),
{
    let mut to: usize = from;
    while to < text.len()
        invariant
            from <= to <= text.len(),
            forall|i: int| from <= i < to ==> is_digit(#[trigger] text@[i]),
        decreases text.len() - to,
    {
        if digit_of(text[to]).is_none() {
            return to;
        }
        to += 1;
    }
    to
}

/// The number that the digits of `text` from `from` up to `to` write, or the
/// limit if the number lies beyond it.
fn read_exponent(text: &Vec<char>, from: usize, to: usize) -> (result: i128)
    requires
        from <= to <= text.len(),
        forall|i: int| from <= i < to ==> is_digit(#[trigger] text@[i]),
    ensures
        0 <= result <= LIMIT,
        result == if number(text@.subrange(from as int, to as int)) < LIMIT {
            number(text@.subrange(from as int, to as int)) as int
        } else {
            LIMIT as int
        },
{
    let ghost digits = text@.subrange(from as int, to as int);
    let mut result: i128 = 0;
    let mut at: usize = from;
    assert(digits.take(0) =~= Seq::<char>::empty());
    while at < to
        invariant
            from <= at <= to <= text.len(),
            digits == text@.subrange(from as int, to as int),
            forall|i: int| from <= i < to ==> is_digit(#[trigger] text@[i]),
            0 <= result <= LIMIT,
            result == if number(digits.take(at - from)) < LIMIT {
                number(digits.take(at - from)) as int
            } else {
                LIMIT as int
            },
        decreases to - at,
    {
        let digit = match digit_of(text[at]) {
            Some(digit) => digit,
            None => 0,
        };
        proof {
            assert(digits[at - from] == text@[at as int]);
            lemma_number_step(digits, at - from);
        }
        let next: i128 = result * 10 + (digit as i128);
        result = if next < LIMIT {
            next
        } else {
            LIMIT
        };
        at += 1;
    }
    assert(digits.take(to - from) =~= digits);
    result
}

/// The digits of `text` from `from` up to `to` appended to a number read
/// before, as far as the dot reaches: `count` digits were read before, the
/// dot stands behind the first `kept` digits of all, and `so_far` is the
/// capped number of the digits before the dot among those read.
fn read_digits(
    text: &Vec<char>,
    from: usize,
    to: usize,
    kept: i128,
    count: usize,
    so_far: u128,
    Ghost(before): Ghost<Seq<char>>,
) -> (result: u128)
    requires
        from <= to <= text.len(),
        forall|i: int| from <= i < to ==> is_digit(#[trigger] text@[i]),
        before.len() == count,
        so_far <= CEILING,
        so_far == capped(shifted(before, if kept <= count { kept as int } else { count as int })),
    ensures
        result <= CEILING,
        ({
            let all = before + text@.subrange(from as int, to as int);
            result == capped(
                shifted(all, if kept <= all.len() { kept as int } else { all.len() as int }),
            )
        }),
{
    let ghost all = before + text@.subrange(from as int, to as int);
    let mut result: u128 = so_far;
    let mut at: usize = from;
    proof {
        assert(all.take(count as int) =~= before);
        assert(before.take(count as int) =~= before);
        if 0 < kept <= count {
            assert(all.take(kept as int) =~= before.take(kept as int));
        }
    }
    while at < to
        invariant
            from <= at <= to <= text.len(),
            all == before + text@.subrange(from as int, to as int),
            before.len() == count,
            forall|i: int| from <= i < to ==> is_digit(#[trigger] text@[i]),
            result <= CEILING,
            result == capped(
                shifted(
                    all,
                    if kept <= count + (at - from) {
                        kept as int
                    } else {
                        count + (at - from)
                    },
                ),
            ),
        decreases to - at,
    {
        let place: usize = at - from;
        let digit = match digit_of(text[at]) {
            Some(digit) => digit,
            None => 0,
        };
        if kept > 0 && (count as i128) + (place as i128) < kept {
            proof {
                assert(all[count + place] == text@[at as int]);
                lemma_number_step(all, count + place);
            }
            let next: u128 = result * 10 + (digit as u128);
            result = if next < CEILING {
                next
            } else {
                CEILING
            };
        }
        at += 1;
    }
    result
}

/// Where the parts of an unsigned number stand in a text.
struct Parts {
    /// The place behind the digits before the dot.
    whole_end: usize,
    /// The place of the first digit behind the dot.
    fraction_start: usize,
    /// The place behind the digits behind the dot.
    fraction_end: usize,
}

/// Whether `parts` says where the parts of the significand of `text` from
/// place `start` on stand, and those parts are digits.
spec fn fits(text: Seq<char>, start: int, parts: Parts) -> bool {
    let body = text.skip(start);
    let front = significand(body);
    &&& start <= parts.whole_end <= parts.fraction_start <= parts.fraction_end <= text.len()
    &&& mark_from(body, 0) == parts.fraction_end - start
    &&& whole_part(front) == text.subrange(start, parts.whole_end as int)
    &&& fraction_part(front) == text.subrange(
        parts.fraction_start as int,
        parts.fraction_end as int,
    )
    &&& all_digits(whole_part(front))
    &&& all_digits(fraction_part(front))
    &&& forall|i: int| start <= i < parts.whole_end ==> is_digit(#[trigger] text[i])
    &&& forall|i: int| parts.fraction_start <= i < parts.fraction_end ==> is_digit(#[trigger] text[i])
}

/// Finds the parts of the significand of `text` from place `start` on;
/// nothing where a character that is neither a digit, the one dot nor an
/// exponent mark stands in it.
fn find_significand(text: &Vec<char>, start: usize) -> (result: Option<Parts>)
    requires
        start <= text.len(),
    ensures
        match result {
            Some(parts) => fits(text@, start as int, parts),
            None => !is_number(text@.skip(start as int)),
        },
{
    let ghost body = text@.skip(start as int);
    let whole_end: usize = digits_end(text, start);
    let has_dot: bool = whole_end < text.len() && text[whole_end] == '.';
    let fraction_start: usize = if has_dot {
        whole_end + 1
    } else {
        whole_end
    };
    let fraction_end: usize = digits_end(text, fraction_start);
    let ghost mark = fraction_end - start;
    let ghost dot = whole_end - start;
    proof {
        assert forall|j: int| 0 <= j < mark implies !is_mark(#[trigger] body[j]) by {
            assert(body[j] == text@[start + j]);
            if start + j != whole_end {
                assert(is_digit(text@[start + j]));
            }
        }
        assert forall|j: int| 0 <= j < dot implies body[j] != '.' by {
            assert(body[j] == text@[start + j]);
            assert(is_digit(text@[start + j]));
        }
    }
    if fraction_end < text.len() && !(text[fraction_end] == 'e' || text[fraction_end] == 'E') {
        proof {
            let stop = text@[fraction_end as int];
            assert(body[mark] == stop);
            lemma_mark_bounds(body, 0);
            let end = mark_from(body, 0);
            assert(end > mark) by {
                if end < mark {
                    assert(!is_mark(body[end]));
                }
            }
            let front = significand(body);
            assert forall|j: int| 0 <= j < dot implies front[j] != '.' by {
                assert(front[j] == body[j]);
            }
            assert(front[mark] == stop);
            if has_dot {
                assert(front[dot] == body[dot]);
                assert(body[dot] == text@[whole_end as int]);
                lemma_first_dot(front, 0, dot);
                assert(fraction_part(front)[mark - dot - 1] == front[mark]);
                assert(!all_digits(fraction_part(front)));
            } else {
                assert(mark == dot);
                lemma_dot_bounds(front, 0);
                let first = dot_from(front, 0);
                assert(first > mark) by {
                    if first < mark {
                        assert(front[first] != '.');
                    }
                }
                assert(whole_part(front)[mark] == front[mark]);
                assert(!all_digits(whole_part(front)));
            }
        }
        return None;
    }
    proof {
        lemma_first_mark(body, 0, mark);
        let front = significand(body);
        assert(front =~= text@.subrange(start as int, fraction_end as int));
        assert forall|j: int| 0 <= j < dot implies front[j] != '.' by {
            assert(front[j] == body[j]);
        }
        if has_dot {
            assert(front[dot] == text@[whole_end as int]);
        }
        lemma_first_dot(front, 0, dot);
        assert(whole_part(front) =~= text@.subrange(start as int, whole_end as int));
        assert(fraction_part(front) =~= text@.subrange(
            fraction_start as int,
            fraction_end as int,
        ));
    }
    Some(Parts { whole_end, fraction_start, fraction_end })
}

/// `power`, or the limit on its side if it lies beyond one.
spec fn limited(power: int) -> int {
    if power >= LIMIT {
        LIMIT as int
    } else if power <= -LIMIT {
        -LIMIT as int
    } else {
        power
    }
}

/// Reads the exponent that stands in `text` from place `from` to the end;
/// nothing where it is no exponent.
fn find_exponent(text: &Vec<char>, from: usize) -> (result: Option<i128>)
    requires
        from <= text.len(),
    ensures
        match result {
            Some(power) => is_exponent(text@.skip(from as int)) && power == limited(
                exponent_value(text@.skip(from as int)),
            ),
            None => !is_exponent(text@.skip(from as int)),
        },
{
    let ghost exponent = text@.skip(from as int);
    let signed: bool = from < text.len() && (text[from] == '+' || text[from] == '-');
    let lowers: bool = from < text.len() && text[from] == '-';
    let first: usize = if signed {
        from + 1
    } else {
        from
    };
    proof {
        if from < text.len() {
            assert(exponent[0] == text@[from as int]);
        }
        assert(unsigned_part(exponent) =~= text@.skip(first as int));
    }
    let last: usize = digits_end(text, first);
    if last < text.len() || last == first {
        proof {
            if last < text.len() {
                assert(unsigned_part(exponent)[last - first] == text@[last as int]);
            }
        }
        return None;
    }
    assert(text@.subrange(first as int, last as int) =~= unsigned_part(exponent));
    let size: i128 = read_exponent(text, first, last);
    assert(all_digits(unsigned_part(exponent)));
    if lowers {
        Some(-size)
    } else {
        Some(size)
    }
}

/// The capped size of the number whose significand stands in `text` as
/// `parts` says, with the dot behind the first `kept` of its digits.
fn measure(text: &Vec<char>, start: usize, parts: &Parts, kept: i128) -> (size: u128)
    requires
        start <= text.len(),
        fits(text@, start as int, *parts),
    ensures
        size <= CEILING,
        size == capped(shifted(digits_of(significand(text@.skip(start as int))), kept as int)),
{
    let ghost front = significand(text@.skip(start as int));
    let ghost digits = digits_of(front);
    let ghost total = digits.len() as int;
    let whole_digits: usize = parts.whole_end - start;
    let fraction_digits: usize = parts.fraction_end - parts.fraction_start;
    assert(Seq::<char>::empty().take(0) =~= Seq::<char>::empty());
    let whole: u128 = read_digits(text, start, parts.whole_end, kept, 0, 0, Ghost(Seq::empty()));
    assert(Seq::<char>::empty() + text@.subrange(start as int, parts.whole_end as int)
        =~= whole_part(front));
    let mut size: u128 = read_digits(
        text,
        parts.fraction_start,
        parts.fraction_end,
        kept,
        whole_digits,
        whole,
        Ghost(whole_part(front)),
    );
    assert(whole_part(front) + text@.subrange(
        parts.fraction_start as int,
        parts.fraction_end as int,
    ) =~= digits);
    assert(total == whole_digits + fraction_digits);
    if kept > (whole_digits as i128) + (fraction_digits as i128) {
        assert(digits.take(total) =~= digits);
        assert(size == capped(number(digits)));
        size = fill(size, kept - (whole_digits as i128) - (fraction_digits as i128), Ghost(digits));
    }
    size
}

/// `size` with `missing` zeros appended, capped: `size` is the capped
/// number of `digits`.
fn fill(size: u128, missing: i128, Ghost(digits): Ghost<Seq<char>>) -> (result: u128)
    requires
        missing > 0,
        size <= CEILING,
        size == capped(number(digits)),
    ensures
        result <= CEILING,
        result == capped(shifted(digits, digits.len() + missing)),
{
    let mut size: u128 = size;
    let mut filled: i128 = 0;
    proof {
        lemma_pow10_values();
        assert(number(digits) * pow10(0) == number(digits)) by (nonlinear_arith)
            requires
                pow10(0) == 1,
        ;
    }
    while filled < missing && size != 0 && size < CEILING
        invariant
            0 <= filled <= missing,
            size <= CEILING,
            size == capped(number(digits) * pow10(filled as nat)),
        decreases missing - filled,
    {
        proof {
            assert(pow10((filled + 1) as nat) == 10 * pow10(filled as nat));
            assert(number(digits) * pow10((filled + 1) as nat) == (number(digits) * pow10(
                filled as nat,
            )) * 10) by (nonlinear_arith)
                requires
                    pow10((filled + 1) as nat) == 10 * pow10(filled as nat),
            ;
        }
        let next: u128 = size * 10;
        size = if next < CEILING {
            next
        } else {
            CEILING
        };
        filled += 1;
    }
    proof {
        let value = number(digits);
        let reached = pow10(filled as nat);
        let wanted = pow10(missing as nat);
        lemma_pow10_grows(filled as nat, missing as nat);
        if filled < missing {
            if size == 0 {
                assert(value == 0) by (nonlinear_arith)
                    requires
                        value * reached == 0,
                        reached >= 1,
                ;
                assert(value * wanted == 0) by (nonlinear_arith)
                    requires
                        value == 0,
                ;
            } else {
                assert(value * wanted >= value * reached) by (nonlinear_arith)
                    requires
                        wanted >= reached,
                ;
            }
        }
    }
    size
}

/// Reads the duration that `text` writes as a number of units of ten to the
/// power of `places` ticks.
fn parse_duration(text: &Vec<char>, places: u32) -> (result: Result<TimeSpan, DecimalError>)
    requires
        places <= 9,
    ensures
        result == duration_of(text@, places as nat),
{
    if text.len() == 0 {
        return Err(DecimalError::Empty);
    }
    let negative = text[0] == '-';
    let start: usize = if text[0] == '+' || text[0] == '-' {
        1
    } else {
        0
    };
    let ghost body = unsigned_part(text@);
    assert(body =~= text@.skip(start as int));
    let short_word: Vec<char> = vec!['i', 'n', 'f'];
    let long_word: Vec<char> = vec!['i', 'n', 'f', 'i', 'n', 'i', 't', 'y'];
    let no_word: Vec<char> = vec!['n', 'a', 'n'];
    assert(short_word@ =~= seq!['i', 'n', 'f']);
    assert(long_word@ =~= seq!['i', 'n', 'f', 'i', 'n', 'i', 't', 'y']);
    assert(no_word@ =~= seq!['n', 'a', 'n']);
    if spells_word(text, start, &no_word) {
        return Ok(TimeSpan::zero());
    }
    if spells_word(text, start, &short_word) || spells_word(text, start, &long_word) {
        return Ok(
            TimeSpan::from_ticks(
                if negative {
                    i64::MIN
                } else {
                    i64::MAX
                },
            ),
        );
    }
    let parts = match find_significand(text, start) {
        Some(parts) => parts,
        None => {
            return Err(DecimalError::Invalid);
        },
    };
    let whole_digits: usize = parts.whole_end - start;
    let fraction_digits: usize = parts.fraction_end - parts.fraction_start;
    if whole_digits == 0 && fraction_digits == 0 {
        return Err(DecimalError::Invalid);
    }
    let power: i128 = if parts.fraction_end < text.len() {
        assert(body.skip(parts.fraction_end - start + 1) =~= text@.skip(parts.fraction_end + 1));
        match find_exponent(text, parts.fraction_end + 1) {
            Some(power) => power,
            None => {
                return Err(DecimalError::Invalid);
            },
        }
    } else {
        0
    };
    assert(is_number(body));
    assert(power == limited(power_of(body)));
    let ghost digits = digits_of(significand(body));
    let ghost exact = whole_part(significand(body)).len() + power_of(body) + places;
    let kept: i128 = (whole_digits as i128) + power + (places as i128);
    proof {
        if power_of(body) >= LIMIT || power_of(body) <= -LIMIT {
            lemma_far_shifts_agree(digits, kept as int, exact);
        }
    }
    let size: u128 = measure(text, start, &parts, kept);
    assert(size == capped(size_of(body, places as nat)));
    let ticks: i64 = if negative {
        if size >= CEILING {
            i64::MIN
        } else {
            -(size as i64)
        }
    } else {
        if size >= CEILING {
            i64::MAX
        } else {
            size as i64
        }
    };
    Ok(TimeSpan { ticks })
}

/// The first exponent mark from `at` on stands at or behind `at`, it is a
/// mark where it stands before the end, and no mark stands before it.
proof fn lemma_mark_bounds(text: Seq<char>, at: int)
    requires
        0 <= at,
    ensures
        at <= mark_from(text, at) || at > text.len(),
        mark_from(text, at) <= text.len(),
        mark_from(text, at) < text.len() ==> is_mark(text[mark_from(text, at)]),
        forall|j: int| at <= j < mark_from(text, at) ==> !is_mark(text[j]),
    decreases text.len() - at,
{
    if at < text.len() && !is_mark(text[at]) {
        lemma_mark_bounds(text, at + 1);
    }
}

/// The first dot from `at` on stands at or behind `at`, it is a dot where
/// it stands before the end, and no dot stands before it.
proof fn lemma_dot_bounds(text: Seq<char>, at: int)
    requires
        0 <= at,
    ensures
        at <= dot_from(text, at) || at > text.len(),
        dot_from(text, at) <= text.len(),
        dot_from(text, at) < text.len() ==> text[dot_from(text, at)] == '.',
        forall|j: int| at <= j < dot_from(text, at) ==> text[j] != '.',
    decreases text.len() - at,
{
    if at < text.len() && text[at] != '.' {
        lemma_dot_bounds(text, at + 1);
    }
}

/// Reads the duration that `text` writes in seconds, as a number in
/// floating-point notation: an optional sign, digits, optionally a dot with
/// digits behind it, and optionally an exponent. Decimal places beyond the
/// seventh are cut off.
pub fn parse_seconds(text: &Vec<char>) -> (result: Result<TimeSpan, DecimalError>)
    ensures
        result == seconds_of_text(text@),
{
    parse_duration(text, 7)
}

/// Reads the duration that `text` writes in milliseconds, as a number in
/// floating-point notation: an optional sign, digits, optionally a dot with
/// digits behind it, and optionally an exponent. Decimal places beyond the
/// fourth are cut off.
pub fn parse_milliseconds(text: &Vec<char>) -> (result: Result<TimeSpan, DecimalError>)
    ensures
        result == milliseconds_of_text(text@),
{
    parse_duration(text, 4)
}

} // verus!
