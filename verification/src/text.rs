//! Helpers that move text between strings and sequences of characters.

use vstd::prelude::*;

verus! {

/// `String::push` of the standard library: the text afterwards is the text
/// before with `c` appended.
pub assume_specification[ std::string::String::push ](text: &mut std::string::String, c: char)
    ensures
        final(text)@ == old(text)@.push(c),
;

/// The characters of `text`, in order.
pub fn chars_of(text: &str) -> (chars: Vec<char>)
    ensures
        chars@ == text@,
{
    let mut chars: Vec<char> = Vec::new();
    for c in it: text.chars()
        invariant
            chars@ == it.seq().take(it.index() as int),
            it.seq() == text@,
    {
        chars.push(c);
    }
    chars
}

/// Whether `left` and `right` hold the same text.
pub fn same_text(left: &str, right: &str) -> (equal: bool)
    ensures
        equal == (left@ == right@),
{
    let first = chars_of(left);
    let second = chars_of(right);
    if first.len() != second.len() {
        return false;
    }
    let mut at: usize = 0;
    while at < first.len()
        invariant
            at <= first.len(),
            first.len() == second.len(),
            first@ == left@,
            second@ == right@,
            forall|i: int| 0 <= i < at ==> first@[i] == second@[i],
        decreases first.len() - at,
    {
        if first[at] != second[at] {
            assert(left@[at as int] != right@[at as int]);
            return false;
        }
        at += 1;
    }
    assert(first@ =~= second@);
    true
}

/// The string that holds the characters of `chars` from `from` up to, not
/// including, `to`.
pub fn string_of(chars: &Vec<char>, from: usize, to: usize) -> (text: String)
    requires
        from <= to <= chars.len(),
    ensures
        text@ == chars@.subrange(from as int, to as int),
{
    let mut text = String::new();
    let mut i: usize = from;
    while i < to
        invariant
            from <= i <= to <= chars.len(),
            text@ == chars@.subrange(from as int, i as int),
        decreases to - i,
    {
        text.push(chars[i]);
        i += 1;
        assert(text@ =~= chars@.subrange(from as int, i as int));
    }
    text
}

/// Whether `c` is one of the ten ASCII digits.
pub open spec fn is_digit(c: char) -> bool {
    '0' <= c <= '9'
}

/// The value of the ASCII digit `c`.
pub open spec fn digit_value(c: char) -> nat
    recommends
        is_digit(c),
{
    (c as int - '0' as int) as nat
}

/// The character of the decimal digit `d`.
pub open spec fn digit(d: int) -> char
    recommends
        0 <= d < 10,
{
    if d == 0 {
        '0'
    } else if d == 1 {
        '1'
    } else if d == 2 {
        '2'
    } else if d == 3 {
        '3'
    } else if d == 4 {
        '4'
    } else if d == 5 {
        '5'
    } else if d == 6 {
        '6'
    } else if d == 7 {
        '7'
    } else if d == 8 {
        '8'
    } else {
        '9'
    }
}

/// Whether every character of `text` is a digit.
pub open spec fn all_digits(text: Seq<char>) -> bool {
    forall|i: int| 0 <= i < text.len() ==> is_digit(#[trigger] text[i])
}

/// The number that the digits of `text` write in base ten; zero for no
/// digits.
pub open spec fn number(text: Seq<char>) -> nat
    recommends
        all_digits(text),
    decreases text.len(),
{
    if text.len() == 0 {
        0
    } else {
        number(text.drop_last()) * 10 + digit_value(text.last())
    }
}

/// Ten to the power of `exponent`.
pub open spec fn pow10(exponent: nat) -> nat
    decreases exponent,
{
    if exponent == 0 {
        1
    } else {
        10 * pow10((exponent - 1) as nat)
    }
}

/// The powers of ten up to the ninth.
pub proof fn lemma_pow10_values()
    ensures
        pow10(0) == 1,
        pow10(1) == 10,
        pow10(2) == 100,
        pow10(3) == 1_000,
        pow10(4) == 10_000,
        pow10(5) == 100_000,
        pow10(6) == 1_000_000,
        pow10(7) == 10_000_000,
        pow10(8) == 100_000_000,
        pow10(9) == 1_000_000_000,
{
    reveal_with_fuel(pow10, 11);
}

/// The character of a digit is a digit and has the value of that digit.
pub proof fn lemma_digit_has_its_value(d: int)
    requires
        0 <= d < 10,
    ensures
        is_digit(digit(d)),
        digit_value(digit(d)) == d,
{
}

/// A text is parted into at least one piece.
pub proof fn lemma_at_least_one_piece(text: Seq<char>, start: int, at: int, separator: char)
    ensures
        pieces_from(text, start, at, separator).len() >= 1,
    decreases text.len() - at,
{
    if 0 <= at < text.len() {
        lemma_at_least_one_piece(text, at + 1, at + 1, separator);
        lemma_at_least_one_piece(text, start, at + 1, separator);
    }
}

/// The text of each of `pieces`, in the same order.
pub open spec fn piece_views(pieces: Seq<Vec<char>>) -> Seq<Seq<char>> {
    Seq::new(pieces.len(), |i: int| pieces[i]@)
}

/// The pieces of `text` from `start` on that `separator` parts, where no
/// separator stands from `start` up to `at`.
pub open spec fn pieces_from(text: Seq<char>, start: int, at: int, separator: char) -> Seq<
    Seq<char>,
>
    decreases text.len() - at,
{
    if at < 0 || at >= text.len() {
        seq![text.subrange(start, text.len() as int)]
    } else if text[at] == separator {
        seq![text.subrange(start, at)] + pieces_from(text, at + 1, at + 1, separator)
    } else {
        pieces_from(text, start, at + 1, separator)
    }
}

/// The pieces that `separator` parts `text` into, in order and without the
/// separators. There is always at least one piece; a separator at the very
/// start or end, or next to another one, has an empty piece beside it.
pub open spec fn pieces_of(text: Seq<char>, separator: char) -> Seq<Seq<char>> {
    pieces_from(text, 0, 0, separator)
}

/// `line` without the carriage return at its end, if it has one.
pub open spec fn without_carriage_return(line: Seq<char>) -> Seq<char> {
    if line.len() > 0 && line.last() == '\r' {
        line.drop_last()
    } else {
        line
    }
}

/// The lines of `text` from `start` on, where no line feed stands from
/// `start` up to `at`.
pub open spec fn lines_from(text: Seq<char>, start: int, at: int) -> Seq<Seq<char>>
    decreases text.len() - at,
{
    if at < 0 || at >= text.len() {
        if start < text.len() {
            seq![text.subrange(start, text.len() as int)]
        } else {
            Seq::empty()
        }
    } else if text[at] == '\n' {
        seq![without_carriage_return(text.subrange(start, at))] + lines_from(text, at + 1, at + 1)
    } else {
        lines_from(text, start, at + 1)
    }
}

/// The lines of `text`: a line ends at a line feed, and a carriage return
/// right before that line feed belongs to the line end too. Text behind the
/// last line feed is a line of its own and keeps a carriage return at its
/// end.
pub open spec fn lines_of(text: Seq<char>) -> Seq<Seq<char>> {
    lines_from(text, 0, 0)
}

/// Whether `text` begins with `prefix`.
pub open spec fn has_prefix(text: Seq<char>, prefix: Seq<char>) -> bool {
    prefix.len() <= text.len() && text.take(prefix.len() as int) == prefix
}

/// Parts `text` into the pieces between the separators.
pub fn split(text: &Vec<char>, separator: char) -> (pieces: Vec<Vec<char>>)
    ensures
        piece_views(pieces@) == pieces_of(text@, separator),
{
    let mut pieces: Vec<Vec<char>> = Vec::new();
    let mut piece: Vec<char> = Vec::new();
    let ghost mut start: int = 0;
    let mut at: usize = 0;
    while at < text.len()
        invariant
            0 <= start <= at <= text.len(),
            piece@ == text@.subrange(start, at as int),
            pieces_of(text@, separator) == piece_views(pieces@) + pieces_from(
                text@,
                start,
                at as int,
                separator,
            ),
        decreases text.len() - at,
    {
        if text[at] == separator {
            let ghost before = piece_views(pieces@);
            pieces.push(piece);
            assert(piece_views(pieces@) =~= before.push(text@.subrange(start, at as int)));
            assert(pieces_of(text@, separator) =~= piece_views(pieces@) + pieces_from(
                text@,
                at + 1,
                at + 1,
                separator,
            ));
            piece = Vec::new();
            proof {
                start = at + 1;
            }
            assert(piece@ =~= text@.subrange(start, at + 1));
        } else {
            piece.push(text[at]);
            assert(piece@ =~= text@.subrange(start, at + 1));
        }
        at += 1;
    }
    let ghost before = piece_views(pieces@);
    pieces.push(piece);
    assert(piece_views(pieces@) =~= before.push(text@.subrange(start, at as int)));
    assert(piece_views(pieces@) =~= pieces_of(text@, separator));
    pieces
}

/// Parts `text` into its lines.
pub fn lines(text: &Vec<char>) -> (result: Vec<Vec<char>>)
    ensures
        piece_views(result@) == lines_of(text@),
{
    let mut result: Vec<Vec<char>> = Vec::new();
    let mut line: Vec<char> = Vec::new();
    let ghost mut start: int = 0;
    let mut at: usize = 0;
    while at < text.len()
        invariant
            0 <= start <= at <= text.len(),
            line@ == text@.subrange(start, at as int),
            lines_of(text@) == piece_views(result@) + lines_from(text@, start, at as int),
        decreases text.len() - at,
    {
        if text[at] == '\n' {
            let ghost whole = line@;
            let length: usize = line.len();
            if length > 0 && line[length - 1] == '\r' {
                line.pop();
            }
            assert(line@ =~= without_carriage_return(whole));
            let ghost before = piece_views(result@);
            result.push(line);
            assert(piece_views(result@) =~= before.push(without_carriage_return(whole)));
            assert(lines_of(text@) =~= piece_views(result@) + lines_from(text@, at + 1, at + 1));
            line = Vec::new();
            proof {
                start = at + 1;
            }
            assert(line@ =~= text@.subrange(start, at + 1));
        } else {
            line.push(text[at]);
            assert(line@ =~= text@.subrange(start, at + 1));
        }
        at += 1;
    }
    if line.len() > 0 {
        let ghost before = piece_views(result@);
        result.push(line);
        assert(piece_views(result@) =~= before.push(text@.subrange(start, at as int)));
    }
    assert(piece_views(result@) =~= lines_of(text@));
    result
}

/// Whether `text` begins with `prefix`.
pub fn starts_with(text: &Vec<char>, prefix: &Vec<char>) -> (result: bool)
    ensures
        result == has_prefix(text@, prefix@),
{
    if prefix.len() > text.len() {
        return false;
    }
    let mut at: usize = 0;
    while at < prefix.len()
        invariant
            at <= prefix.len() <= text.len(),
            text@.take(at as int) == prefix@.take(at as int),
        decreases prefix.len() - at,
    {
        if text[at] != prefix[at] {
            assert(text@.take(prefix.len() as int)[at as int] != prefix@[at as int]);
            return false;
        }
        at += 1;
        assert(text@.take(at as int) =~= text@.take(at - 1).push(text@[at - 1]));
        assert(prefix@.take(at as int) =~= prefix@.take(at - 1).push(prefix@[at - 1]));
    }
    assert(prefix@.take(prefix.len() as int) =~= prefix@);
    true
}

/// The string that holds the characters of `chars`.
pub fn to_string(chars: &Vec<char>) -> (text: String)
    ensures
        text@ == chars@,
{
    let text = string_of(chars, 0, chars.len());
    assert(chars@.subrange(0, chars.len() as int) =~= chars@);
    text
}

/// The characters of `text` behind `prefix`, where `text` begins with it.
pub fn strip_prefix(text: &Vec<char>, prefix: &str) -> (result: Option<Vec<char>>)
    ensures
        match result {
            Some(rest) => has_prefix(text@, prefix@) && rest@ == text@.skip(prefix@.len() as int),
            None => !has_prefix(text@, prefix@),
        },
{
    let prefix = chars_of(prefix);
    if starts_with(text, &prefix) {
        Some(tail(text, prefix.len()))
    } else {
        None
    }
}

/// The characters of `text` from place `from` on.
pub fn tail(text: &Vec<char>, from: usize) -> (result: Vec<char>)
    requires
        from <= text.len(),
    ensures
        result@ == text@.skip(from as int),
{
    let mut result: Vec<char> = Vec::new();
    let mut at: usize = from;
    while at < text.len()
        invariant
            from <= at <= text.len(),
            result@ == text@.subrange(from as int, at as int),
        decreases text.len() - at,
    {
        result.push(text[at]);
        at += 1;
        assert(result@ =~= text@.subrange(from as int, at as int));
    }
    assert(result@ =~= text@.skip(from as int));
    result
}

} // verus!
