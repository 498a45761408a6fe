//! Text operations of std that the engine relies on.

use vstd::prelude::*;

verus! {

/// The lower-case form of a text, character by character as Unicode defines it.
pub uninterp spec fn lowercase(text: Seq<char>) -> Seq<char>;

/// The title-case form of a text: its words capitalised and set apart by
/// single spaces, with the word boundaries that `heck` finds.
pub uninterp spec fn title_case(text: Seq<char>) -> Seq<char>;

/// The upper-camel-case form of a text: its words capitalised and joined,
/// with the word boundaries that `heck` finds.
pub uninterp spec fn pascal_case(text: Seq<char>) -> Seq<char>;

/// The snake-case form of a text: its words in lower case and joined by
/// underscores, with the word boundaries that `heck` finds.
pub uninterp spec fn snake_case(text: Seq<char>) -> Seq<char>;

/// A text without the white space at its two ends, as Unicode defines white
/// space.
pub uninterp spec fn trimmed(text: Seq<char>) -> Seq<char>;

/// A text as `Debug` of std writes it: between double quotes, with the
/// characters that cannot stand in a string literal escaped.
pub uninterp spec fn quoted(text: Seq<char>) -> Seq<char>;

/// The text of a digit.
pub open spec fn digit_text(digit: int) -> Seq<char> {
    if digit == 0 {
        "0"@
    } else if digit == 1 {
        "1"@
    } else if digit == 2 {
        "2"@
    } else if digit == 3 {
        "3"@
    } else if digit == 4 {
        "4"@
    } else if digit == 5 {
        "5"@
    } else if digit == 6 {
        "6"@
    } else if digit == 7 {
        "7"@
    } else if digit == 8 {
        "8"@
    } else {
        "9"@
    }
}

/// A natural number in decimal notation.
pub open spec fn decimal_text(number: nat) -> Seq<char>
    decreases number,
{
    if number < 10 {
        digit_text(number as int)
    } else {
        decimal_text(number / 10) + digit_text((number % 10) as int)
    }
}

/// The text of a hexadecimal digit, in lower case.
pub open spec fn hex_digit_text(digit: int) -> Seq<char> {
    if digit == 0 {
        "0"@
    }     else if digit == 1 {
        "1"@
    }     else if digit == 2 {
        "2"@
    }     else if digit == 3 {
        "3"@
    }     else if digit == 4 {
        "4"@
    }     else if digit == 5 {
        "5"@
    }     else if digit == 6 {
        "6"@
    }     else if digit == 7 {
        "7"@
    }     else if digit == 8 {
        "8"@
    }     else if digit == 9 {
        "9"@
    }     else if digit == 10 {
        "a"@
    }     else if digit == 11 {
        "b"@
    }     else if digit == 12 {
        "c"@
    }     else if digit == 13 {
        "d"@
    }     else if digit == 14 {
        "e"@
    } else {
        "f"@
    }
}

/// A natural number in hexadecimal notation, in lower case.
pub open spec fn hex_text(number: nat) -> Seq<char>
    decreases number,
{
    if number < 16 {
        hex_digit_text(number as int)
    } else {
        hex_text(number / 16) + hex_digit_text((number % 16) as int)
    }
}

/// An integer in decimal notation, with a minus sign where it is negative.
pub open spec fn signed_text(number: int) -> Seq<char> {
    if number < 0 {
        "-"@ + decimal_text((-number) as nat)
    } else {
        decimal_text(number as nat)
    }
}

/// A text without its full stops.
pub open spec fn without_stops(text: Seq<char>) -> Seq<char> {
    text.filter(|c: char| c != '.')
}

/// Whether `text` starts with `prefix`.
pub open spec fn has_prefix(text: Seq<char>, prefix: Seq<char>) -> bool {
    prefix.len() <= text.len() && text.take(prefix.len() as int) == prefix
}

/// Whether `text` ends with `suffix`.
pub open spec fn has_suffix(text: Seq<char>, suffix: Seq<char>) -> bool {
    suffix.len() <= text.len() && text.skip(text.len() - suffix.len()) == suffix
}

/// Whether `needle` occurs in `hay` as a contiguous run of characters.
pub open spec fn occurs_in(needle: Seq<char>, hay: Seq<char>) -> bool {
    exists|start: int|
        0 <= start <= hay.len() - needle.len() && #[trigger] hay.subrange(
            start,
            start + needle.len(),
        ) == needle
}

/// `str::to_lowercase` of std. The result is the lower-case form of the
/// argument; which characters that changes is left to std.
#[verifier::external_body]
pub(crate) fn to_lowercase(text: &str) -> (lowered: String)
    ensures
        lowered@ == lowercase(text@),
{
    text.to_lowercase()
}

/// `ToTitleCase::to_title_case` of `heck`.
#[verifier::external_body]
pub(crate) fn to_title_case(text: &str) -> (title: String)
    ensures
        title@ == title_case(text@),
{
    heck::ToTitleCase::to_title_case(text)
}

/// `ToPascalCase::to_pascal_case` of `heck`.
#[verifier::external_body]
pub(crate) fn to_pascal_case(text: &str) -> (pascal: String)
    ensures
        pascal@ == pascal_case(text@),
{
    heck::ToPascalCase::to_pascal_case(text)
}

/// `ToSnakeCase::to_snake_case` of `heck`.
#[verifier::external_body]
pub(crate) fn to_snake_case(text: &str) -> (snake: String)
    ensures
        snake@ == snake_case(text@),
{
    heck::ToSnakeCase::to_snake_case(text)
}

/// `str::trim` of std: the text without leading and trailing white space.
#[verifier::external_body]
pub(crate) fn trim(text: &str) -> (rest: &str)
    ensures
        rest@ == trimmed(text@),
{
    text.trim()
}

/// `str::replace` of std, with the full stop as pattern and the empty text
/// as replacement: every full stop is removed.
#[verifier::external_body]
pub(crate) fn remove_stops(text: &str) -> (rest: String)
    ensures
        rest@ == without_stops(text@),
{
    text.replace(".", "")
}

/// Whether `text` holds, from `start` on, the characters of `part`.
pub fn holds_at(text: &str, start: usize, part: &str) -> (holds: bool)
    ensures
        holds == (start + part@.len() <= text@.len() && text@.subrange(
            start as int,
            start + part@.len(),
        ) == part@),
{
    let length = text.unicode_len();
    let part_length = part.unicode_len();
    if start > length || part_length > length - start {
        return false;
    }
    let mut i: usize = 0;
    while i < part_length
        invariant
            i <= part_length,
            part_length == part@.len(),
            length == text@.len(),
            start + part_length <= length,
            forall|k: int| 0 <= k < i ==> text@[start + k] == part@[k],
        decreases part_length - i,
    {
        if text.get_char(start + i) != part.get_char(i) {
            assert(text@.subrange(start as int, start + part@.len())[i as int] != part@[i as int]);
            return false;
        }
        i = i + 1;
    }
    assert(text@.subrange(start as int, start + part@.len()) =~= part@);
    true
}

/// Whether `needle` occurs in `hay` as a contiguous run of characters.
pub fn contains(hay: &str, needle: &str) -> (found: bool)
    ensures
        found == occurs_in(needle@, hay@),
{
    let length = hay.unicode_len();
    let needle_length = needle.unicode_len();
    if needle_length > length {
        return false;
    }
    let last = length - needle_length;
    let mut start: usize = 0;
    while start < last
        invariant
            start <= last,
            last == hay@.len() - needle@.len(),
            forall|k: int|
                0 <= k < start ==> #[trigger] hay@.subrange(k, k + needle@.len()) != needle@,
        decreases last - start,
    {
        if holds_at(hay, start, needle) {
            return true;
        }
        start = start + 1;
    }
    holds_at(hay, last, needle)
}

/// A string literal made into a `String`, as source text.
pub open spec fn string_expression(literal: Seq<char>) -> Seq<char> {
    literal + ".to_string()"@
}

/// Writes the expression that makes a `String` of a string literal.
pub fn to_string_expression(literal: &str) -> (text: String)
    ensures
        text@ == string_expression(literal@),
{
    owned(literal).concat(".to_string()")
}

/// Whether two texts hold the same characters.
pub fn same_text(a: &str, b: &str) -> (same: bool)
    ensures
        same == (a@ == b@),
{
    if a.unicode_len() != b.unicode_len() {
        return false;
    }
    let same = holds_at(a, 0, b);
    assert(a@.subrange(0, b@.len() as int) =~= a@);
    same
}

/// Whether `text` starts with `prefix`.
pub fn starts_with(text: &str, prefix: &str) -> (starts: bool)
    ensures
        starts == has_prefix(text@, prefix@),
{
    let starts = holds_at(text, 0, prefix);
    assert(prefix@.len() <= text@.len() ==> text@.take(prefix@.len() as int) =~= text@.subrange(
        0,
        prefix@.len() as int,
    ));
    starts
}

/// Whether `text` ends with `suffix`.
pub fn ends_with(text: &str, suffix: &str) -> (ends: bool)
    ensures
        ends == has_suffix(text@, suffix@),
{
    let length = text.unicode_len();
    let suffix_length = suffix.unicode_len();
    if suffix_length > length {
        return false;
    }
    let ends = holds_at(text, length - suffix_length, suffix);
    assert(text@.skip(text@.len() - suffix@.len()) =~= text@.subrange(
        length - suffix_length,
        length - suffix_length + suffix@.len(),
    ));
    ends
}

/// What follows `prefix` in `text`, where `text` starts with `prefix`.
pub fn strip_prefix<'a>(text: &'a str, prefix: &str) -> (rest: Option<&'a str>)
    ensures
        match rest {
            Some(tail) => has_prefix(text@, prefix@) && tail@ == text@.skip(prefix@.len() as int),
            None => !has_prefix(text@, prefix@),
        },
{
    if starts_with(text, prefix) {
        let tail = text.substring_char(prefix.unicode_len(), text.unicode_len());
        assert(tail@ =~= text@.skip(prefix@.len() as int));
        Some(tail)
    } else {
        None
    }
}

/// `Debug::fmt` of std for `str`, through `format!`: the text as a string
/// literal.
#[verifier::external_body]
pub(crate) fn quote(text: &str) -> (literal: String)
    ensures
        literal@ == quoted(text@),
{
    format!("{:?}", text)
}

/// The text of a digit.
fn digit_str(digit: u64) -> (text: &'static str)
    requires
        digit < 10,
    ensures
        text@ == digit_text(digit as int),
{
    if digit == 0 {
        "0"
    } else if digit == 1 {
        "1"
    } else if digit == 2 {
        "2"
    } else if digit == 3 {
        "3"
    } else if digit == 4 {
        "4"
    } else if digit == 5 {
        "5"
    } else if digit == 6 {
        "6"
    } else if digit == 7 {
        "7"
    } else if digit == 8 {
        "8"
    } else {
        "9"
    }
}

/// Writes a natural number in decimal notation.
pub fn decimal(number: u128) -> (text: String)
    ensures
        text@ == decimal_text(number as nat),
    decreases number,
{
    if number < 10 {
        owned(digit_str(number as u64))
    } else {
        decimal(number / 10).concat(digit_str((number % 10) as u64))
    }
}

/// The text of a hexadecimal digit.
fn hex_digit_str(digit: u64) -> (text: &'static str)
    requires
        digit < 16,
    ensures
        text@ == hex_digit_text(digit as int),
{
    if digit == 0 {
        "0"
    }     else if digit == 1 {
        "1"
    }     else if digit == 2 {
        "2"
    }     else if digit == 3 {
        "3"
    }     else if digit == 4 {
        "4"
    }     else if digit == 5 {
        "5"
    }     else if digit == 6 {
        "6"
    }     else if digit == 7 {
        "7"
    }     else if digit == 8 {
        "8"
    }     else if digit == 9 {
        "9"
    }     else if digit == 10 {
        "a"
    }     else if digit == 11 {
        "b"
    }     else if digit == 12 {
        "c"
    }     else if digit == 13 {
        "d"
    }     else if digit == 14 {
        "e"
    } else {
        "f"
    }
}

/// Writes a natural number in hexadecimal notation, in lower case.
pub fn hexadecimal(number: u64) -> (text: String)
    ensures
        text@ == hex_text(number as nat),
    decreases number,
{
    if number < 16 {
        owned(hex_digit_str(number))
    } else {
        hexadecimal(number / 16).concat(hex_digit_str(number % 16))
    }
}

/// Writes an integer in decimal notation.
pub fn signed_decimal(number: i128) -> (text: String)
    ensures
        text@ == signed_text(number as int),
{
    if number < 0 {
        let magnitude: u128 = if number == i128::MIN {
            0x8000_0000_0000_0000_0000_0000_0000_0000
        } else {
            (-number) as u128
        };
        owned("-").concat(decimal(magnitude).as_str())
    } else {
        decimal(number as u128)
    }
}

/// An owned copy of a text.
pub fn owned(text: &str) -> (copy: String)
    ensures
        copy@ == text@,
{
    text.to_owned()
}

} // verus!
