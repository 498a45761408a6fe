//! Numbers in tooltips.

use crate::arith::clamp_u64;
use crate::pattern::{captures, group, group_text, regex_groups};
use vstd::prelude::*;

verus! {

/// The expression that finds the first number in a text: an optional sign,
/// digits, and an optional fraction.
pub const NUMERIC_REGEX: &'static str = r"[-+]?\d*\.?\d+";

/// A decimal number as it stands in a text, in thousandths. Digits beyond
/// the third decimal place are dropped, and the magnitude is held at the
/// largest `u64`.
#[derive(Clone, Copy, Debug, PartialEq, Eq, Structural)]
pub struct Decimal {
    /// Whether the number is written with a minus sign.
    pub negative: bool,
    /// The magnitude in thousandths.
    pub thousandths: u64,
    /// Whether the number is written without a decimal point.
    pub integral: bool,
}

/// Whether a character is one of the digits `0` to `9`.
pub open spec fn is_digit(c: char) -> bool {
    '0' <= c && c <= '9'
}

/// The value of a digit.
pub open spec fn digit_value(c: char) -> int {
    c as u32 - '0' as u32
}

/// The number that a sequence of digits writes.
pub open spec fn digits_value(digits: Seq<char>) -> int
    decreases digits.len(),
{
    if digits.len() == 0 {
        0
    } else {
        digits_value(digits.drop_last()) * 10 + digit_value(digits.last())
    }
}

/// The end of the longest run of digits that starts at `from`.
pub open spec fn digit_run(text: Seq<char>, from: int) -> int
    decreases text.len() - from,
{
    if 0 <= from < text.len() && is_digit(text[from]) {
        digit_run(text, from + 1)
    } else {
        from
    }
}

/// The thousandths that the digits after a decimal point write.
pub open spec fn fraction_thousandths(digits: Seq<char>) -> int {
    (if digits.len() > 0 {
        digit_value(digits[0]) * 100
    } else {
        0
    }) + (if digits.len() > 1 {
        digit_value(digits[1]) * 10
    } else {
        0
    }) + (if digits.len() > 2 {
        digit_value(digits[2])
    } else {
        0
    })
}

/// The number that `token` writes, if it writes one: an optional sign, then
/// digits, or digits (possibly none), a point and at least one digit, and
/// nothing else.
pub open spec fn decimal_of(token: Seq<char>) -> Option<Decimal> {
    let signed = token.len() > 0 && (token[0] == '-' || token[0] == '+');
    let negative = token.len() > 0 && token[0] == '-';
    let start = if signed {
        1int
    } else {
        0int
    };
    let whole_end = digit_run(token, start);
    let whole = digits_value(token.subrange(start, whole_end));
    if whole_end == token.len() {
        if whole_end > start {
            Some(
                Decimal {
                    negative,
                    thousandths: clamp_u64(whole * 1000) as u64,
                    integral: true,
                },
            )
        } else {
            None
        }
    } else if token[whole_end] == '.' {
        let fraction_end = digit_run(token, whole_end + 1);
        if fraction_end == token.len() && fraction_end > whole_end + 1 {
            Some(
                Decimal {
                    negative,
                    thousandths: clamp_u64(
                        whole * 1000 + fraction_thousandths(
                            token.subrange(whole_end + 1, fraction_end),
                        ),
                    ) as u64,
                    integral: false,
                },
            )
        } else {
            None
        }
    } else {
        None
    }
}

/// The first number in `text`, as the expression `NUMERIC_REGEX` finds it.
pub open spec fn numeric_of(text: Seq<char>) -> Option<Decimal> {
    match group_text(regex_groups(NUMERIC_REGEX@, text), 0) {
        Some(token) => decimal_of(token),
        None => None,
    }
}

/// A run of digits from `from` reaches at least to `to` where all
/// characters between are digits, and ends at `to` where `to` ends the
/// text or holds no digit.
pub proof fn digit_run_reaches(text: Seq<char>, from: int, to: int)
    requires
        0 <= from <= to <= text.len(),
        forall|k: int| from <= k < to ==> is_digit(#[trigger] text[k]),
    ensures
        digit_run(text, from) == digit_run(text, to),
    decreases to - from,
{
    if from < to {
        digit_run_reaches(text, from + 1, to);
    }
}

impl Decimal {
    /// Reads the number that `token` writes.
    pub fn parse(token: &str) -> (number: Option<Decimal>)
        ensures
            number == decimal_of(token@),
    {
        let length = token.unicode_len();
        let mut negative = false;
        let mut start: usize = 0;
        if length > 0 {
            let first = token.get_char(0);
            if first == '-' {
                negative = true;
                start = 1;
            } else if first == '+' {
                start = 1;
            }
        }
        let mut whole: u64 = 0;
        let mut i: usize = start;
        assert(token@.subrange(start as int, start as int) =~= Seq::<char>::empty());
        while i < length && '0' <= token.get_char(i) && token.get_char(i) <= '9'
            invariant
                start <= i <= length,
                length == token@.len(),
                forall|k: int| start <= k < i ==> is_digit(#[trigger] token@[k]),
                whole == clamp_u64(digits_value(token@.subrange(start as int, i as int))),
                digits_value(token@.subrange(start as int, i as int)) >= 0,
            decreases length - i,
        {
            let digit = (token.get_char(i) as u32 - '0' as u32) as u64;
            assert(token@.subrange(start as int, i as int + 1).drop_last() =~= token@.subrange(
                start as int,
                i as int,
            ));
            whole = if whole > (u64::MAX - digit) / 10 {
                u64::MAX
            } else {
                whole * 10 + digit
            };
            i = i + 1;
        }
        let whole_end = i;
        proof {
            digit_run_reaches(token@, start as int, whole_end as int);
        }
        if whole_end == length {
            if whole_end > start {
                let thousandths = if whole > u64::MAX / 1000 {
                    u64::MAX
                } else {
                    whole * 1000
                };
                return Some(Decimal { negative, thousandths, integral: true });
            }
            return None;
        }
        if token.get_char(whole_end) != '.' {
            return None;
        }
        let mut fraction: u64 = 0;
        let mut scale: u64 = 100;
        let mut j: usize = whole_end + 1;
        let ghost digits_start = whole_end as int + 1;
        while j < length && '0' <= token.get_char(j) && token.get_char(j) <= '9'
            invariant
                whole_end + 1 <= j <= length,
                digits_start == whole_end + 1,
                length == token@.len(),
                forall|k: int| digits_start <= k < j ==> is_digit(#[trigger] token@[k]),
                fraction == fraction_thousandths(token@.subrange(digits_start, j as int)),
                fraction <= 999,
                scale == if j - digits_start == 0 {
                    100int
                } else if j - digits_start == 1 {
                    10int
                } else if j - digits_start == 2 {
                    1int
                } else {
                    0int
                },
            decreases length - j,
        {
            let digit = (token.get_char(j) as u32 - '0' as u32) as u64;
            let ghost before = token@.subrange(digits_start, j as int);
            let ghost after = token@.subrange(digits_start, j as int + 1);
            assert(forall|k: int| 0 <= k < before.len() ==> after[k] == before[k]);
            assert(after[j as int - digits_start] == token@[j as int]);
            fraction = fraction + digit * scale;
            scale = scale / 10;
            j = j + 1;
        }
        proof {
            digit_run_reaches(token@, digits_start, j as int);
        }
        if j == length && j > whole_end + 1 {
            let thousandths = if whole > (u64::MAX - fraction) / 1000 {
                u64::MAX
            } else {
                whole * 1000 + fraction
            };
            Some(Decimal { negative, thousandths, integral: false })
        } else {
            None
        }
    }

    /// The number as a `u32`, where it is written as a whole number without
    /// a minus sign and fits.
    pub open spec fn whole_u32(self) -> Option<u32> {
        if self.integral && !self.negative && self.thousandths != u64::MAX && self.thousandths
            / 1000 <= u32::MAX {
            Some((self.thousandths / 1000) as u32)
        } else {
            None
        }
    }

    /// The number as a `u32`, where it is written as a whole number without
    /// a minus sign and fits.
    pub fn as_u32(&self) -> (value: Option<u32>)
        ensures
            value == self.whole_u32(),
    {
        if self.integral && !self.negative && self.thousandths != u64::MAX && self.thousandths
            / 1000 <= u32::MAX as u64 {
            Some((self.thousandths / 1000) as u32)
        } else {
            None
        }
    }

    /// The number as a count, where it is written as a whole number without
    /// a minus sign and fits.
    pub open spec fn whole_usize(self) -> Option<usize> {
        if self.integral && !self.negative && self.thousandths != u64::MAX && self.thousandths
            / 1000 <= usize::MAX {
            Some((self.thousandths / 1000) as usize)
        } else {
            None
        }
    }

    /// The number as a count, where it is written as a whole number without
    /// a minus sign and fits.
    pub fn as_usize(&self) -> (value: Option<usize>)
        ensures
            value == self.whole_usize(),
    {
        if self.integral && !self.negative && self.thousandths != u64::MAX && self.thousandths
            / 1000 <= usize::MAX as u64 {
            Some((self.thousandths / 1000) as usize)
        } else {
            None
        }
    }

    /// The number of seconds as milliseconds; zero for a negative number.
    pub open spec fn millis(self) -> u64 {
        if self.negative {
            0
        } else {
            self.thousandths
        }
    }

    /// The number of seconds as milliseconds; zero for a negative number.
    pub fn as_millis(&self) -> (millis: u64)
        ensures
            millis == self.millis(),
    {
        if self.negative {
            0
        } else {
            self.thousandths
        }
    }

    /// The number of percents as basis points, held at the largest `u32`;
    /// zero for a negative number.
    pub open spec fn basis_points(self) -> u32 {
        if self.negative {
            0
        } else if self.thousandths / 10 > u32::MAX {
            u32::MAX
        } else {
            (self.thousandths / 10) as u32
        }
    }

    /// The number of percents as basis points; zero for a negative number.
    pub fn as_basis_points(&self) -> (points: u32)
        ensures
            points == self.basis_points(),
    {
        if self.negative {
            0
        } else if self.thousandths / 10 > u32::MAX as u64 {
            u32::MAX
        } else {
            (self.thousandths / 10) as u32
        }
    }
}

/// Reads the first number in a text: the first stretch of the text that
/// `NUMERIC_REGEX` matches, read as a decimal number. `None` where the text
/// holds no number.
pub fn parse_numeric(cooldown_str: &str) -> (number: Option<Decimal>)
    ensures
        number == numeric_of(cooldown_str@),
{
    let groups = captures(NUMERIC_REGEX, cooldown_str);
    match group(&groups, 0) {
        Some(token) => Decimal::parse(token),
        None => None,
    }
}

/// The whole number that group `index` of a match writes.
pub open spec fn group_u32(groups: Option<Seq<Option<Seq<char>>>>, index: int) -> Option<u32> {
    match group_text(groups, index) {
        Some(token) => match decimal_of(token) {
            Some(number) => number.whole_u32(),
            None => None,
        },
        None => None,
    }
}

/// The whole number that group 1 of the match of `pattern` in `text` writes.
pub open spec fn captured_u32(pattern: Seq<char>, text: Seq<char>) -> Option<u32> {
    group_u32(regex_groups(pattern, text), 1)
}

/// Reads text as a whole number that fits a `u32`.
pub fn parse_u32(token: &str) -> (value: Option<u32>)
    ensures
        value == match decimal_of(token@) {
            Some(number) => number.whole_u32(),
            None => None,
        },
{
    match Decimal::parse(token) {
        Some(number) => number.as_u32(),
        None => None,
    }
}

/// The whole number that group 1 of the match of `pattern` in `text` writes.
pub fn capture_u32(pattern: &str, text: &str) -> (value: Option<u32>)
    ensures
        value == captured_u32(pattern@, text@),
{
    let groups = captures(pattern, text);
    match group(&groups, 1) {
        Some(token) => parse_u32(token),
        None => None,
    }
}

} // verus!
