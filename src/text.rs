//! Reading the user's typed answers: unsigned decimal numbers and
//! comma-separated fields.

use vstd::prelude::*;

verus! {

/// An ASCII decimal digit.
pub open spec fn is_digit(c: char) -> bool {
    '0' <= c && c <= '9'
}

pub open spec fn digit_value(c: char) -> nat {
    (c as u32 - '0' as u32) as nat
}

/// The number that a sequence of decimal digits spells, most significant first.
pub open spec fn digits_value(d: Seq<char>) -> nat
    decreases d.len(),
{
    if d.len() == 0 {
        0
    } else {
        digits_value(d.drop_last()) * 10 + digit_value(d.last())
    }
}

/// The text of a number without its optional leading `+`.
pub open spec fn unsigned_digits(s: Seq<char>) -> Seq<char> {
    if s.len() > 0 && s[0] == '+' {
        s.drop_first()
    } else {
        s
    }
}

/// An unsigned decimal number: an optional `+` and at least one digit, nothing else.
pub open spec fn is_unsigned_text(s: Seq<char>) -> bool {
    let d = unsigned_digits(s);
    &&& d.len() > 0
    &&& forall|i: int| 0 <= i < d.len() ==> is_digit(#[trigger] d[i])
}

/// The value that an unsigned decimal text reads as, if it is one and does
/// not exceed `max`.
pub open spec fn parsed_unsigned(s: Seq<char>, max: nat) -> Option<nat> {
    if is_unsigned_text(s) && digits_value(unsigned_digits(s)) <= max {
        Some(digits_value(unsigned_digits(s)))
    } else {
        None
    }
}

/// Reads `s` as an unsigned decimal number no larger than `max`.
pub fn parse_unsigned(s: &str, max: usize) -> (r: Option<usize>)
    ensures
        r is Some <==> parsed_unsigned(s@, max as nat) is Some,
        r matches Some(v) ==> parsed_unsigned(s@, max as nat) == Some(v as nat),
{
    let n = s.unicode_len();
    let mut start: usize = 0;
    if n > 0 && s.get_char(0) == '+' {
        start = 1;
    }
    let ghost d = unsigned_digits(s@);
    assert(d =~= s@.subrange(start as int, n as int));
    if start >= n {
        return None;
    }
    let mut acc: usize = 0;
    let mut over = false;
    let mut i: usize = start;
    while i < n
        invariant
            start <= i <= n,
            n == s@.len(),
            d == unsigned_digits(s@),
            d =~= s@.subrange(start as int, n as int),
            forall|k: int| start <= k < i ==> is_digit(#[trigger] s@[k]),
            !over ==> acc as nat == digits_value(s@.subrange(start as int, i as int)) && acc
                <= max,
            over ==> digits_value(s@.subrange(start as int, i as int)) > max,
        decreases n - i,
    {
        let c = s.get_char(i);
        if !('0' <= c && c <= '9') {
            assert(d[i - start] == s@[i as int]);
            assert(!is_digit(d[i - start]));
            return None;
        }
        let dv = (c as u32 - '0' as u32) as usize;
        let ghost prev = s@.subrange(start as int, i as int);
        let ghost next = s@.subrange(start as int, i + 1);
        assert(next.drop_last() =~= prev);
        assert(digits_value(next) == digits_value(prev) * 10 + dv);
        if !over {
            if dv > max || acc > (max - dv) / 10 {
                assert(acc * 10 + dv > max) by (nonlinear_arith)
                    requires
                        dv > max || acc > (max - dv) / 10,
                        acc >= 0,
                        dv >= 0,
                ;
                over = true;
            } else {
                assert(acc * 10 + dv <= max) by (nonlinear_arith)
                    requires
                        dv <= max,
                        acc <= (max - dv) / 10,
                ;
                acc = acc * 10 + dv;
            }
        } else {
            assert(digits_value(next) >= digits_value(prev)) by (nonlinear_arith)
                requires
                    digits_value(next) == digits_value(prev) * 10 + dv,
            ;
        }
        i = i + 1;
    }
    assert(s@.subrange(start as int, i as int) =~= d);
    assert forall|k: int| 0 <= k < d.len() implies is_digit(#[trigger] d[k]) by {
        assert(d[k] == s@[start + k]);
    }
    if over {
        None
    } else {
        Some(acc)
    }
}

/// The index of the first comma of `s` at or after `from`, or the length of
/// `s` where there is none.
pub open spec fn next_comma(s: Seq<char>, from: int) -> int
    decreases s.len() - from,
{
    if from < 0 || from >= s.len() {
        s.len() as int
    } else if s[from] == ',' {
        from
    } else {
        next_comma(s, from + 1)
    }
}

/// Finds the first comma of `s` at or after `from`.
pub fn find_comma(s: &str, from: usize) -> (r: usize)
    requires
        from <= s@.len(),
    ensures
        r == next_comma(s@, from as int),
        from <= r <= s@.len(),
{
    let n = s.unicode_len();
    let mut i: usize = from;
    while i < n
        invariant
            from <= i <= n,
            n == s@.len(),
            next_comma(s@, from as int) == next_comma(s@, i as int),
        decreases n - i,
    {
        if s.get_char(i) == ',' {
            return i;
        }
        i = i + 1;
    }
    i
}

/// The first three comma-separated fields of `s`, or `None` where `s` has
/// fewer than three. Fields after the third are ignored.
pub open spec fn colour_fields(s: Seq<char>) -> Option<(Seq<char>, Seq<char>, Seq<char>)> {
    let c0 = next_comma(s, 0);
    let c1 = next_comma(s, c0 + 1);
    let c2 = next_comma(s, c1 + 1);
    if c0 < s.len() && c1 < s.len() {
        Some((s.subrange(0, c0), s.subrange(c0 + 1, c1), s.subrange(c1 + 1, c2)))
    } else {
        None
    }
}

/// A colour as the user gives it: hue, saturation and colour temperature.
#[derive(Clone, Copy, Debug, PartialEq, Eq, Structural)]
pub struct Colour {
    pub hue: u16,
    pub saturation: u16,
    pub color_temp: u16,
}

/// Why an answer could not be turned into a device command.
#[derive(Clone, Copy, Debug, PartialEq, Eq, Structural)]
pub enum CommandError {
    /// The colour has fewer than three comma-separated fields.
    MissingField,
    /// A field that must be a number in `0..=65535` is not one.
    InvalidNumber,
    /// The light-state message could not be encoded.
    Encoding,
}

pub const U16_LIMIT: usize = 65535;

/// What a colour answer reads as.
pub open spec fn parsed_colour(s: Seq<char>) -> Result<Colour, CommandError> {
    match colour_fields(s) {
        None => Err(CommandError::MissingField),
        Some((h, sa, t)) => {
            match (
                parsed_unsigned(h, U16_LIMIT as nat),
                parsed_unsigned(sa, U16_LIMIT as nat),
                parsed_unsigned(t, U16_LIMIT as nat),
            ) {
                (Some(a), Some(b), Some(c)) => Ok(
                    Colour { hue: a as u16, saturation: b as u16, color_temp: c as u16 },
                ),
                _ => Err(CommandError::InvalidNumber),
            }
        },
    }
}

/// Reads a colour written `hue,saturation,temperature`.
pub fn parse_colour(s: &str) -> (r: Result<Colour, CommandError>)
    ensures
        r == parsed_colour(s@),
        colour_fields(s@) is None ==> r == Err::<Colour, CommandError>(CommandError::MissingField),
{
    let n = s.unicode_len();
    let c0 = find_comma(s, 0);
    if c0 == n {
        return Err(CommandError::MissingField);
    }
    let c1 = find_comma(s, c0 + 1);
    if c1 == n {
        return Err(CommandError::MissingField);
    }
    let c2 = find_comma(s, c1 + 1);
    let h = parse_unsigned(s.substring_char(0, c0), U16_LIMIT);
    let sa = parse_unsigned(s.substring_char(c0 + 1, c1), U16_LIMIT);
    let t = parse_unsigned(s.substring_char(c1 + 1, c2), U16_LIMIT);
    match (h, sa, t) {
        (Some(a), Some(b), Some(c)) => Ok(
            Colour { hue: a as u16, saturation: b as u16, color_temp: c as u16 },
        ),
        _ => Err(CommandError::InvalidNumber),
    }
}

} // verus!
