//! Reading a colour, a physics dimension and a length of time from text.

use vstd::prelude::*;
use vstd::string::StringExecFns;
use crate::args::{HexColor, StrengthOrWind};
use crate::units::Span;

verus! {

/// The value of a hexadecimal digit, in either case; `None` for any other
/// character.
pub open spec fn hex_value(c: char) -> Option<int> {
    if '0' <= c <= '9' {
        Some(c as int - '0' as int)
    } else if 'A' <= c <= 'F' {
        Some(c as int - 'A' as int + 10)
    } else if 'a' <= c <= 'f' {
        Some(c as int - 'a' as int + 10)
    } else {
        None
    }
}

/// The byte written by the two hexadecimal digits at `i` and `i + 1`;
/// `None` when either is missing or is no digit.
pub open spec fn hex_pair_at(s: Seq<char>, i: int) -> Option<u8> {
    if 0 <= i && i + 1 < s.len() && hex_value(s[i]) is Some && hex_value(s[i + 1]) is Some {
        Some((16 * hex_value(s[i]).unwrap() + hex_value(s[i + 1]).unwrap()) as u8)
    } else {
        None
    }
}

/// Red, green and blue from the first six characters, and the opacity from
/// the next two where they are digits. What follows is not looked at.
pub open spec fn rgb_maybe_a(s: Seq<char>) -> Option<(u8, u8, u8, Option<u8>)> {
    if hex_pair_at(s, 0) is Some && hex_pair_at(s, 2) is Some && hex_pair_at(s, 4) is Some {
        Some(
            (
                hex_pair_at(s, 0).unwrap(),
                hex_pair_at(s, 2).unwrap(),
                hex_pair_at(s, 4).unwrap(),
                hex_pair_at(s, 6),
            ),
        )
    } else {
        None
    }
}

/// `s` without its leading run of `c`.
pub open spec fn trim_start(s: Seq<char>, c: char) -> Seq<char>
    decreases s.len(),
{
    if s.len() > 0 && s[0] == c {
        trim_start(s.subrange(1, s.len() as int), c)
    } else {
        s
    }
}

/// The text without its leading run of `c`.
fn strip_leading(text: &str, c: char) -> (r: &str)
    ensures
        r@ == trim_start(text@, c),
{
    let n = text.unicode_len();
    let mut i: usize = 0;
    assert(text@.subrange(0, n as int) =~= text@);
    while i < n && text.get_char(i) == c
        invariant
            n == text@.len(),
            0 <= i <= n,
            trim_start(text@, c) == trim_start(text@.subrange(i as int, n as int), c),
        decreases n - i,
    {
        proof {
            let rest = text@.subrange(i as int, n as int);
            assert(rest[0] == c);
            assert(rest.subrange(1, rest.len() as int) =~= text@.subrange(i + 1, n as int));
        }
        i += 1;
    }
    proof {
        let rest = text@.subrange(i as int, n as int);
        if i < n {
            assert(rest[0] != c);
        }
    }
    text.substring_char(i, n)
}

/// Calls `read_color::rgb_maybe_a` on the characters of `text`.
/// Trusted: it reads three pairs of hexadecimal digits, fails when any of
/// the six is missing or is no digit, then reads one more pair as the
/// opacity and leaves that out when the pair is not there. A pair `h l`
/// stands for the byte `16 * h + l`.
#[verifier::external_body]
fn read_rgb_maybe_a(text: &str) -> (r: Option<(u8, u8, u8, Option<u8>)>)
    ensures
        r == rgb_maybe_a(text@),
{
    match read_color::rgb_maybe_a(&mut text.chars()) {
        Some((rgb, a)) => Some((rgb[0], rgb[1], rgb[2], a)),
        None => None,
    }
}

/// True when the two texts hold the same characters.
pub fn same_text(a: &str, b: &str) -> (r: bool)
    ensures
        r == (a@ == b@),
{
    let x = a.to_owned();
    let y = b.to_owned();
    x == y
}

/// A text that is no colour.
#[derive(Debug, Clone, PartialEq, Eq)]
pub struct ColorError {
    /// The text as it was given.
    pub input: String,
}

impl ColorError {
    /// The message shown to the user.
    pub fn message(&self) -> (r: String)
        ensures
            r@ == "could not parse string `"@ + self.input@ + "` as a hex color value"@,
    {
        let head = "could not parse string `".to_owned();
        head.concat(self.input.as_str()).concat("` as a hex color value")
    }
}

/// A text that names no physics dimension.
#[derive(Debug, Clone, PartialEq, Eq)]
pub struct UnknownKind {
    /// The text as it was given.
    pub input: String,
}

impl UnknownKind {
    /// The message shown to the user.
    pub fn message(&self) -> (r: String)
        ensures
            r@ == "Unknown value `"@ + self.input@
                + "`. Should be either `strength` or `wind`."@,
    {
        let head = "Unknown value `".to_owned();
        head.concat(self.input.as_str()).concat("`. Should be either `strength` or `wind`.")
    }
}

impl HexColor {
    /// The opacity of a colour written without one.
    pub const OPAQUE: u8 = 255;

    /// The colour that a text stands for: leading `#` signs are dropped,
    /// then come six hexadecimal digits and, optionally, two for the
    /// opacity.
    pub open spec fn parse(text: Seq<char>) -> Option<HexColor> {
        match rgb_maybe_a(trim_start(text, '#')) {
            Some((r, g, b, a)) => Some(
                HexColor {
                    r,
                    g,
                    b,
                    a: match a {
                        Some(a) => a,
                        None => 255,
                    },
                },
            ),
            None => None,
        }
    }

    /// Reads a colour such as `#ff8000` or `ff800080`. A colour without an
    /// opacity is fully opaque.
    pub fn from_str(value: &str) -> (r: Result<HexColor, ColorError>)
        ensures
            match Self::parse(value@) {
                Some(c) => r == Ok::<HexColor, ColorError>(c),
                None => r is Err && r.unwrap_err().input@ == value@,
            },
    {
        let digits = strip_leading(value, '#');
        match read_rgb_maybe_a(digits) {
            Some((r, g, b, a)) => {
                let a: u8 = match a {
                    Some(a) => a,
                    None => Self::OPAQUE,
                };
                Ok(HexColor { r, g, b, a })
            },
            None => Err(ColorError { input: value.to_owned() }),
        }
    }
}

impl StrengthOrWind {
    /// The dimension that a text names.
    pub open spec fn parse(text: Seq<char>) -> Option<StrengthOrWind> {
        if text == "strength"@ {
            Some(StrengthOrWind::Strength)
        } else if text == "wind"@ {
            Some(StrengthOrWind::Wind)
        } else {
            None
        }
    }

    /// The texts that [`StrengthOrWind::from_str`] accepts.
    pub fn variants() -> (r: &'static [&'static str])
        ensures
            r@.len() == 2,
            r@[0]@ == "strength"@,
            r@[1]@ == "wind"@,
            forall|i: int| 0 <= i < r@.len() ==> Self::parse(#[trigger] r@[i]@) is Some,
    {
        &["strength", "wind"]
    }

    /// Reads `strength` or `wind`, exactly so written.
    pub fn from_str(value: &str) -> (r: Result<StrengthOrWind, UnknownKind>)
        ensures
            match Self::parse(value@) {
                Some(k) => r == Ok::<StrengthOrWind, UnknownKind>(k),
                None => r is Err && r.unwrap_err().input@ == value@,
            },
    {
        if same_text(value, "strength") {
            Ok(StrengthOrWind::Strength)
        } else if same_text(value, "wind") {
            Ok(StrengthOrWind::Wind)
        } else {
            Err(UnknownKind { input: value.to_owned() })
        }
    }
}

// ---------------------------------------------------------------------------
// Lengths of time

/// An ASCII letter.
pub open spec fn is_ascii_letter(c: char) -> bool {
    ('a' <= c <= 'z') || ('A' <= c <= 'Z')
}

/// An ASCII digit.
pub open spec fn is_ascii_digit(c: char) -> bool {
    '0' <= c <= '9'
}

/// The character at `i` may open an exponent: it is an `e`, in either
/// case, that does not follow an ASCII letter. (An `e` inside a unit's
/// name, as in `sec`, follows a letter.)
pub open spec fn may_open_exponent(s: Seq<char>, i: int) -> bool {
    &&& 0 <= i < s.len()
    &&& s[i] == 'e' || s[i] == 'E'
    &&& !(i > 0 && is_ascii_letter(s[i - 1]))
}

/// There is an ASCII digit at `j`.
pub open spec fn digit_at(s: Seq<char>, j: int) -> bool {
    0 <= j < s.len() && is_ascii_digit(s[j])
}

/// Three ASCII digits stand in a row right after `i`, an optional sign
/// skipped.
pub open spec fn three_digits_follow(s: Seq<char>, i: int) -> bool {
    let j = if i + 1 < s.len() && (s[i + 1] == '+' || s[i + 1] == '-') {
        i + 2
    } else {
        i + 1
    };
    digit_at(s, j) && digit_at(s, j + 1) && digit_at(s, j + 2)
}

/// No exponent in the text has three digits or more.
pub open spec fn exponents_are_short(s: Seq<char>) -> bool {
    forall|i: int| 0 <= i < s.len() ==> !(may_open_exponent(s, i) && three_digits_follow(s, i))
}

/// What `parse_duration::parse` makes of a text: the seconds and the
/// nanoseconds beyond them, or the text of its error.
pub uninterp spec fn parsed_duration(text: Seq<char>) -> Result<(u64, u32), Seq<char>>;

/// Calls `parse_duration::parse`, and takes the length it returns apart
/// with `Duration::as_secs` and `Duration::subsec_nanos`, or its error to
/// text. Trusted: the outcome depends on the text alone; a length has less
/// than a second of nanoseconds. The parser raises ten to the power of an
/// exponent it reads, so it is called only where no exponent has three
/// digits or more: there it returns, and does not panic.
#[verifier::external_body]
fn parse_duration_text(text: &str) -> (r: Result<Span, String>)
    requires
        exponents_are_short(text@),
    ensures
        match parsed_duration(text@) {
            Ok((secs, nanos)) => r == Ok::<Span, String>(Span { secs, nanos }),
            Err(reason) => r is Err && r.unwrap_err()@ == reason,
        },
        r matches Ok(span) ==> span.wf(),
{
    match parse_duration::parse(text) {
        Ok(d) => Ok(Span { secs: d.as_secs(), nanos: d.subsec_nanos() }),
        Err(e) => Err(e.to_string()),
    }
}

fn is_letter(c: char) -> (r: bool)
    ensures
        r == is_ascii_letter(c),
{
    (c >= 'a' && c <= 'z') || (c >= 'A' && c <= 'Z')
}

fn is_digit(c: char) -> (r: bool)
    ensures
        r == is_ascii_digit(c),
{
    c >= '0' && c <= '9'
}

/// Tests that no exponent in the text has three digits or more.
pub fn has_short_exponents(text: &str) -> (r: bool)
    ensures
        r == exponents_are_short(text@),
{
    let n = text.unicode_len();
    let mut i: usize = 0;
    while i < n
        invariant
            n == text@.len(),
            0 <= i <= n,
            forall|k: int|
                0 <= k < i ==> !(may_open_exponent(text@, k) && three_digits_follow(text@, k)),
        decreases n - i,
    {
        let c = text.get_char(i);
        if c == 'e' || c == 'E' {
            let after_letter = i > 0 && is_letter(text.get_char(i - 1));
            if !after_letter {
                let mut j: usize = i + 1;
                if j < n {
                    let sign = text.get_char(j);
                    if sign == '+' || sign == '-' {
                        j = j + 1;
                    }
                }
                if j < n && n - j >= 3 {
                    if is_digit(text.get_char(j)) && is_digit(text.get_char(j + 1)) && is_digit(
                        text.get_char(j + 2),
                    ) {
                        assert(may_open_exponent(text@, i as int) && three_digits_follow(
                            text@,
                            i as int,
                        ));
                        return false;
                    }
                }
            }
        }
        i += 1;
    }
    true
}

/// A text that is no length of time.
#[derive(Debug, Clone, PartialEq, Eq)]
pub enum DurationError {
    /// The text holds an exponent of three digits or more, which is not
    /// read.
    LongExponent { input: String },
    /// The parser refused the text, for the reason it gave.
    Invalid { input: String, reason: String },
}

impl DurationError {
    /// The message shown to the user.
    pub fn message(&self) -> (r: String)
        ensures
            match *self {
                DurationError::LongExponent { input } => r@ == "the exponent in `"@ + input@
                    + "` has more than two digits"@,
                DurationError::Invalid { input, reason } => r@ == reason@,
            },
    {
        match self {
            DurationError::LongExponent { input } => {
                let head = "the exponent in `".to_owned();
                head.concat(input.as_str()).concat("` has more than two digits")
            },
            DurationError::Invalid { input, reason } => reason.clone(),
        }
    }
}

impl Span {
    /// Reads a length of time such as `5s`, `1m30s` or `500ms`; a number
    /// alone counts seconds.
    ///
    /// A text with an exponent of three digits or more is refused without
    /// being parsed. Every other text is handed to the parser, and what the
    /// parser makes of it is the result.
    pub fn from_str(text: &str) -> (r: Result<Span, DurationError>)
        ensures
            !exponents_are_short(text@) ==> (r matches Err(DurationError::LongExponent { input })
                && input@ == text@),
            exponents_are_short(text@) ==> match parsed_duration(text@) {
                Ok((secs, nanos)) => r == Ok::<Span, DurationError>(Span { secs, nanos }),
                Err(why) => r matches Err(DurationError::Invalid { input, reason }) && input@
                    == text@ && reason@ == why,
            },
            r matches Ok(span) ==> span.wf(),
    {
        if !has_short_exponents(text) {
            return Err(DurationError::LongExponent { input: text.to_owned() });
        }
        match parse_duration_text(text) {
            Ok(span) => Ok(span),
            Err(reason) => Err(DurationError::Invalid { input: text.to_owned(), reason }),
        }
    }
}

} // verus!
