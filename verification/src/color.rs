//! Colors in the `#rrggbb` and `#rrggbbaa` notations.

use crate::json::{value_as_str, value_str, value_view, JsonValue};
use vstd::prelude::*;
use vstd::string::*;

verus! {

/// A color, with or without an alpha channel. A color keeps the form it was
/// read in: one read from seven characters is `Rgb`, one read from nine is
/// `Rgba`, and each is written in the form it has.
#[derive(Clone, Copy, Debug, Eq, PartialEq)]
pub enum Color {
    Rgb { r: u8, g: u8, b: u8 },
    Rgba { r: u8, g: u8, b: u8, a: u8 },
}

/// Why a text is not a color.
#[derive(Clone, Copy, Debug, Eq, PartialEq)]
pub enum ColorError {
    /// The text has neither seven nor nine characters; holds its length.
    InvalidLength(usize),
    /// The text does not begin with `#`.
    MissingHash,
    /// A channel is not written as two hexadecimal digits.
    InvalidComponent,
}

/// The value of a hexadecimal digit, in either case.
pub open spec fn hex_value(c: char) -> Option<u8> {
    let n = c as u32;
    if 48 <= n <= 57 {
        Some((n - 48) as u8)
    } else if 97 <= n <= 102 {
        Some((n - 87) as u8)
    } else if 65 <= n <= 70 {
        Some((n - 55) as u8)
    } else {
        None
    }
}

/// The lower-case hexadecimal digit for a value below sixteen.
pub open spec fn hex_digit(n: u8) -> char {
    if n == 0 {
        '0'
    } else if n == 1 {
        '1'
    } else if n == 2 {
        '2'
    } else if n == 3 {
        '3'
    } else if n == 4 {
        '4'
    } else if n == 5 {
        '5'
    } else if n == 6 {
        '6'
    } else if n == 7 {
        '7'
    } else if n == 8 {
        '8'
    } else if n == 9 {
        '9'
    } else if n == 10 {
        'a'
    } else if n == 11 {
        'b'
    } else if n == 12 {
        'c'
    } else if n == 13 {
        'd'
    } else if n == 14 {
        'e'
    } else {
        'f'
    }
}

/// The channel written by the two characters of `s` that start at `at`.
pub open spec fn channel(s: Seq<char>, at: int) -> Option<u8> {
    match (hex_value(s[at]), hex_value(s[at + 1])) {
        (Some(high), Some(low)) => Some((high * 16 + low) as u8),
        _ => None,
    }
}

/// The two digits of a channel.
pub open spec fn channel_text(n: u8) -> Seq<char> {
    seq![hex_digit(n / 16), hex_digit(n % 16)]
}

/// The color that a text denotes.
pub open spec fn parse_color(s: Seq<char>) -> Result<Color, ColorError> {
    if s.len() != 7 && s.len() != 9 {
        Err(ColorError::InvalidLength(s.len() as usize))
    } else if s[0] != '#' {
        Err(ColorError::MissingHash)
    } else if channel(s, 1) is None || channel(s, 3) is None || channel(s, 5) is None {
        Err(ColorError::InvalidComponent)
    } else if s.len() == 7 {
        Ok(Color::Rgb { r: channel(s, 1)->Some_0, g: channel(s, 3)->Some_0, b: channel(s, 5)->Some_0 })
    } else if channel(s, 7) is None {
        Err(ColorError::InvalidComponent)
    } else {
        Ok(
            Color::Rgba {
                r: channel(s, 1)->Some_0,
                g: channel(s, 3)->Some_0,
                b: channel(s, 5)->Some_0,
                a: channel(s, 7)->Some_0,
            },
        )
    }
}

impl Color {
    /// The text of the color: `#`, then two lower-case digits per channel.
    pub open spec fn text(self) -> Seq<char> {
        match self {
            Color::Rgb { r, g, b } => seq!['#'] + channel_text(r) + channel_text(g) + channel_text(
                b,
            ),
            Color::Rgba { r, g, b, a } => seq!['#'] + channel_text(r) + channel_text(g)
                + channel_text(b) + channel_text(a),
        }
    }

    /// The color that a JSON value holds: a string that is a color.
    pub open spec fn of_json(j: JsonValue) -> Option<Color> {
        match j {
            JsonValue::Str(s) => match parse_color(s) {
                Ok(c) => Some(c),
                Err(_) => None,
            },
            _ => None,
        }
    }

    /// The JSON form of the color, a string.
    pub open spec fn to_json(self) -> JsonValue {
        JsonValue::Str(self.text())
    }

    /// Reads a color from its text.
    pub fn parse(s: &str) -> (r: Result<Color, ColorError>)
        ensures
            r == parse_color(s@),
    {
        let len = s.unicode_len();
        if len != 7 && len != 9 {
            return Err(ColorError::InvalidLength(len));
        }
        if s.get_char(0) != '#' {
            return Err(ColorError::MissingHash);
        }
        let r = read_channel(s, 1);
        let g = read_channel(s, 3);
        let b = read_channel(s, 5);
        match (r, g, b) {
            (Some(r), Some(g), Some(b)) => {
                if len == 7 {
                    Ok(Color::Rgb { r, g, b })
                } else {
                    match read_channel(s, 7) {
                        Some(a) => Ok(Color::Rgba { r, g, b, a }),
                        None => Err(ColorError::InvalidComponent),
                    }
                }
            },
            _ => Err(ColorError::InvalidComponent),
        }
    }

    /// Writes the color as text.
    pub fn to_text(&self) -> (s: String)
        ensures
            s@ == self.text(),
    {
        let mut s = String::from_str("#");
        proof {
            reveal_strlit("#");
        }
        assert(s@ =~= seq!['#']);
        match *self {
            Color::Rgb { r, g, b } => {
                push_channel(&mut s, r);
                push_channel(&mut s, g);
                push_channel(&mut s, b);
            },
            Color::Rgba { r, g, b, a } => {
                push_channel(&mut s, r);
                push_channel(&mut s, g);
                push_channel(&mut s, b);
                push_channel(&mut s, a);
            },
        }
        s
    }

    /// Reads a color from a JSON value.
    pub fn from_json(v: &serde_json::Value) -> (r: Option<Color>)
        ensures
            r == Color::of_json(value_view(*v)),
    {
        match value_as_str(v) {
            Some(s) => match Color::parse(s) {
                Ok(c) => Some(c),
                Err(_) => None,
            },
            None => None,
        }
    }

    /// The JSON value of the color.
    pub fn to_value(&self) -> (v: serde_json::Value)
        ensures
            value_view(v) == self.to_json(),
    {
        let text = self.to_text();
        value_str(text.as_str())
    }
}

fn read_digit(c: char) -> (r: Option<u8>)
    ensures
        r == hex_value(c),
{
    let n = c as u32;
    if 48 <= n && n <= 57 {
        Some((n - 48) as u8)
    } else if 97 <= n && n <= 102 {
        Some((n - 87) as u8)
    } else if 65 <= n && n <= 70 {
        Some((n - 55) as u8)
    } else {
        None
    }
}

fn read_channel(s: &str, at: usize) -> (r: Option<u8>)
    requires
        at <= 7,
        at + 1 < s@.len(),
    ensures
        r == channel(s@, at as int),
{
    match (read_digit(s.get_char(at)), read_digit(s.get_char(at + 1))) {
        (Some(high), Some(low)) => Some(high * 16 + low),
        _ => None,
    }
}

fn digit_text(n: u8) -> (s: &'static str)
    requires
        n < 16,
    ensures
        s@ == seq![hex_digit(n)],
{
    proof {
        reveal_strlit("0");
        reveal_strlit("1");
        reveal_strlit("2");
        reveal_strlit("3");
        reveal_strlit("4");
        reveal_strlit("5");
        reveal_strlit("6");
        reveal_strlit("7");
        reveal_strlit("8");
        reveal_strlit("9");
        reveal_strlit("a");
        reveal_strlit("b");
        reveal_strlit("c");
        reveal_strlit("d");
        reveal_strlit("e");
        reveal_strlit("f");
    }
    let s = if n == 0 {
        "0"
    } else if n == 1 {
        "1"
    } else if n == 2 {
        "2"
    } else if n == 3 {
        "3"
    } else if n == 4 {
        "4"
    } else if n == 5 {
        "5"
    } else if n == 6 {
        "6"
    } else if n == 7 {
        "7"
    } else if n == 8 {
        "8"
    } else if n == 9 {
        "9"
    } else if n == 10 {
        "a"
    } else if n == 11 {
        "b"
    } else if n == 12 {
        "c"
    } else if n == 13 {
        "d"
    } else if n == 14 {
        "e"
    } else {
        "f"
    };
    assert(s@ =~= seq![hex_digit(n)]);
    s
}

fn push_channel(s: &mut String, n: u8)
    ensures
        final(s)@ == old(s)@ + channel_text(n),
{
    s.append(digit_text(n / 16));
    s.append(digit_text(n % 16));
    assert(s@ =~= old(s)@ + channel_text(n));
}

/// Every value below sixteen is read back from its digit.
pub proof fn lemma_digit_round_trip(n: u8)
    requires
        n < 16,
    ensures
        hex_value(hex_digit(n)) == Some(n),
{
}

/// Every channel is read back from its two digits, wherever they stand.
pub proof fn lemma_channel_round_trip(s: Seq<char>, at: int, n: u8)
    requires
        0 <= at,
        at + 2 <= s.len(),
        s.subrange(at, at + 2) == channel_text(n),
    ensures
        channel(s, at) == Some(n),
{
    assert(s[at] == s.subrange(at, at + 2)[0]);
    assert(s[at + 1] == s.subrange(at, at + 2)[1]);
    lemma_digit_round_trip(n / 16);
    lemma_digit_round_trip(n % 16);
}

/// A color is read back from its text as it was: three channels give the
/// same three channels, four give the same four.
pub proof fn lemma_color_round_trip(c: Color)
    ensures
        parse_color(c.text()) == Ok::<Color, ColorError>(c),
        Color::of_json(c.to_json()) == Some(c),
{
    let s = c.text();
    match c {
        Color::Rgb { r, g, b } => {
            assert(s.len() == 7);
            assert(s.subrange(1, 3) =~= channel_text(r));
            assert(s.subrange(3, 5) =~= channel_text(g));
            assert(s.subrange(5, 7) =~= channel_text(b));
            lemma_channel_round_trip(s, 1, r);
            lemma_channel_round_trip(s, 3, g);
            lemma_channel_round_trip(s, 5, b);
        },
        Color::Rgba { r, g, b, a } => {
            assert(s.len() == 9);
            assert(s.subrange(1, 3) =~= channel_text(r));
            assert(s.subrange(3, 5) =~= channel_text(g));
            assert(s.subrange(5, 7) =~= channel_text(b));
            assert(s.subrange(7, 9) =~= channel_text(a));
            lemma_channel_round_trip(s, 1, r);
            lemma_channel_round_trip(s, 3, g);
            lemma_channel_round_trip(s, 5, b);
            lemma_channel_round_trip(s, 7, a);
        },
    }
}

/// A color is read back from its own document as it was.
pub proof fn lemma_color_json_round_trip(c: Color)
    ensures
        Color::of_json(c.to_json()) == Some(c),
{
    lemma_color_round_trip(c);
}

/// A text of the wrong length, or one that does not begin with `#`, is no
/// color.
pub proof fn lemma_color_rejects(s: Seq<char>)
    requires
        (s.len() != 7 && s.len() != 9) || s[0] != '#',
    ensures
        parse_color(s) is Err,
        s.len() != 7 && s.len() != 9 ==> parse_color(s) == Err::<Color, ColorError>(
            ColorError::InvalidLength(s.len() as usize),
        ),
        (s.len() == 7 || s.len() == 9) ==> parse_color(s) == Err::<Color, ColorError>(
            ColorError::MissingHash,
        ),
{
}

} // verus!
