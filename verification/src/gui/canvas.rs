//! Canvas colors and their firmware codes.

use vstd::prelude::*;
use crate::text::push_char;
use vstd::std_specs::convert::{FromSpecImpl, TryFromSpecImpl};

verus! {

/// Firmware code of a canvas color (`Color` of the SDK).
pub type SysColor = u8;

/// Firmware code of white.
pub const COLOR_WHITE: SysColor = 0;
/// Firmware code of black.
pub const COLOR_BLACK: SysColor = 1;
/// Firmware code of XOR drawing.
pub const COLOR_XOR: SysColor = 2;

/// Canvas color.
#[derive(Copy, Clone, Debug, Eq, PartialEq, Structural, Hash, Ord, PartialOrd)]
pub enum Color {
    White,
    Black,
    Xor,
}

/// Firmware code of `c`.
pub open spec fn color_code(c: Color) -> SysColor {
    match c {
        Color::White => COLOR_WHITE,
        Color::Black => COLOR_BLACK,
        Color::Xor => COLOR_XOR,
    }
}

/// Color of the firmware code `value`, or the error naming the code.
pub open spec fn color_of_code(value: SysColor) -> Result<Color, FromSysColorError> {
    if value == COLOR_WHITE {
        Ok(Color::White)
    } else if value == COLOR_BLACK {
        Ok(Color::Black)
    } else if value == COLOR_XOR {
        Ok(Color::Xor)
    } else {
        Err(FromSysColorError::Invalid(value))
    }
}

impl TryFrom<SysColor> for Color {
    type Error = FromSysColorError;

    fn try_from(value: SysColor) -> (r: Result<Self, Self::Error>) {
        if value == COLOR_WHITE {
            Ok(Color::White)
        } else if value == COLOR_BLACK {
            Ok(Color::Black)
        } else if value == COLOR_XOR {
            Ok(Color::Xor)
        } else {
            Err(FromSysColorError::Invalid(value))
        }
    }
}

impl TryFromSpecImpl<SysColor> for Color {
    open spec fn obeys_try_from_spec() -> bool {
        true
    }

    open spec fn try_from_spec(value: SysColor) -> Result<Self, Self::Error> {
        color_of_code(value)
    }
}

impl From<Color> for SysColor {
    fn from(value: Color) -> (r: Self) {
        match value {
            Color::White => COLOR_WHITE,
            Color::Black => COLOR_BLACK,
            Color::Xor => COLOR_XOR,
        }
    }
}

impl FromSpecImpl<Color> for SysColor {
    open spec fn obeys_from_spec() -> bool {
        true
    }

    open spec fn from_spec(value: Color) -> Self {
        color_code(value)
    }
}

/// Error of converting a firmware color code.
#[non_exhaustive]
#[derive(Copy, Clone, Debug, Eq, PartialEq, Structural, Hash, Ord, PartialOrd)]
pub enum FromSysColorError {
    /// The code names no color.
    Invalid(SysColor),
}

/// A color survives the trip to its firmware code and back, and a code that
/// names a color survives the trip to the color and back.
pub proof fn lemma_color_round_trip(c: Color, value: SysColor)
    ensures
        color_of_code(color_code(c)) == Ok::<Color, FromSysColorError>(c),
        color_of_code(value) matches Ok(d) ==> color_code(d) == value,
        (color_of_code(value) is Err) == (value > COLOR_XOR),
{
}

/// Decimal digits of `n`, most significant first.
pub open spec fn decimal(n: nat) -> Seq<char>
    decreases n,
{
    if n < 10 {
        seq![digit_char(n)]
    } else {
        decimal(n / 10).push(digit_char(n % 10))
    }
}

/// The character of the decimal digit `d`.
pub open spec fn digit_char(d: nat) -> char {
    ((d + 48) as u8) as char
}

/// Appends the decimal digits of `n`.
fn push_decimal(string: &mut String, n: u8)
    ensures
        final(string)@ == old(string)@ + decimal(n as nat),
{
    if n >= 100 {
        push_char(string, ((n / 100) + 48) as char);
    }
    if n >= 10 {
        push_char(string, ((n / 10) % 10 + 48) as char);
    }
    push_char(string, (n % 10 + 48) as char);
    proof {
        reveal_with_fuel(decimal, 3);
        if n >= 100 {
            assert(decimal(n as nat / 10) == decimal(n as nat / 100).push(digit_char((n as nat / 10) % 10)));
        }
    }
}

impl FromSysColorError {
    /// Message of the error: `color ID <code> is invalid`.
    pub fn to_string(&self) -> (s: String)
        ensures
            s@ == "color ID "@ + decimal(self->Invalid_0 as nat) + " is invalid"@,
    {
        let FromSysColorError::Invalid(id) = self;
        let mut s = String::from_str("color ID ");
        push_decimal(&mut s, *id);
        s.append(" is invalid");
        s
    }
}

} // verus!
