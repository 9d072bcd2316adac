use vstd::prelude::*;

use crate::config::Rgb;

verus! {

/// Why a command-line value was refused.
#[derive(Clone, Debug, PartialEq, Eq)]
pub enum ArgError {
    /// The frequency is a number outside 200 to 1000 Hz.
    FrequencyOutOfRange,
    /// The frequency is not a number; `reason` is the parser's account.
    FrequencyUnparsable { reason: String },
    /// The colour is not three values separated by commas.
    ColorFormat,
    /// A colour value is not a number from 0 to 255; `reason` is the
    /// parser's account.
    ColorUnparsable { reason: String },
}

pub open spec fn is_ascii_digit(c: char) -> bool {
    '0' <= c <= '9'
}

/// The value of a string of decimal digits.
pub open spec fn digits_value(s: Seq<char>) -> nat
    decreases s.len(),
{
    if s.len() == 0 {
        0
    } else {
        digits_value(s.drop_last()) * 10 + (s.last() as nat - '0' as nat) as nat
    }
}

/// How std parses an unsigned integer type whose largest value is `max`: an
/// optional `+`, then one or more ASCII digits whose value is at most `max`.
pub open spec fn parse_unsigned(s: Seq<char>, max: nat) -> Option<nat> {
    let d = if s.len() > 0 && s[0] == '+' { s.drop_first() } else { s };
    if d.len() > 0 && (forall|k: int| 0 <= k < d.len() ==> is_ascii_digit(#[trigger] d[k])) && digits_value(d) <= max {
        Some(digits_value(d))
    } else {
        None
    }
}

/// The pieces of `s` between occurrences of `sep`, empty pieces included;
/// an empty string is one empty piece.
pub open spec fn split_on(s: Seq<char>, sep: char) -> Seq<Seq<char>>
    decreases s.len(),
{
    if s.len() == 0 {
        seq![Seq::empty()]
    } else {
        let rest = split_on(s.drop_first(), sep);
        if s[0] == sep {
            seq![Seq::empty()] + rest
        } else {
            rest.update(0, seq![s[0]] + rest[0])
        }
    }
}

/// The colour written `R,G,B`, each value a byte.
pub open spec fn rgb_of(s: Seq<char>) -> Option<(nat, nat, nat)> {
    let parts = split_on(s, ',');
    if parts.len() == 3 && parse_unsigned(parts[0], 255) is Some && parse_unsigned(parts[1], 255) is Some
        && parse_unsigned(parts[2], 255) is Some {
        Some((parse_unsigned(parts[0], 255).unwrap(), parse_unsigned(parts[1], 255).unwrap(),
            parse_unsigned(parts[2], 255).unwrap()))
    } else {
        None
    }
}

/// Relies on `str::parse::<u16>`, which takes an optional `+` and then ASCII
/// decimal digits whose value fits in 16 bits. The error is its message.
#[verifier::external_body]
fn parse_u16(s: &str) -> (r: Result<u16, String>)
    ensures
        match r {
            Ok(v) => parse_unsigned(s@, 0xFFFF) == Some(v as nat),
            Err(_) => parse_unsigned(s@, 0xFFFF) is None,
        },
{
    s.parse::<u16>().map_err(|e| e.to_string())
}

/// Relies on `str::parse::<u8>`, which takes an optional `+` and then ASCII
/// decimal digits whose value fits in 8 bits. The error is its message.
#[verifier::external_body]
fn parse_u8(s: &str) -> (r: Result<u8, String>)
    ensures
        match r {
            Ok(v) => parse_unsigned(s@, 0xFF) == Some(v as nat),
            Err(_) => parse_unsigned(s@, 0xFF) is None,
        },
{
    s.parse::<u8>().map_err(|e| e.to_string())
}

/// Relies on `str::split` with a `char` separator: the pieces between the
/// separators, in order, empty ones included.
#[verifier::external_body]
fn split_commas<'a>(s: &'a str) -> (r: Vec<&'a str>)
    ensures
        r@.len() == split_on(s@, ',').len(),
        forall|k: int| 0 <= k < r@.len() ==> (#[trigger] r@[k])@ == split_on(s@, ',')[k],
{
    s.split(',').collect()
}

/// Reads the emulation frequency, in Hz.
pub fn parse_emu_frequency(freq: &str) -> (r: Result<u32, ArgError>)
    ensures
        match r {
            Ok(f) => parse_unsigned(freq@, 0xFFFF) == Some(f as nat) && 200 <= f <= 1000,
            Err(ArgError::FrequencyOutOfRange) => parse_unsigned(freq@, 0xFFFF) matches Some(f) && !(200
                <= f <= 1000),
            Err(ArgError::FrequencyUnparsable { .. }) => parse_unsigned(freq@, 0xFFFF) is None,
            Err(_) => false,
        },
{
    match parse_u16(freq) {
        Ok(f) => {
            if f < 200 || f > 1000 {
                Err(ArgError::FrequencyOutOfRange)
            } else {
                Ok(f as u32)
            }
        },
        Err(reason) => Err(ArgError::FrequencyUnparsable { reason }),
    }
}

/// Accepts a frequency from 200 to 1000 Hz.
pub fn is_valid_emu_frequency(freq: &str) -> (r: Result<(), ArgError>)
    ensures
        match r {
            Ok(_) => parse_unsigned(freq@, 0xFFFF) matches Some(f) && 200 <= f <= 1000,
            Err(ArgError::FrequencyOutOfRange) => parse_unsigned(freq@, 0xFFFF) matches Some(f) && !(200
                <= f <= 1000),
            Err(ArgError::FrequencyUnparsable { .. }) => parse_unsigned(freq@, 0xFFFF) is None,
            Err(_) => false,
        },
{
    match parse_emu_frequency(freq) {
        Ok(_) => Ok(()),
        Err(e) => Err(e),
    }
}

/// Reads a colour written `R,G,B`.
pub fn parse_rgb(rgb: &str) -> (r: Result<Rgb, ArgError>)
    ensures
        match r {
            Ok(c) => rgb_of(rgb@) == Some((c.r as nat, c.g as nat, c.b as nat)),
            Err(ArgError::ColorFormat) => split_on(rgb@, ',').len() != 3,
            Err(ArgError::ColorUnparsable { .. }) => split_on(rgb@, ',').len() == 3 && rgb_of(rgb@) is None,
            Err(_) => false,
        },
{
    let parts = split_commas(rgb);
    if parts.len() != 3 {
        return Err(ArgError::ColorFormat);
    }
    let r = match parse_u8(parts[0]) {
        Ok(v) => v,
        Err(reason) => return Err(ArgError::ColorUnparsable { reason }),
    };
    let g = match parse_u8(parts[1]) {
        Ok(v) => v,
        Err(reason) => return Err(ArgError::ColorUnparsable { reason }),
    };
    let b = match parse_u8(parts[2]) {
        Ok(v) => v,
        Err(reason) => return Err(ArgError::ColorUnparsable { reason }),
    };
    Ok(Rgb { r, g, b })
}

/// Accepts a colour written `R,G,B`, each value from 0 to 255.
pub fn is_valid_rgb_color(rgb: &str) -> (r: Result<(), ArgError>)
    ensures
        match r {
            Ok(_) => rgb_of(rgb@) is Some,
            Err(ArgError::ColorFormat) => split_on(rgb@, ',').len() != 3,
            Err(ArgError::ColorUnparsable { .. }) => split_on(rgb@, ',').len() == 3 && rgb_of(rgb@) is None,
            Err(_) => false,
        },
{
    match parse_rgb(rgb) {
        Ok(_) => Ok(()),
        Err(e) => Err(e),
    }
}

} // verus!
