//! Values of the built-in types from the text of an environment variable.
//!
//! Each is read as `str::parse` of the standard library reads it.

use crate::env::TryFromEnvValue;
use core::char::ParseCharError;
use core::num::ParseIntError;
use core::str::ParseBoolError;
use vstd::prelude::*;

verus! {

/// `core::str::ParseBoolError`, carried through as it is.
#[verifier::external_type_specification]
#[verifier::external_body]
pub struct ExParseBoolError(core::str::ParseBoolError);

/// `core::char::ParseCharError`, carried through as it is.
#[verifier::external_type_specification]
#[verifier::external_body]
pub struct ExParseCharError(core::char::ParseCharError);

/// `core::num::ParseIntError`, carried through as it is.
#[verifier::external_type_specification]
#[verifier::external_body]
pub struct ExParseIntError(core::num::ParseIntError);

/// `str::parse::<bool>`: the only texts that are taken are `true` and
/// `false`.
#[verifier::external_body]
fn parse_bool(text: &str) -> (res: Result<bool, ParseBoolError>)
    ensures
        match res {
            Ok(flag) => text@ == if flag {
                "true"@
            } else {
                "false"@
            },
            Err(_) => text@ != "true"@ && text@ != "false"@,
        },
{
    text.parse()
}

impl TryFromEnvValue for bool {
    type Error = ParseBoolError;

    open spec fn parsed(value: Seq<char>, res: Result<Self, Self::Error>) -> bool {
        match res {
            Ok(flag) => value == if flag {
                "true"@
            } else {
                "false"@
            },
            Err(_) => value != "true"@ && value != "false"@,
        }
    }

    fn try_from_env_value(value: String) -> (res: Result<Self, Self::Error>) {
        parse_bool(value.as_str())
    }
}

/// The character that `text` is read as: what `str::parse::<char>` gives,
/// `None` where it gives an error.
pub uninterp spec fn char_of(text: Seq<char>) -> Option<char>;

/// `str::parse::<char>`.
#[verifier::external_body]
fn parse_char(text: &str) -> (res: Result<char, ParseCharError>)
    ensures
        match res {
            Ok(character) => char_of(text@) == Some(character),
            Err(_) => char_of(text@) is None,
        },
{
    text.parse()
}

impl TryFromEnvValue for char {
    type Error = ParseCharError;

    open spec fn parsed(value: Seq<char>, res: Result<Self, Self::Error>) -> bool {
        match res {
            Ok(character) => char_of(value) == Some(character),
            Err(_) => char_of(value) is None,
        }
    }

    fn try_from_env_value(value: String) -> (res: Result<Self, Self::Error>) {
        parse_char(value.as_str())
    }
}

/// The number that `text` is read as: what `str::parse::<u8>` gives, `None`
/// where it gives an error.
pub uninterp spec fn number_u8(text: Seq<char>) -> Option<u8>;

/// `str::parse::<u8>`.
#[verifier::external_body]
fn parse_u8(text: &str) -> (res: Result<u8, ParseIntError>)
    ensures
        match res {
            Ok(number) => number_u8(text@) == Some(number),
            Err(_) => number_u8(text@) is None,
        },
{
    text.parse()
}

impl TryFromEnvValue for u8 {
    type Error = ParseIntError;

    open spec fn parsed(value: Seq<char>, res: Result<Self, Self::Error>) -> bool {
        match res {
            Ok(number) => number_u8(value) == Some(number),
            Err(_) => number_u8(value) is None,
        }
    }

    fn try_from_env_value(value: String) -> (res: Result<Self, Self::Error>) {
        parse_u8(value.as_str())
    }
}

/// The number that `text` is read as: what `str::parse::<u16>` gives, `None`
/// where it gives an error.
pub uninterp spec fn number_u16(text: Seq<char>) -> Option<u16>;

/// `str::parse::<u16>`.
#[verifier::external_body]
fn parse_u16(text: &str) -> (res: Result<u16, ParseIntError>)
    ensures
        match res {
            Ok(number) => number_u16(text@) == Some(number),
            Err(_) => number_u16(text@) is None,
        },
{
    text.parse()
}

impl TryFromEnvValue for u16 {
    type Error = ParseIntError;

    open spec fn parsed(value: Seq<char>, res: Result<Self, Self::Error>) -> bool {
        match res {
            Ok(number) => number_u16(value) == Some(number),
            Err(_) => number_u16(value) is None,
        }
    }

    fn try_from_env_value(value: String) -> (res: Result<Self, Self::Error>) {
        parse_u16(value.as_str())
    }
}

/// The number that `text` is read as: what `str::parse::<u32>` gives, `None`
/// where it gives an error.
pub uninterp spec fn number_u32(text: Seq<char>) -> Option<u32>;

/// `str::parse::<u32>`.
#[verifier::external_body]
fn parse_u32(text: &str) -> (res: Result<u32, ParseIntError>)
    ensures
        match res {
            Ok(number) => number_u32(text@) == Some(number),
            Err(_) => number_u32(text@) is None,
        },
{
    text.parse()
}

impl TryFromEnvValue for u32 {
    type Error = ParseIntError;

    open spec fn parsed(value: Seq<char>, res: Result<Self, Self::Error>) -> bool {
        match res {
            Ok(number) => number_u32(value) == Some(number),
            Err(_) => number_u32(value) is None,
        }
    }

    fn try_from_env_value(value: String) -> (res: Result<Self, Self::Error>) {
        parse_u32(value.as_str())
    }
}

/// The number that `text` is read as: what `str::parse::<u64>` gives, `None`
/// where it gives an error.
pub uninterp spec fn number_u64(text: Seq<char>) -> Option<u64>;

/// `str::parse::<u64>`.
#[verifier::external_body]
fn parse_u64(text: &str) -> (res: Result<u64, ParseIntError>)
    ensures
        match res {
            Ok(number) => number_u64(text@) == Some(number),
            Err(_) => number_u64(text@) is None,
        },
{
    text.parse()
}

impl TryFromEnvValue for u64 {
    type Error = ParseIntError;

    open spec fn parsed(value: Seq<char>, res: Result<Self, Self::Error>) -> bool {
        match res {
            Ok(number) => number_u64(value) == Some(number),
            Err(_) => number_u64(value) is None,
        }
    }

    fn try_from_env_value(value: String) -> (res: Result<Self, Self::Error>) {
        parse_u64(value.as_str())
    }
}

/// The number that `text` is read as: what `str::parse::<u128>` gives, `None`
/// where it gives an error.
pub uninterp spec fn number_u128(text: Seq<char>) -> Option<u128>;

/// `str::parse::<u128>`.
#[verifier::external_body]
fn parse_u128(text: &str) -> (res: Result<u128, ParseIntError>)
    ensures
        match res {
            Ok(number) => number_u128(text@) == Some(number),
            Err(_) => number_u128(text@) is None,
        },
{
    text.parse()
}

impl TryFromEnvValue for u128 {
    type Error = ParseIntError;

    open spec fn parsed(value: Seq<char>, res: Result<Self, Self::Error>) -> bool {
        match res {
            Ok(number) => number_u128(value) == Some(number),
            Err(_) => number_u128(value) is None,
        }
    }

    fn try_from_env_value(value: String) -> (res: Result<Self, Self::Error>) {
        parse_u128(value.as_str())
    }
}

/// The number that `text` is read as: what `str::parse::<usize>` gives, `None`
/// where it gives an error.
pub uninterp spec fn number_usize(text: Seq<char>) -> Option<usize>;

/// `str::parse::<usize>`.
#[verifier::external_body]
fn parse_usize(text: &str) -> (res: Result<usize, ParseIntError>)
    ensures
        match res {
            Ok(number) => number_usize(text@) == Some(number),
            Err(_) => number_usize(text@) is None,
        },
{
    text.parse()
}

impl TryFromEnvValue for usize {
    type Error = ParseIntError;

    open spec fn parsed(value: Seq<char>, res: Result<Self, Self::Error>) -> bool {
        match res {
            Ok(number) => number_usize(value) == Some(number),
            Err(_) => number_usize(value) is None,
        }
    }

    fn try_from_env_value(value: String) -> (res: Result<Self, Self::Error>) {
        parse_usize(value.as_str())
    }
}

/// The number that `text` is read as: what `str::parse::<i8>` gives, `None`
/// where it gives an error.
pub uninterp spec fn number_i8(text: Seq<char>) -> Option<i8>;

/// `str::parse::<i8>`.
#[verifier::external_body]
fn parse_i8(text: &str) -> (res: Result<i8, ParseIntError>)
    ensures
        match res {
            Ok(number) => number_i8(text@) == Some(number),
            Err(_) => number_i8(text@) is None,
        },
{
    text.parse()
}

impl TryFromEnvValue for i8 {
    type Error = ParseIntError;

    open spec fn parsed(value: Seq<char>, res: Result<Self, Self::Error>) -> bool {
        match res {
            Ok(number) => number_i8(value) == Some(number),
            Err(_) => number_i8(value) is None,
        }
    }

    fn try_from_env_value(value: String) -> (res: Result<Self, Self::Error>) {
        parse_i8(value.as_str())
    }
}

/// The number that `text` is read as: what `str::parse::<i16>` gives, `None`
/// where it gives an error.
pub uninterp spec fn number_i16(text: Seq<char>) -> Option<i16>;

/// `str::parse::<i16>`.
#[verifier::external_body]
fn parse_i16(text: &str) -> (res: Result<i16, ParseIntError>)
    ensures
        match res {
            Ok(number) => number_i16(text@) == Some(number),
            Err(_) => number_i16(text@) is None,
        },
{
    text.parse()
}

impl TryFromEnvValue for i16 {
    type Error = ParseIntError;

    open spec fn parsed(value: Seq<char>, res: Result<Self, Self::Error>) -> bool {
        match res {
            Ok(number) => number_i16(value) == Some(number),
            Err(_) => number_i16(value) is None,
        }
    }

    fn try_from_env_value(value: String) -> (res: Result<Self, Self::Error>) {
        parse_i16(value.as_str())
    }
}

/// The number that `text` is read as: what `str::parse::<i32>` gives, `None`
/// where it gives an error.
pub uninterp spec fn number_i32(text: Seq<char>) -> Option<i32>;

/// `str::parse::<i32>`.
#[verifier::external_body]
fn parse_i32(text: &str) -> (res: Result<i32, ParseIntError>)
    ensures
        match res {
            Ok(number) => number_i32(text@) == Some(number),
            Err(_) => number_i32(text@) is None,
        },
{
    text.parse()
}

impl TryFromEnvValue for i32 {
    type Error = ParseIntError;

    open spec fn parsed(value: Seq<char>, res: Result<Self, Self::Error>) -> bool {
        match res {
            Ok(number) => number_i32(value) == Some(number),
            Err(_) => number_i32(value) is None,
        }
    }

    fn try_from_env_value(value: String) -> (res: Result<Self, Self::Error>) {
        parse_i32(value.as_str())
    }
}

/// The number that `text` is read as: what `str::parse::<i64>` gives, `None`
/// where it gives an error.
pub uninterp spec fn number_i64(text: Seq<char>) -> Option<i64>;

/// `str::parse::<i64>`.
#[verifier::external_body]
fn parse_i64(text: &str) -> (res: Result<i64, ParseIntError>)
    ensures
        match res {
            Ok(number) => number_i64(text@) == Some(number),
            Err(_) => number_i64(text@) is None,
        },
{
    text.parse()
}

impl TryFromEnvValue for i64 {
    type Error = ParseIntError;

    open spec fn parsed(value: Seq<char>, res: Result<Self, Self::Error>) -> bool {
        match res {
            Ok(number) => number_i64(value) == Some(number),
            Err(_) => number_i64(value) is None,
        }
    }

    fn try_from_env_value(value: String) -> (res: Result<Self, Self::Error>) {
        parse_i64(value.as_str())
    }
}

/// The number that `text` is read as: what `str::parse::<i128>` gives, `None`
/// where it gives an error.
pub uninterp spec fn number_i128(text: Seq<char>) -> Option<i128>;

/// `str::parse::<i128>`.
#[verifier::external_body]
fn parse_i128(text: &str) -> (res: Result<i128, ParseIntError>)
    ensures
        match res {
            Ok(number) => number_i128(text@) == Some(number),
            Err(_) => number_i128(text@) is None,
        },
{
    text.parse()
}

impl TryFromEnvValue for i128 {
    type Error = ParseIntError;

    open spec fn parsed(value: Seq<char>, res: Result<Self, Self::Error>) -> bool {
        match res {
            Ok(number) => number_i128(value) == Some(number),
            Err(_) => number_i128(value) is None,
        }
    }

    fn try_from_env_value(value: String) -> (res: Result<Self, Self::Error>) {
        parse_i128(value.as_str())
    }
}

/// The number that `text` is read as: what `str::parse::<isize>` gives, `None`
/// where it gives an error.
pub uninterp spec fn number_isize(text: Seq<char>) -> Option<isize>;

/// `str::parse::<isize>`.
#[verifier::external_body]
fn parse_isize(text: &str) -> (res: Result<isize, ParseIntError>)
    ensures
        match res {
            Ok(number) => number_isize(text@) == Some(number),
            Err(_) => number_isize(text@) is None,
        },
{
    text.parse()
}

impl TryFromEnvValue for isize {
    type Error = ParseIntError;

    open spec fn parsed(value: Seq<char>, res: Result<Self, Self::Error>) -> bool {
        match res {
            Ok(number) => number_isize(value) == Some(number),
            Err(_) => number_isize(value) is None,
        }
    }

    fn try_from_env_value(value: String) -> (res: Result<Self, Self::Error>) {
        parse_isize(value.as_str())
    }
}

} // verus!
