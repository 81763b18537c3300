//! Turning the text of an environment variable into a value.
//!
//! Reading the environment is left to the caller: everything here starts from
//! the text that was read.

pub mod collections;
pub mod list;
pub mod primitive;

use std::convert::Infallible;
use vstd::prelude::*;

verus! {

/// A type that can be made from the text of an environment variable, whatever
/// the text is.
pub trait FromEnvValue: Sized {
    /// Relates a text to the value made from it. An implementation that
    /// says nothing promises nothing.
    open spec fn converted(value: Seq<char>, res: Self) -> bool {
        true
    }

    /// Makes the value from the text.
    fn from_env_value(value: String) -> (res: Self)
        ensures
            Self::converted(value@, res),
    ;
}

impl FromEnvValue for String {
    open spec fn converted(value: Seq<char>, res: Self) -> bool {
        res@ == value
    }

    fn from_env_value(value: String) -> (res: Self) {
        value
    }
}

/// Like [`FromEnvValue`], for a type that not every text gives a value of.
pub trait TryFromEnvValue: Sized {
    /// Why a text was turned down.
    type Error;

    /// Relates a text to what became of it: the value, or the reason why
    /// there is none. An implementation that says nothing promises nothing.
    open spec fn parsed(value: Seq<char>, res: Result<Self, Self::Error>) -> bool {
        true
    }

    /// Makes the value from the text, if the text allows it.
    fn try_from_env_value(value: String) -> (res: Result<Self, Self::Error>)
        ensures
            Self::parsed(value@, res),
    ;
}

impl<T: FromEnvValue> TryFromEnvValue for T {
    type Error = Infallible;

    open spec fn parsed(value: Seq<char>, res: Result<Self, Self::Error>) -> bool {
        res matches Ok(v) && T::converted(value, v)
    }

    fn try_from_env_value(value: String) -> (res: Result<Self, Self::Error>) {
        Ok(T::from_env_value(value))
    }
}

/// Why the text of a map was turned down: one of its keys was, or one of its
/// values.
#[derive(Debug)]
pub enum MapTryFromEnvError<K: TryFromEnvValue, V: TryFromEnvValue> {
    Key(K::Error),
    Value(V::Error),
}

/// Why a variable could not be read.
#[derive(Debug, Clone, Copy, PartialEq, Eq)]
pub enum VarError {
    /// The variable is not set.
    NotPresent,
    /// The variable is set to something that is no text.
    NotUnicode,
}

/// Why a variable gave no value: it could not be read, or what was read was
/// turned down.
#[derive(Debug)]
pub enum TryParseError<V: TryFromEnvValue> {
    System(VarError),
    Parse(V::Error),
}

/// Makes a value from what reading a variable gave.
pub fn parse<V: FromEnvValue>(read: Result<String, VarError>) -> (res: Result<V, VarError>)
    ensures
        match read {
            Ok(text) => res matches Ok(value) && V::converted(text@, value),
            Err(error) => res == Err::<V, VarError>(error),
        },
{
    match read {
        Ok(text) => Ok(V::from_env_value(text)),
        Err(error) => Err(error),
    }
}

/// Makes a value from what reading a variable gave, if the text allows it.
pub fn try_parse<V: TryFromEnvValue>(read: Result<String, VarError>) -> (res: Result<
    V,
    TryParseError<V>,
>)
    ensures
        match read {
            Ok(text) => match res {
                Ok(value) => V::parsed(text@, Ok(value)),
                Err(TryParseError::Parse(error)) => V::parsed(text@, Err(error)),
                Err(TryParseError::System(_)) => false,
            },
            Err(error) => res == Err::<V, TryParseError<V>>(TryParseError::System(error)),
        },
{
    match read {
        Ok(text) => match V::try_from_env_value(text) {
            Ok(value) => Ok(value),
            Err(error) => Err(TryParseError::Parse(error)),
        },
        Err(error) => Err(TryParseError::System(error)),
    }
}

/// Like [`try_parse`], but a variable that is not set gives what `default`
/// computes. `default` is not called otherwise.
pub fn try_parse_or<V: TryFromEnvValue, F: FnOnce() -> V>(
    read: Result<String, VarError>,
    default: F,
) -> (res: Result<V, TryParseError<V>>)
    requires
        default.requires(()),
    ensures
        match read {
            Ok(text) => match res {
                Ok(value) => V::parsed(text@, Ok(value)),
                Err(TryParseError::Parse(error)) => V::parsed(text@, Err(error)),
                Err(TryParseError::System(_)) => false,
            },
            Err(VarError::NotPresent) => res matches Ok(value) && default.ensures((), value),
            Err(error) => res == Err::<V, TryParseError<V>>(TryParseError::System(error)),
        },
{
    match try_parse(read) {
        Ok(value) => Ok(value),
        Err(TryParseError::System(VarError::NotPresent)) => Ok(default()),
        Err(error) => Err(error),
    }
}

/// Like [`try_parse`], but a variable that is not set gives `default`.
pub fn try_parse_or_else<V: TryFromEnvValue>(read: Result<String, VarError>, default: V) -> (res:
    Result<V, TryParseError<V>>)
    ensures
        match read {
            Ok(text) => match res {
                Ok(value) => V::parsed(text@, Ok(value)),
                Err(TryParseError::Parse(error)) => V::parsed(text@, Err(error)),
                Err(TryParseError::System(_)) => false,
            },
            Err(VarError::NotPresent) => res == Ok::<V, TryParseError<V>>(default),
            Err(error) => res == Err::<V, TryParseError<V>>(TryParseError::System(error)),
        },
{
    match read {
        Ok(text) => match V::try_from_env_value(text) {
            Ok(value) => Ok(value),
            Err(error) => Err(TryParseError::Parse(error)),
        },
        Err(VarError::NotPresent) => Ok(default),
        Err(error) => Err(TryParseError::System(error)),
    }
}

/// Like [`try_parse`], but a variable that is not set gives `None`.
pub fn try_parse_optional<V: TryFromEnvValue>(read: Result<String, VarError>) -> (res: Result<
    Option<V>,
    TryParseError<V>,
>)
    ensures
        match read {
            Ok(text) => match res {
                Ok(Some(value)) => V::parsed(text@, Ok(value)),
                Ok(None) => false,
                Err(TryParseError::Parse(error)) => V::parsed(text@, Err(error)),
                Err(TryParseError::System(_)) => false,
            },
            Err(VarError::NotPresent) => res == Ok::<Option<V>, TryParseError<V>>(None),
            Err(error) => res == Err::<Option<V>, TryParseError<V>>(TryParseError::System(error)),
        },
{
    match read {
        Ok(text) => match V::try_from_env_value(text) {
            Ok(value) => Ok(Some(value)),
            Err(error) => Err(TryParseError::Parse(error)),
        },
        Err(VarError::NotPresent) => Ok(None),
        Err(error) => Err(TryParseError::System(error)),
    }
}

/// A configuration that is read from the environment as a whole.
pub trait FromEnv: Sized {
    /// Whether `res` is a configuration that reading can give. An
    /// implementation that says nothing promises nothing.
    open spec fn read_as(res: Self) -> bool {
        true
    }

    /// Reads the configuration.
    fn from_env() -> (res: Self)
        ensures
            Self::read_as(res),
    ;
}

/// Like [`FromEnv`], for a configuration whose reading can fail.
pub trait TryFromEnv: Sized {
    /// Why the reading failed.
    type Error;

    /// Whether `res` is what reading can give: a configuration, or the
    /// reason why there is none. An implementation that says nothing promises
    /// nothing.
    open spec fn tried(res: Result<Self, Self::Error>) -> bool {
        true
    }

    /// Reads the configuration.
    fn try_from_env() -> (res: Result<Self, Self::Error>)
        ensures
            Self::tried(res),
    ;
}

/// A configuration whose reading cannot fail is read without fail: trying
/// gives what reading gives, and never an error.
impl<T: FromEnv> TryFromEnv for T {
    type Error = Infallible;

    open spec fn tried(res: Result<Self, Self::Error>) -> bool {
        res matches Ok(value) && T::read_as(value)
    }

    fn try_from_env() -> (res: Result<Self, Self::Error>) {
        Ok(T::from_env())
    }
}

} // verus!
