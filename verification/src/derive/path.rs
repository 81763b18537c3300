//! Paths in attribute values: `strategy = a::b` and `crate = ::my::config`.

use crate::derive::error::ErrorKind;
use crate::derive::input::MetaArg;
use vstd::prelude::*;

verus! {

/// The path of a function or of a crate, as source text.
#[derive(Debug, Clone, PartialEq, Eq)]
pub struct Path(pub String);

impl View for Path {
    type V = Seq<char>;

    open spec fn view(&self) -> Seq<char> {
        self.0@
    }
}

/// A result, with what it holds on success seen through its view.
pub open spec fn viewed<T: View, E>(res: Result<T, E>) -> Result<T::V, E> {
    match res {
        Ok(value) => Ok(value@),
        Err(error) => Err(error),
    }
}

/// `syn::parse_str::<syn::ExprPath>`, asked only whether it accepts `text` as
/// a path expression, such as `std::mem::replace`. Nothing is claimed of the
/// answer: which lexer reads the text depends on where the call is made.
#[verifier::external_body]
fn parses_as_path(text: &str) -> (accepted: bool) {
    syn::parse_str::<syn::ExprPath>(text).is_ok()
}

impl Path {
    /// The text of `arg` that has to be a path.
    pub open spec fn candidate(arg: MetaArg) -> Seq<char> {
        match arg {
            MetaArg::Literal(text) => text@,
            MetaArg::Tokens(text) => text@,
            _ => Seq::empty(),
        }
    }

    /// What reading `arg` as a path gives, where `well_formed` says whether
    /// its text is one.
    pub open spec fn read(arg: MetaArg, well_formed: bool) -> Result<Seq<char>, ErrorKind> {
        match arg {
            MetaArg::Absent => Err(ErrorKind::ExpectedValue),
            MetaArg::Other(_) => Err(ErrorKind::ExpectedValue),
            MetaArg::Tokens(text) => if well_formed {
                Ok(text@)
            } else {
                Err(ErrorKind::ExpectedPath)
            },
            MetaArg::Literal(text) => if well_formed {
                Ok(text@)
            } else {
                Err(ErrorKind::InvalidPath)
            },
        }
    }

    /// The text of `arg` that has to be a path, if `arg` holds one.
    pub fn handed_over(arg: &MetaArg) -> (text: Option<&String>)
        ensures
            text is Some == (arg is Literal || arg is Tokens),
            text matches Some(held) ==> held@ == Path::candidate(*arg),
    {
        match arg {
            MetaArg::Literal(text) => Some(text),
            MetaArg::Tokens(text) => Some(text),
            _ => None,
        }
    }

    /// Reads `arg` as a path, given whether its text is one: a value that
    /// stands directly behind the equals sign or in a string literal is taken
    /// if it is a path, and anything else is turned down.
    pub fn checked(arg: &MetaArg, well_formed: bool) -> (res: Result<Path, ErrorKind>)
        ensures
            viewed(res) == Path::read(*arg, well_formed),
    {
        match arg {
            MetaArg::Absent => Err(ErrorKind::ExpectedValue),
            MetaArg::Other(_) => Err(ErrorKind::ExpectedValue),
            MetaArg::Tokens(text) => if well_formed {
                Ok(Path(text.clone()))
            } else {
                Err(ErrorKind::ExpectedPath)
            },
            MetaArg::Literal(text) => if well_formed {
                Ok(Path(text.clone()))
            } else {
                Err(ErrorKind::InvalidPath)
            },
        }
    }

    /// Reads `arg` as a path. The text that `arg` holds is shown to the
    /// parser of path expressions, and taken if the parser accepts it; where
    /// `arg` holds no text, the parser is not asked.
    pub fn parse(arg: &MetaArg) -> (res: Result<Path, ErrorKind>)
        ensures
            exists|accepted: bool| viewed(res) == #[trigger] Path::read(*arg, accepted),
            !(arg is Literal || arg is Tokens) ==> res == Err::<Path, ErrorKind>(
                ErrorKind::ExpectedValue,
            ),
            res matches Ok(path) ==> path@ == Path::candidate(*arg),
            res matches Err(kind) ==> kind == Path::read(*arg, false)->Err_0,
    {
        let accepted = match Path::handed_over(arg) {
            Some(text) => parses_as_path(text.as_str()),
            None => false,
        };
        let res = Path::checked(arg, accepted);
        assert(viewed(res) == Path::read(*arg, accepted));
        res
    }
}

} // verus!
