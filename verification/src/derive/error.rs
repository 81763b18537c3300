//! What can be wrong with the item that `Merge` is derived for.

use vstd::prelude::*;
use vstd::string::StringExecFns;

verus! {

/// What is wrong.
#[derive(Debug, Clone, Copy, PartialEq, Eq)]
pub enum ErrorKind {
    /// The item is an enum.
    Enumeration,
    /// The item is a union.
    Union,
    /// A `merge` attribute has no list: `#[merge]` or `#[merge = ..]`.
    ExpectedList,
    /// In the list of a `merge` attribute, no key stands where an entry
    /// should begin.
    Malformed,
    /// An entry on the struct itself has another key than `crate`.
    OnlyCrate,
    /// A field has `skip` twice.
    DuplicateSkip,
    /// A field has `strategy` twice.
    DuplicateStrategy,
    /// An entry on a field has another key than `skip` or `strategy`.
    UnknownField,
    /// `strategy` or `crate` stands without `= value`.
    ExpectedValue,
    /// `skip` stands with an argument.
    UnexpectedArgument,
    /// The value is neither a path nor a string literal.
    ExpectedPath,
    /// The value is a string literal that does not hold a path.
    InvalidPath,
}

/// What is wrong, and where.
#[derive(Debug, Clone, Copy, PartialEq, Eq)]
pub struct Error {
    pub kind: ErrorKind,
    /// The position of the field whose attributes are at fault; `None` where
    /// the fault lies with the item itself or with its own attributes.
    pub field: Option<usize>,
}

impl ErrorKind {
    /// The message for the user, as text.
    pub open spec fn text(self) -> Seq<char> {
        match self {
            ErrorKind::Enumeration => "merge trait for enumerations are not supported"@,
            ErrorKind::Union => "merge trait for unions will never be supported"@,
            ErrorKind::ExpectedList => "expected attribute arguments in parentheses: #[merge(...)]"@,
            ErrorKind::Malformed => "unexpected token in nested attribute, expected ident"@,
            ErrorKind::OnlyCrate => "only `crate = <path>` is supported"@,
            ErrorKind::DuplicateSkip => "field already has `#[merge(skip)]`"@,
            ErrorKind::DuplicateStrategy => "field already has `#[merge(strategy)]`"@,
            ErrorKind::UnknownField => "unknown field, expected either `skip`, `strategy`"@,
            ErrorKind::ExpectedValue => "expected `=`"@,
            ErrorKind::UnexpectedArgument => "expected `,`"@,
            ErrorKind::ExpectedPath => "expected either a qualified path (i.e, `std::mem::replace`) or a literal string that can be a qualified path"@,
            ErrorKind::InvalidPath => "expected the literal string to hold a qualified path (i.e, `std::mem::replace`)"@,
        }
    }

    /// The message for the user.
    pub fn message(&self) -> (text: String)
        ensures
            text@ == self.text(),
    {
        let text = match self {
            ErrorKind::Enumeration => "merge trait for enumerations are not supported",
            ErrorKind::Union => "merge trait for unions will never be supported",
            ErrorKind::ExpectedList => "expected attribute arguments in parentheses: #[merge(...)]",
            ErrorKind::Malformed => "unexpected token in nested attribute, expected ident",
            ErrorKind::OnlyCrate => "only `crate = <path>` is supported",
            ErrorKind::DuplicateSkip => "field already has `#[merge(skip)]`",
            ErrorKind::DuplicateStrategy => "field already has `#[merge(strategy)]`",
            ErrorKind::UnknownField => "unknown field, expected either `skip`, `strategy`",
            ErrorKind::ExpectedValue => "expected `=`",
            ErrorKind::UnexpectedArgument => "expected `,`",
            ErrorKind::ExpectedPath => "expected either a qualified path (i.e, `std::mem::replace`) or a literal string that can be a qualified path",
            ErrorKind::InvalidPath => "expected the literal string to hold a qualified path (i.e, `std::mem::replace`)",
        };
        String::from_str(text)
    }
}

impl Error {
    /// The message for the user.
    pub fn message(&self) -> (text: String)
        ensures
            text@ == self.kind.text(),
    {
        self.kind.message()
    }
}

} // verus!
