//! What the derivation reads of a struct: its name, its generics, its
//! attributes and those of its fields.

use vstd::prelude::*;

verus! {

/// What follows the key of one entry in an attribute's list.
#[derive(Debug, Clone, PartialEq, Eq)]
pub enum MetaArg {
    /// Nothing, as in `skip`.
    Absent,
    /// An equals sign and a string literal, as in `strategy = "a::b"`. Holds
    /// the value of the literal, without the quotes.
    Literal(String),
    /// An equals sign and anything else, as in `strategy = a::b`. Holds the
    /// source text of what follows the equals sign.
    Tokens(String),
    /// Anything else behind the key, as in `skip(now)`. Holds the source text
    /// of what stands between the key and the next comma.
    Other(String),
}

/// One entry in an attribute's list: `key`, `key = value` or `key(..)`.
#[derive(Debug, Clone, PartialEq, Eq)]
pub struct MetaItem {
    /// The key. A key of several segments is held with its `::`.
    pub key: String,
    pub arg: MetaArg,
}

/// What follows the name of an attribute.
#[derive(Debug, Clone, PartialEq, Eq)]
pub enum AttrBody {
    /// Nothing, as in `#[merge]`.
    Bare,
    /// An equals sign and a value, as in `#[merge = "skip"]`.
    Value,
    /// A list, as in `#[merge(skip)]`, with its entries in their order.
    List(Vec<MetaItem>),
    /// A list that stops short, as in `#[merge(skip, "what")]`: where an
    /// entry should begin, no key stands. Holds the entries before that place,
    /// in their order.
    Broken(Vec<MetaItem>),
}

/// One attribute on a struct or on a field.
#[derive(Debug, Clone, PartialEq, Eq)]
pub struct Attribute {
    /// The name. A name of several segments is held with its `::`.
    pub name: String,
    pub body: AttrBody,
}

/// One field of a struct.
#[derive(Debug, Clone, PartialEq, Eq)]
pub struct FieldInput {
    /// The name of the field; `None` in a tuple struct.
    pub ident: Option<String>,
    /// The attributes of the field, in their order.
    pub attrs: Vec<Attribute>,
}

/// What kind of item the derivation was put on.
#[derive(Debug, Clone, PartialEq, Eq)]
pub enum Data {
    /// A struct, with its fields in the order of declaration.
    Struct(Vec<FieldInput>),
    Enum,
    Union,
}

/// The item that the derivation was put on.
#[derive(Debug, Clone, PartialEq, Eq)]
pub struct DeriveInput {
    /// The name of the type.
    pub ident: String,
    /// The generics as they stand behind `impl`, with their bounds: `<T: Ord>`.
    /// Empty where the type has none.
    pub impl_generics: String,
    /// The generics as they stand behind the name of the type: `<T>`.
    pub ty_generics: String,
    /// The `where` clause of the type, with the word `where`. Empty where the
    /// type has none.
    pub where_clause: String,
    /// The attributes of the type, in their order.
    pub attrs: Vec<Attribute>,
    pub data: Data,
}

/// How the body of `merge` reaches a field: by its name, or by its position
/// in a tuple struct.
#[derive(Debug, Clone, PartialEq, Eq)]
pub enum Member {
    Named(String),
    Unnamed(usize),
}

/// A [`Member`], with its name as text.
pub ghost enum MemberView {
    Named(Seq<char>),
    Unnamed(nat),
}

impl View for Member {
    type V = MemberView;

    open spec fn view(&self) -> MemberView {
        match self {
            Member::Named(name) => MemberView::Named(name@),
            Member::Unnamed(idx) => MemberView::Unnamed(*idx as nat),
        }
    }
}

impl MemberView {
    /// The member that stands for the field at position `idx`: its name if
    /// it has one, else its position.
    pub open spec fn of(idx: nat, ident: Option<String>) -> MemberView {
        match ident {
            Some(name) => MemberView::Named(name@),
            None => MemberView::Unnamed(idx),
        }
    }
}

impl Member {

    /// The member that stands for the field at position `idx`: its name if
    /// it has one, else its position.
    pub fn from_field(idx: usize, ident: &Option<String>) -> (member: Member)
        ensures
            member@ == MemberView::of(idx as nat, *ident),
    {
        match ident {
            Some(name) => Member::Named(name.clone()),
            None => Member::Unnamed(idx),
        }
    }
}

/// Whether two texts are the same, character by character.
pub fn same_text(left: &str, right: &str) -> (same: bool)
    ensures
        same == (left@ == right@),
{
    left.to_owned() == right.to_owned()
}

} // verus!
