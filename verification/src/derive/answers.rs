//! The answers of the parser of path expressions.
//!
//! Whether a text is a path is asked of a parser outside this library, once
//! for every value that has to be one. What the derivation gives is stated
//! over the answers as they came: each entry of a list has its place among
//! the answers, and the answer at the place of an entry that was not asked
//! about plays no part.

use crate::derive::input::{AttrBody, Attribute, MetaItem};
use vstd::prelude::*;

verus! {

/// The answer for the entry at place `at` of a list; "no" where none was
/// given.
pub open spec fn answer_at(answers: Seq<bool>, at: int) -> bool {
    if 0 <= at < answers.len() {
        answers[at]
    } else {
        false
    }
}

/// The answers for what stands at place `at`: for the list of the attribute
/// at that place, or for the attributes of the field at that place. None
/// where none were given.
pub open spec fn answers_at<A>(answers: Seq<Seq<A>>, at: int) -> Seq<A> {
    if 0 <= at < answers.len() {
        answers[at]
    } else {
        Seq::empty()
    }
}

/// Whether the entry gives `key` a value that has to be a path.
pub open spec fn item_names_path(item: MetaItem, key: Seq<char>) -> bool {
    item.key@ == key && (item.arg is Literal || item.arg is Tokens)
}

/// Whether an entry of the list gives `key` a value that has to be a path.
pub open spec fn items_name_path(items: Seq<MetaItem>, key: Seq<char>) -> bool {
    exists|at: int| 0 <= at < items.len() && #[trigger] item_names_path(items[at], key)
}

/// Whether the attribute is a `merge` attribute that gives `key` a value
/// that has to be a path.
pub open spec fn attr_names_path(attr: Attribute, key: Seq<char>) -> bool {
    attr.name@ == "merge"@ && match attr.body {
        AttrBody::List(items) => items_name_path(items@, key),
        AttrBody::Broken(items) => items_name_path(items@, key),
        _ => false,
    }
}

/// Whether one of the attributes is a `merge` attribute that gives `key` a
/// value that has to be a path. Where none does, the parser is not asked.
pub open spec fn attrs_name_path(attrs: Seq<Attribute>, key: Seq<char>) -> bool {
    exists|at: int| 0 <= at < attrs.len() && #[trigger] attr_names_path(attrs[at], key)
}

} // verus!
