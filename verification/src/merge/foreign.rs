//! Paths and URLs: the right side replaces the left whenever the two differ.

use crate::merge::Merge;
use std::path::PathBuf;
use url::Url;
use vstd::prelude::*;

verus! {

/// `std::path::PathBuf`, carried through as it is.
#[verifier::external_type_specification]
#[verifier::external_body]
pub struct ExPathBuf(std::path::PathBuf);

/// `url::Url`, carried through as it is.
#[verifier::external_type_specification]
#[verifier::external_body]
pub struct ExUrl(url::Url);

/// The text of a URL: what `Url::as_str` returns.
pub uninterp spec fn url_text(url: Url) -> Seq<char>;

/// What `==` on two paths returns.
pub uninterp spec fn same_path(left: PathBuf, right: PathBuf) -> bool;

/// `==` on `Url`: two URLs are equal when their texts are.
#[verifier::external_body]
fn url_eq(left: &Url, right: &Url) -> (equal: bool)
    ensures
        equal == (url_text(*left) == url_text(*right)),
{
    left == right
}

/// `==` on `PathBuf`, which compares two paths component by component. The
/// outcome depends on the two paths alone; no more is claimed of it.
#[verifier::external_body]
fn path_eq(left: &PathBuf, right: &PathBuf) -> (equal: bool)
    ensures
        equal == same_path(*left, *right),
{
    left == right
}

impl Merge for PathBuf {
    open spec fn merged(pre: Self, other: Self, post: Self) -> bool {
        post == if same_path(pre, other) {
            pre
        } else {
            other
        }
    }

    fn merge(&mut self, other: Self) {
        if !path_eq(self, &other) {
            *self = other;
        }
    }
}

impl Merge for Url {
    open spec fn merged(pre: Self, other: Self, post: Self) -> bool {
        post == if url_text(pre) == url_text(other) {
            pre
        } else {
            other
        }
    }

    fn merge(&mut self, other: Self) {
        if !url_eq(self, &other) {
            *self = other;
        }
    }
}

} // verus!
