//! Parts of the standard library that the contracts rely on.

use vstd::prelude::*;

use std::path::PathBuf;

verus! {

/// `std::path::PathBuf`, carried through unread.
#[verifier::external_type_specification]
#[verifier::external_body]
pub struct ExPathBuf(PathBuf);

/// `std::io::Error`, carried through unread.
#[verifier::external_type_specification]
#[verifier::external_body]
pub struct ExIoError(std::io::Error);

/// `PathBuf::clone`: the clone is the same path.
pub assume_specification[ <PathBuf as Clone>::clone ](path: &PathBuf) -> (r: PathBuf)
    ensures
        r == *path,
;

/// `String::from` on a string slice: an owned string with the same characters.
pub assume_specification<'a>[ <String as From<&str>>::from ](text: &str) -> (r: String)
    ensures
        r@ == text@,
;

} // verus!
