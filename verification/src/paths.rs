//! Path arithmetic, delegated to `camino`.
//!
//! The model keeps paths as plain UTF-8 strings.  What it means to adjoin
//! one path to another, or to drop a path's final component, is platform
//! lore that `camino` (over `std::path`) owns; the two operations are named
//! here and called through trusted wrappers, and every contract that speaks
//! of joined paths speaks of these names.  The names denote the operations
//! as they behave on the platform the crate is built for, which is fixed
//! for any one build.
use vstd::prelude::*;

verus! {

/// The characters of `base` with `tail` adjoined, as `camino::Utf8Path::join`
/// produces them.
pub uninterp spec fn joined_path(base: Seq<char>, tail: Seq<char>) -> Seq<char>;

/// The characters of `p` without its final component, as
/// `camino::Utf8Path::parent` produces them; `None` where `p` is a root or
/// empty.
pub uninterp spec fn parent_path(p: Seq<char>) -> Option<Seq<char>>;

/// Relies on `camino::Utf8Path::join`: adjoining a path to another depends
/// on the two strings alone.
#[verifier::external_body]
pub fn path_join(base: &str, tail: &str) -> (r: String)
    ensures
        r@ == joined_path(base@, tail@),
{
    camino::Utf8Path::new(base).join(tail).into_string()
}

/// Relies on `camino::Utf8Path::parent`: the parent, if any, depends on the
/// string alone.
#[verifier::external_body]
pub fn path_parent(p: &str) -> (r: Option<String>)
    ensures
        match r {
            Some(s) => parent_path(p@) == Some(s@),
            None => parent_path(p@) is None,
        },
{
    camino::Utf8Path::new(p).parent().map(|q| q.as_str().to_string())
}

} // verus!
