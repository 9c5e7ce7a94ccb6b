//! The key of a file's field: the final component of the file's path.

use crate::error::{SecretError, SecretErrorView};
use crate::text::optional_text;
use vstd::prelude::*;
use vstd::string::*;

verus! {

/// The final component that `std::path::Path::file_name` finds in a path,
/// if it finds one: a function of the path's text alone, fixed by the path
/// syntax of the platform that the library is built for.
pub uninterp spec fn final_component_of(path: Seq<char>) -> Option<Seq<char>>;

/// The key for the file at a path: its final component, if it has one that
/// is not empty.
pub open spec fn key_of(path: Seq<char>) -> Option<Seq<char>> {
    match final_component_of(path) {
        Some(name) => if name.len() > 0 {
            Some(name)
        } else {
            None
        },
        None => None,
    }
}

/// Calls `std::path::Path::file_name` on `path` and hands the name out as
/// text.
///
/// Trusted: the result is what [`final_component_of`] names, and no more is
/// claimed of it. The text of a component of a path that is itself text is
/// handed out unchanged.
#[verifier::external_body]
fn final_component(path: &str) -> (component: Option<String>)
    ensures
        optional_text(component) == final_component_of(path@),
{
    match std::path::Path::new(path).file_name() {
        Some(name) => Some(name.to_string_lossy().into_owned()),
        None => None,
    }
}

/// The key for the file at `path`, given the final component that was
/// found in the path, if any.
///
/// Fails with a [`SecretError::PathError`] that carries the path exactly
/// when there is no component or an empty one; otherwise the key is the
/// component.
pub fn key_from_component(path: &str, component: Option<String>) -> (result: Result<
    String,
    SecretError,
>)
    ensures
        match component {
            Some(name) => if name@.len() > 0 {
                result matches Ok(key) && key@ == name@
            } else {
                result matches Err(e) && e@ == SecretErrorView::PathError(path@)
            },
            None => result matches Err(e) && e@ == SecretErrorView::PathError(path@),
        },
{
    match component {
        Some(name) => {
            if name.as_str().unicode_len() > 0 {
                Ok(name)
            } else {
                Err(SecretError::PathError(String::from_str(path)))
            }
        },
        None => Err(SecretError::PathError(String::from_str(path))),
    }
}

/// The key for the file at `path`: its final component.
///
/// Fails with a [`SecretError::PathError`] that carries the path exactly
/// when the path has no final component, as a root or an empty path has
/// none.
pub fn file_key(path: &str) -> (result: Result<String, SecretError>)
    ensures
        match key_of(path@) {
            Some(name) => result matches Ok(key) && key@ == name,
            None => result matches Err(e) && e@ == SecretErrorView::PathError(path@),
        },
{
    key_from_component(path, final_component(path))
}

} // verus!
