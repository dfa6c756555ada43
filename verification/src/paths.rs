//! The parts of a path: file name, directory, stem and extension.

use crate::text::text_view;
use crate::text::chars_of;
use crate::text::find_last;
use crate::text::last_index;
use vstd::prelude::*;

verus! {

/// The name of the final component of a path, as `std::path` reads the path; `None`
/// where the path has none.
pub uninterp spec fn path_file_name(path: Seq<char>) -> Option<Seq<char>>;

/// The name of a path without its final component, as `std::path` reads the path;
/// `None` where nothing is left.
pub uninterp spec fn path_parent(path: Seq<char>) -> Option<Seq<char>>;

/// Calls `Path::file_name` on the path that the string denotes. Trusted: the result
/// depends on the string alone.
#[verifier::external_body]
pub(crate) fn file_name_of(path: &str) -> (name: Option<String>)
    ensures
        text_view(name) == path_file_name(path@),
{
    std::path::Path::new(path).file_name().and_then(|n| n.to_str()).map(|n| n.to_string())
}

/// Calls `Path::parent` on the path that the string denotes. Trusted: the result
/// depends on the string alone.
#[verifier::external_body]
pub(crate) fn parent_of(path: &str) -> (parent: Option<String>)
    ensures
        text_view(parent) == path_parent(path@),
{
    std::path::Path::new(path).parent().and_then(|p| p.to_str()).map(|p| p.to_string())
}

/// The name of a path without a leading base path, as `std::path` reads both; `None`
/// where the path does not begin with the base.
pub uninterp spec fn path_without_prefix(path: Seq<char>, base: Seq<char>) -> Option<Seq<char>>;

/// Calls `Path::strip_prefix` on the paths that the strings denote. Trusted: the result
/// depends on the two strings alone.
#[verifier::external_body]
pub(crate) fn strip_prefix_of(path: &str, base: &str) -> (rest: Option<String>)
    ensures
        text_view(rest) == path_without_prefix(path@, base@),
{
    std::path::Path::new(path).strip_prefix(base).ok().and_then(|p| p.to_str()).map(
        |p| p.to_string(),
    )
}

/// A path as seen from a base: the path without the base where it begins with it, and
/// the whole path otherwise.
pub open spec fn relative_to(path: Seq<char>, base: Seq<char>) -> Seq<char> {
    match path_without_prefix(path, base) {
        Some(rest) => rest,
        None => path,
    }
}

/// A path as seen from a base.
pub fn relative_path(full_path: &str, base_path: &str) -> (relative: String)
    ensures
        relative@ == relative_to(full_path@, base_path@),
{
    match strip_prefix_of(full_path, base_path) {
        Some(rest) => rest,
        None => String::from_str(full_path),
    }
}

/// The file name of a path, or the empty string where it has none.
pub open spec fn file_name_or_empty(path: Seq<char>) -> Seq<char> {
    match path_file_name(path) {
        Some(name) => name,
        None => seq![],
    }
}

/// The directory of a path, or the empty string where it has none.
pub open spec fn parent_or_empty(path: Seq<char>) -> Seq<char> {
    match path_parent(path) {
        Some(parent) => parent,
        None => seq![],
    }
}

/// The file name of a path, or the empty string where it has none.
pub fn file_name(path: &str) -> (name: String)
    ensures
        name@ == file_name_or_empty(path@),
{
    match file_name_of(path) {
        Some(name) => name,
        None => String::new(),
    }
}

/// The directory of a path, or the empty string where it has none.
pub fn parent(path: &str) -> (dir: String)
    ensures
        dir@ == parent_or_empty(path@),
{
    match parent_of(path) {
        Some(dir) => dir,
        None => String::new(),
    }
}

/// The extension of a file name: what follows its last dot, unless the name has no dot
/// or its only dot is its first character.
pub open spec fn name_extension(name: Seq<char>) -> Option<Seq<char>> {
    let dot = last_index(name, '.');
    if dot <= 0 {
        None
    } else {
        Some(name.skip(dot + 1))
    }
}

/// The stem of a file name: what stands before its last dot, or the whole name where
/// it has no extension.
pub open spec fn name_stem(name: Seq<char>) -> Seq<char> {
    let dot = last_index(name, '.');
    if dot <= 0 {
        name
    } else {
        name.take(dot)
    }
}

/// Splits a file name into its stem and its extension.
pub fn split_name(name: &str) -> (parts: (String, Option<String>))
    ensures
        parts.0@ == name_stem(name@),
        text_view(parts.1) == name_extension(name@),
{
    let chars = chars_of(name);
    let len = chars.len();
    match find_last(&chars, '.') {
        Some(dot) => {
            if dot == 0 {
                (String::from_str(name), None)
            } else {
                let stem = String::from_str(name.substring_char(0, dot));
                let extension = String::from_str(name.substring_char(dot + 1, len));
                (stem, Some(extension))
            }
        },
        None => (String::from_str(name), None),
    }
}

} // verus!
