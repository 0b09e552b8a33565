//! File-system path text. The rules stated here are those on which Unix and
//! Windows agree; nothing in this module touches the disk.
use vstd::prelude::*;

use crate::text::text_option;

verus! {

/// Whether a character separates components on some platform.
pub open spec fn is_separator(c: char) -> bool {
    c == '/' || c == '\\'
}

/// Whether a path starts as a network share or another namespace does, which
/// can be taken literally.
pub open spec fn starts_namespace(path: Seq<char>) -> bool {
    path.len() >= 2 && is_separator(path[0]) && is_separator(path[1])
}

/// Whether a path starts as a drive does.
pub open spec fn starts_drive(path: Seq<char>) -> bool {
    path.len() >= 2 && path[1] == ':'
}

/// A path without the separators and the single dots behind its last component.
pub open spec fn stripped(path: Seq<char>) -> Seq<char>
    decreases path.len(),
{
    if path.len() > 0 && path.last() == '/' {
        stripped(path.drop_last())
    } else if path.len() >= 2 && path.last() == '.' && path[path.len() - 2] == '/' {
        stripped(path.drop_last())
    } else {
        path
    }
}

/// What follows the last `/` of a path, or all of it.
pub open spec fn last_part(path: Seq<char>) -> Seq<char>
    decreases path.len(),
{
    if path.len() == 0 || path.last() == '/' {
        Seq::empty()
    } else {
        last_part(path.drop_last()).push(path.last())
    }
}

/// The final component of a path that separates its components by `/`; neither
/// a dot nor a step to the parent is one.
pub open spec fn final_name(path: Seq<char>) -> Option<Seq<char>> {
    let last = last_part(stripped(path));
    if last.len() == 0 || last == seq!['.'] || last == seq!['.', '.'] {
        None
    } else {
        Some(last)
    }
}

/// Whether every platform finds the same final component in a path: it holds no
/// `\`, starts no namespace, and is more than what could be a drive.
pub open spec fn reads_alike(path: Seq<char>) -> bool {
    &&& !path.contains('\\')
    &&& !starts_namespace(path)
    &&& starts_drive(stripped(path)) ==> stripped(path).contains('/')
}

/// What the final component of `path` can be. Where platforms read a path
/// differently, it is still never empty, and never goes beyond a `/`.
pub open spec fn is_file_name(path: Seq<char>, name: Option<Seq<char>>) -> bool {
    &&& reads_alike(path) ==> name == final_name(path)
    &&& name matches Some(text) ==> text.len() > 0 && (!starts_namespace(path)
        ==> !text.contains('/'))
}

/// What `name` can be as the final component of `path`, absence read as the
/// empty text.
pub open spec fn is_final_component(path: Seq<char>, name: Seq<char>) -> bool {
    is_file_name(
        path,
        if name.len() == 0 {
            None
        } else {
            Some(name)
        },
    )
}

/// `std::path::Path::file_name`, as text. It yields the last component of a
/// path that is a name: separators and single dots behind it are normalized
/// away, and a path that is empty, is the root or ends in `..` has none. A name
/// is never empty and, but for paths that start with two separators and can be
/// taken literally, holds no `/`. Which one it is where a path holds a `\` or
/// could be a drive follows the platform and is not stated.
#[verifier::external_body]
pub(crate) fn path_file_name(path: &str) -> (r: Option<String>)
    ensures
        is_file_name(path@, text_option(r)),
{
    std::path::Path::new(path).file_name().map(|name| name.to_string_lossy().into_owned())
}

/// Whether a name is relative on every platform: it starts neither at a root nor
/// as a drive.
pub open spec fn is_relative_name(name: Seq<char>) -> bool {
    name.len() > 0 && !is_separator(name[0]) && !starts_drive(name)
}

/// What joining a relative name onto `dir` can give: the name behind one
/// separator. A `/` at the end of `dir` is one on every platform; a `\` is one
/// on some, and a `:` can end a drive, behind which none is put.
pub open spec fn is_joined_path(dir: Seq<char>, name: Seq<char>, path: Seq<char>) -> bool {
    is_relative_name(name) && !starts_namespace(dir) ==> {
        let bare = path == dir + name;
        let slash = path == dir + seq!['/'] + name;
        let backslash = path == dir + seq!['\\'] + name;
        if dir.len() == 0 {
            path == name
        } else if dir.last() == '/' {
            bare
        } else if dir.last() == '\\' {
            bare || slash
        } else if dir.last() == ':' {
            bare || slash || backslash
        } else {
            slash || backslash
        }
    }
}

/// `std::path::Path::join`, as text. Joining a relative name appends it behind
/// one separator, the platform's own where `dir` does not end in one already.
/// For names that are empty, rooted or start as a drive, and for directories
/// that start with two separators, which can be taken literally, nothing is
/// stated.
#[verifier::external_body]
pub(crate) fn path_join(dir: &str, name: &str) -> (r: String)
    ensures
        is_joined_path(dir@, name@, r@),
{
    std::path::Path::new(dir).join(name).to_string_lossy().into_owned()
}

/// Whether a path is rooted the way some platform roots its paths: at a
/// separator in front, or at one behind a drive.
pub open spec fn can_be_rooted(path: Seq<char>) -> bool {
    ||| path.len() > 0 && is_separator(path[0])
    ||| path.len() >= 3 && starts_drive(path) && is_separator(path[2])
}

/// Whether a platform can say of a path that it is absolute, or that it is not:
/// an absolute path is rooted. A rooted path is absolute on one platform and
/// need not be on another.
pub open spec fn can_be_absolute(path: Seq<char>, absolute: bool) -> bool {
    absolute ==> can_be_rooted(path)
}

/// `std::path::Path::is_absolute`. On Unix a path is absolute if it starts with
/// the root, on Windows if it has a prefix and starts with the root. Stated is
/// what both have in common.
#[verifier::external_body]
pub(crate) fn path_is_absolute(path: &str) -> (r: bool)
    ensures
        can_be_absolute(path@, r),
{
    std::path::Path::new(path).is_absolute()
}

} // verus!
