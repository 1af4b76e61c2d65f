//! File system paths, held as text.
//!
//! Paths are kept as `String`s. Joining and taking apart paths goes through
//! `std::path`, whose results are named below (they depend on the texts
//! alone); the facts the library relies on are stated on the joins.
use vstd::prelude::*;
use crate::error::ApvmError;
use crate::text::has_char;

verus! {

/// The text of `Path::new(base).join(part)`. It holds the separator of the
/// platform the library is built for (`/`, or `\\` on Windows), so it is a
/// fixed function of its arguments within one build.
pub uninterp spec fn spec_join(base: Seq<char>, part: Seq<char>) -> Seq<char>;

/// The text of `Path::new(path).parent()`.
pub uninterp spec fn spec_parent(path: Seq<char>) -> Option<Seq<char>>;

/// The text of `Path::new(path).file_name()`.
pub uninterp spec fn spec_file_name(path: Seq<char>) -> Option<Seq<char>>;

/// The position of the last `.` in `name`, if there is one.
pub open spec fn last_dot(name: Seq<char>) -> Option<int>
    decreases name.len(),
{
    if name.len() == 0 {
        None
    } else if name.last() == '.' {
        Some(name.len() - 1)
    } else {
        last_dot(name.drop_last())
    }
}

/// The stem of a file name, as `Path::file_stem` documents it: the part
/// before the last `.`, or the whole name when it holds no `.` or its only
/// `.` is the first character (and `..` itself).
pub open spec fn stem_of(name: Seq<char>) -> Seq<char> {
    if name == ".."@ {
        name
    } else {
        match last_dot(name) {
            Some(i) if i > 0 => name.take(i),
            _ => name,
        }
    }
}

/// The text of `Path::new(path).file_stem()`: the stem of the file name,
/// when there is a file name.
pub open spec fn spec_file_stem(path: Seq<char>) -> Option<Seq<char>> {
    match spec_file_name(path) {
        Some(name) => Some(stem_of(name)),
        None => None,
    }
}

/// A single ordinary path component: not empty, no separator or drive
/// colon, not `.` or `..`.
pub open spec fn is_normal_component(part: Seq<char>) -> bool {
    &&& part.len() > 0
    &&& !has_char(part, '/')
    &&& !has_char(part, '\\')
    &&& !has_char(part, ':')
    &&& part != "."@
    &&& part != ".."@
}

/// `base` with `part` adjoined (calls `Path::join`).
///
/// Beyond naming the result, the contract states what `Path::join`,
/// `Path::file_name` and `Path::parent` document for a single ordinary
/// component: the joined path ends in that component, and its parent ends
/// where `base` ends; and joining the empty text leaves the final component
/// as it was (`Path::join` then only adds a trailing separator, which
/// `file_name` ignores). Nothing else about the text of the result is stated.
#[verifier::external_body]
pub(crate) fn join(base: &str, part: &str) -> (res: String)
    ensures
        res@ == spec_join(base@, part@),
        is_normal_component(part@) ==> spec_file_name(res@) == Some(part@),
        is_normal_component(part@) ==> spec_parent(res@) is Some,
        is_normal_component(part@) ==> spec_file_name(spec_parent(res@).unwrap()) == spec_file_name(base@),
        part@.len() == 0 ==> spec_file_name(res@) == spec_file_name(base@),
{
    std::path::Path::new(base).join(part).to_string_lossy().into_owned()
}

/// The directory that holds `path`, if any (calls `Path::parent`).
#[verifier::external_body]
pub(crate) fn parent(path: &str) -> (res: Option<String>)
    ensures
        match res {
            Some(p) => spec_parent(path@) == Some(p@),
            None => spec_parent(path@) is None,
        },
{
    std::path::Path::new(path).parent().map(|p| p.to_string_lossy().into_owned())
}

/// The final component of `path`, if any (calls `Path::file_name`).
#[verifier::external_body]
pub(crate) fn file_name(path: &str) -> (res: Option<String>)
    ensures
        match res {
            Some(n) => spec_file_name(path@) == Some(n@),
            None => spec_file_name(path@) is None,
        },
{
    std::path::Path::new(path).file_name().map(|n| n.to_string_lossy().into_owned())
}

/// The final component of `path` without its extension, if any (calls
/// `Path::file_stem`). The contract states what std documents: the stem of
/// the file name, as [`stem_of`] takes it.
#[verifier::external_body]
pub(crate) fn file_stem(path: &str) -> (res: Option<String>)
    ensures
        match res {
            Some(n) => spec_file_stem(path@) == Some(n@),
            None => spec_file_stem(path@) is None,
        },
{
    std::path::Path::new(path).file_stem().map(|n| n.to_string_lossy().into_owned())
}

/// Taking paths apart, failing with an error where a part is missing.
pub trait PathExt {
    /// The directory that holds the path.
    fn try_parent(&self) -> Result<String, ApvmError>;

    /// The final component of the path.
    fn try_file_name(&self) -> Result<String, ApvmError>;

    /// The final component of the path without its extension.
    fn try_file_stem(&self) -> Result<String, ApvmError>;

    /// The path as text.
    fn try_to_string(&self) -> Result<String, ApvmError>;
}

impl PathExt for String {
    fn try_parent(&self) -> (res: Result<String, ApvmError>)
        ensures
            match spec_parent(self@) {
                Some(p) => res matches Ok(r) && r@ == p,
                None => res == Err::<String, ApvmError>(ApvmError::NoParent),
            },
    {
        match parent(self.as_str()) {
            Some(path) => Ok(path),
            None => Err(ApvmError::NoParent),
        }
    }

    fn try_file_name(&self) -> (res: Result<String, ApvmError>)
        ensures
            match spec_file_name(self@) {
                Some(n) => res matches Ok(r) && r@ == n,
                None => res == Err::<String, ApvmError>(ApvmError::NoFileName),
            },
    {
        match file_name(self.as_str()) {
            Some(v) => Ok(v),
            None => Err(ApvmError::NoFileName),
        }
    }

    fn try_file_stem(&self) -> (res: Result<String, ApvmError>)
        ensures
            match spec_file_stem(self@) {
                Some(n) => res matches Ok(r) && r@ == n,
                None => res == Err::<String, ApvmError>(ApvmError::NoFileStem),
            },
    {
        match file_stem(self.as_str()) {
            Some(v) => Ok(v),
            None => Err(ApvmError::NoFileStem),
        }
    }

    fn try_to_string(&self) -> (res: Result<String, ApvmError>)
        ensures
            res matches Ok(r) && r@ == self@,
    {
        Ok(self.clone())
    }
}

} // verus!
