use vstd::prelude::*;
use vstd::string::*;
use std::path::PathBuf;

verus! {

#[verifier::external_type_specification]
#[verifier::external_body]
pub struct ExPathBuf(std::path::PathBuf);

/// The path string that resolution starts from: the current directory where
/// none is given.
pub open spec fn input_of(path_opt: Option<String>) -> Seq<char> {
    match path_opt {
        Some(s) => s@,
        None => "."@,
    }
}

/// The message of a path that does not resolve.
pub open spec fn invalid_path_message(input: Seq<char>) -> Seq<char> {
    "Invalid path: "@ + input
}

/// Relies on Path::canonicalize: the absolute form of the path, with `.`,
/// `..` and symbolic links resolved, or nothing where that fails. The outcome
/// depends on the file system.
#[verifier::external_body]
fn canonicalize(path: &str) -> (r: Option<PathBuf>) {
    std::path::Path::new(path).canonicalize().ok()
}

/// Relies on Path::is_file: whether the path names a regular file, following
/// symbolic links. The outcome depends on the file system.
#[verifier::external_body]
pub(crate) fn path_is_file(p: &PathBuf) -> (r: bool) {
    p.is_file()
}

/// Relies on Path::is_dir: whether the path names a directory, following
/// symbolic links. The outcome depends on the file system.
#[verifier::external_body]
pub(crate) fn path_is_dir(p: &PathBuf) -> (r: bool) {
    p.is_dir()
}

/// Relies on Path::display: the path as text for a message.
#[verifier::external_body]
pub(crate) fn path_display(p: &PathBuf) -> (r: String) {
    p.display().to_string()
}

/// The path string that resolution starts from.
pub fn path_input(path_opt: &Option<String>) -> (r: &str)
    ensures
        r@ == input_of(*path_opt),
{
    match path_opt {
        Some(s) => s.as_str(),
        None => ".",
    }
}

/// Turns the outcome of canonicalising `input` into a resolution: the
/// canonical path, or an error that names `input`.
pub fn resolve_from(input: &str, canonical: Option<PathBuf>) -> (r: Result<PathBuf, String>)
    ensures
        canonical matches Some(p) ==> r == Ok::<PathBuf, String>(p),
        canonical is None ==> (r matches Err(m) && m@ == invalid_path_message(input@)),
{
    match canonical {
        Some(p) => Ok(p),
        None => {
            let mut m = String::from_str("Invalid path: ");
            m.append(input);
            Err(m)
        },
    }
}

/// Resolves an optional path string to an existing canonical path. On
/// failure the error is the message naming the original string.
pub fn resolve_path(path_opt: &Option<String>) -> (r: Result<PathBuf, String>)
    ensures
        r matches Err(m) ==> m@ == invalid_path_message(input_of(*path_opt)),
{
    let input = path_input(path_opt);
    resolve_from(input, canonicalize(input))
}

/// Resolving no path is resolving the current directory `.`: both start from
/// the same string, and fail with the same message.
pub proof fn lemma_absent_path_is_current(dot: String)
    requires
        dot@ == "."@,
    ensures
        input_of(None) == input_of(Some(dot)),
        invalid_path_message(input_of(None)) == invalid_path_message(input_of(Some(dot))),
{
}

} // verus!
