use vstd::prelude::*;

verus! {

/// What `std::path::Path::file_name` gives for the path `path` (the last
/// component unless the path ends in `..`).
pub uninterp spec fn file_name_of(path: Seq<char>) -> Option<Seq<char>>;

/// Index of the last `.` among the first `n` characters of `name`.
pub open spec fn last_dot_before(name: Seq<char>, n: int) -> Option<int>
    decreases n,
{
    if n <= 0 {
        None
    } else if name[n - 1] == '.' {
        Some(n - 1)
    } else {
        last_dot_before(name, n - 1)
    }
}

/// The extension of the file name `name`, as `Path::extension` documents it:
/// none without an embedded `.` or when the only `.` is the leading one;
/// otherwise what follows the last `.`.
pub open spec fn name_extension(name: Seq<char>) -> Option<Seq<char>> {
    match last_dot_before(name, name.len() as int) {
        Some(k) => if k == 0 {
            None
        } else {
            Some(name.subrange(k + 1, name.len() as int))
        },
        None => None,
    }
}

/// The stem of the file name `name`, as `Path::file_stem` documents it: the
/// whole name without an embedded `.` or when the only `.` is the leading one;
/// otherwise what precedes the last `.`.
pub open spec fn name_stem(name: Seq<char>) -> Seq<char> {
    match last_dot_before(name, name.len() as int) {
        Some(k) => if k == 0 {
            name
        } else {
            name.subrange(0, k)
        },
        None => name,
    }
}

/// What `std::path::Path::file_stem` gives for the path `path`: the stem of its
/// file name, none without a file name.
pub open spec fn file_stem_of(path: Seq<char>) -> Option<Seq<char>> {
    match file_name_of(path) {
        Some(name) => Some(name_stem(name)),
        None => None,
    }
}

/// What `std::path::Path::extension` gives for the path `path`: the extension
/// of its file name, none without a file name.
pub open spec fn extension_of(path: Seq<char>) -> Option<Seq<char>> {
    match file_name_of(path) {
        Some(name) => name_extension(name),
        None => None,
    }
}

/// What `std::path::Path::with_file_name` gives for the path `path` and the file
/// name `name`.
pub uninterp spec fn with_file_name_of(path: Seq<char>, name: Seq<char>) -> Seq<char>;

/// Calls `std::path::Path::file_name` on `path`. The contract claims only that
/// the result is the value named [`file_name_of`] for this path: a path built
/// from a `&str` splits at ASCII separators, so the name converts back to a
/// string without loss.
#[verifier::external_body]
pub(crate) fn path_file_name(path: &str) -> (r: Option<String>)
    ensures
        r.deep_view() == file_name_of(path@),
{
    Some(std::path::Path::new(path).file_name()?.to_str()?.to_string())
}

/// Calls `std::path::Path::file_stem` on `path`. The contract claims what the
/// documentation states: the stem ([`name_stem`]) of the path's file name
/// ([`file_name_of`]), none without a file name.
#[verifier::external_body]
pub(crate) fn path_file_stem(path: &str) -> (r: Option<String>)
    ensures
        r.deep_view() == file_stem_of(path@),
{
    Some(std::path::Path::new(path).file_stem()?.to_str()?.to_string())
}

/// Calls `std::path::Path::extension` on `path`. The contract claims what the
/// documentation states: the extension ([`name_extension`]) of the path's file
/// name ([`file_name_of`]), none without a file name.
#[verifier::external_body]
pub(crate) fn path_extension(path: &str) -> (r: Option<String>)
    ensures
        r.deep_view() == extension_of(path@),
{
    Some(std::path::Path::new(path).extension()?.to_str()?.to_string())
}

/// Calls `std::path::Path::with_file_name` on `path` and `name`; the contract
/// claims only that the result is the value named [`with_file_name_of`].
#[verifier::external_body]
pub(crate) fn path_with_file_name(path: &str, name: &str) -> (r: String)
    ensures
        r@ == with_file_name_of(path@, name@),
{
    std::path::Path::new(path).with_file_name(name).to_string_lossy().into_owned()
}

} // verus!

verus! {

/// What `std::path::Path::with_extension` gives for the path `path` and the
/// extension `ext` (the same as `PathBuf::set_extension` on a copy).
pub uninterp spec fn with_extension_of(path: Seq<char>, ext: Seq<char>) -> Seq<char>;

/// Calls `std::path::Path::with_extension` on `path` and `ext`; the contract
/// claims only that the result is the value named [`with_extension_of`].
/// `PathBuf::set_extension` panics on an extension holding a path separator
/// (`/`, and also a backslash where that separates paths), so such extensions are not
/// admitted.
#[verifier::external_body]
pub(crate) fn path_with_extension(path: &str, ext: &str) -> (r: String)
    requires
        forall|i: int| 0 <= i < ext@.len() ==> ext@[i] != '/' && ext@[i] != '\\',
    ensures
        r@ == with_extension_of(path@, ext@),
{
    std::path::Path::new(path).with_extension(ext).to_string_lossy().into_owned()
}

} // verus!
