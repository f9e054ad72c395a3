use vstd::prelude::*;

use crate::paths::{extension_of, path_extension};
use crate::text::concat_strs;

verus! {

/// Why an image could not be loaded; paths are given as strings.
#[derive(Debug, PartialEq, Eq)]
pub enum LoadError {
    FileNotFound(String),
    UnsupportedFormat(String),
    DecodeFailed(String),
    InvalidUri(String),
}

/// Loads screenshots from files.
pub struct FileLoader;

/// `c` with ASCII upper-case letters mapped to lower case.
pub open spec fn ascii_lower(c: char) -> char {
    if 'A' <= c && c <= 'Z' {
        ((c as u32) + 32) as char
    } else {
        c
    }
}

/// `s` with ASCII upper-case letters mapped to lower case.
pub open spec fn ascii_lowercase(s: Seq<char>) -> Seq<char> {
    s.map_values(|c: char| ascii_lower(c))
}

/// A file extension the loader decodes: `png`, `jpg` or `jpeg` in any ASCII case.
pub open spec fn supported_extension(ext: Seq<char>) -> bool {
    let e = ascii_lowercase(ext);
    e == "png"@ || e == "jpg"@ || e == "jpeg"@
}

/// A path whose extension the loader decodes.
pub open spec fn supported_path(path: Seq<char>) -> bool {
    match extension_of(path) {
        Some(e) => supported_extension(e),
        None => false,
    }
}

/// Whether `s` equals the lower-case ASCII word `word` ignoring ASCII case.
fn eq_ignore_ascii_case(s: &str, word: &str) -> (r: bool)
    requires
        forall|i: int| 0 <= i < word@.len() ==> ascii_lower(#[trigger] word@[i]) == word@[i],
    ensures
        r == (ascii_lowercase(s@) == word@),
{
    let n = s.unicode_len();
    let m = word.unicode_len();
    if n != m {
        proof {
            assert(ascii_lowercase(s@).len() == n);
        }
        return false;
    }
    let mut k: usize = 0;
    while k < n
        invariant
            n == s@.len(),
            m == word@.len(),
            n == m,
            k <= n,
            forall|i: int| 0 <= i < word@.len() ==> ascii_lower(#[trigger] word@[i]) == word@[i],
            forall|j: int| 0 <= j < k ==> ascii_lower(s@[j]) == word@[j],
        decreases n - k,
    {
        let c = s.get_char(k);
        let w = word.get_char(k);
        let same = c == w || ('A' <= c && c <= 'Z' && (c as u32) + 32 == (w as u32));
        proof {
            assert(ascii_lower(word@[k as int]) == word@[k as int]);
            if 'A' <= c && c <= 'Z' {
                assert(((c as u32) + 32) as char as u32 == (c as u32) + 32);
                assert((w as u32) as char == w);
            }
        }
        if !same {
            proof {
                assert(ascii_lowercase(s@)[k as int] != word@[k as int]);
            }
            return false;
        }
        k = k + 1;
    }
    proof {
        assert(ascii_lowercase(s@) =~= word@);
    }
    true
}

/// Whether the loader decodes files with extension `ext`.
pub fn is_supported_ext(ext: &str) -> (r: bool)
    ensures
        r == supported_extension(ext@),
{
    proof {
        reveal_strlit("png");
        reveal_strlit("jpg");
        reveal_strlit("jpeg");
    }
    eq_ignore_ascii_case(ext, "png") || eq_ignore_ascii_case(ext, "jpg") || eq_ignore_ascii_case(ext, "jpeg")
}

/// Whether the extension of `path` names a format the loader decodes.
pub fn is_supported_extension(path: &str) -> (r: bool)
    ensures
        r == supported_path(path@),
{
    match path_extension(path) {
        Some(ext) => is_supported_ext(ext.as_str()),
        None => false,
    }
}

impl FileLoader {
    /// Decides whether a file may be decoded: an unsupported extension is
    /// refused first, then a missing file (`exists` tells whether it is there).
    pub fn check_path(path: &str, exists: bool) -> (r: Result<(), LoadError>)
        ensures
            !supported_path(path@) ==> (r matches Err(LoadError::UnsupportedFormat(p)) && p@ == path@),
            supported_path(path@) && !exists ==> (r matches Err(LoadError::FileNotFound(p)) && p@ == path@),
            supported_path(path@) && exists ==> r is Ok,
    {
        if !is_supported_extension(path) {
            return Err(LoadError::UnsupportedFormat(crate::text::owned(path)));
        }
        if !exists {
            return Err(LoadError::FileNotFound(crate::text::owned(path)));
        }
        Ok(())
    }
}

/// The reason given for a failed load, as shown in the open dialog's error.
pub open spec fn load_reason(e: LoadError) -> Seq<char> {
    match e {
        LoadError::FileNotFound(_) => "file not found"@,
        LoadError::UnsupportedFormat(_) => "unsupported format"@,
        LoadError::DecodeFailed(m) => m@,
        LoadError::InvalidUri(m) => m@,
    }
}

/// The message shown when loading `path` failed with `error`: `"<path>: <reason>"`.
pub fn format_load_error(path: &str, error: &LoadError) -> (r: String)
    ensures
        r@ == path@ + ": "@ + load_reason(*error),
{
    let mut r = concat_strs(path, ": ");
    match error {
        LoadError::FileNotFound(_) => r.append("file not found"),
        LoadError::UnsupportedFormat(_) => r.append("unsupported format"),
        LoadError::DecodeFailed(m) => r.append(m.as_str()),
        LoadError::InvalidUri(m) => r.append(m.as_str()),
    }
    r
}

/// Extensions are matched ignoring ASCII case: two extensions that differ
/// only in that some ASCII letters of one are upper case in the other (`JPG`,
/// `Jpg`, `jpg`) are both supported or both refused.
pub proof fn law_extension_case_is_ignored(e1: Seq<char>, e2: Seq<char>)
    requires
        e1.len() == e2.len(),
        forall|i: int|
            0 <= i < e1.len() ==> e1[i] == e2[i] || ('A' <= e1[i] && e1[i] <= 'Z' && e2[i] as u32 == e1[i] as u32 + 32),
    ensures
        supported_extension(e1) == supported_extension(e2),
{
    assert(ascii_lowercase(e1) =~= ascii_lowercase(e2)) by {
        assert forall|i: int| 0 <= i < e1.len() implies ascii_lower(e1[i]) == ascii_lower(e2[i]) by {
            if e1[i] != e2[i] {
                assert(e2[i] as u32 == e1[i] as u32 + 32);
                assert(!('A' <= e2[i] && e2[i] <= 'Z'));
            }
        }
    }
}

/// Among extensions without upper-case ASCII letters, exactly `png`, `jpg`
/// and `jpeg` are supported.
pub proof fn law_supported_lower_case_extensions(e: Seq<char>)
    requires
        forall|i: int| 0 <= i < e.len() ==> !('A' <= e[i] && e[i] <= 'Z'),
    ensures
        supported_extension(e) <==> (e == "png"@ || e == "jpg"@ || e == "jpeg"@),
{
    assert(ascii_lowercase(e) =~= e);
}

} // verus!
