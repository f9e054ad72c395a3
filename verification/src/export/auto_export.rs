use vstd::prelude::*;

use crate::paths::{file_stem_of, path_file_stem, path_with_file_name, with_file_name_of};
use crate::text::{concat_strs, owned};

verus! {

/// The auto-export file name for a source whose file stem is `stem`:
/// `{stem}{suffix}.png`, with `export` standing in for a missing stem.
pub open spec fn export_file_name(stem: Option<Seq<char>>, suffix: Seq<char>) -> Seq<char> {
    let s = match stem {
        Some(s) => s,
        None => "export"@,
    };
    s + suffix + ".png"@
}

/// The auto-export file name for a source whose file stem is `stem`.
pub fn auto_export_file_name(stem: Option<&str>, suffix: &str) -> (r: String)
    ensures
        r@ == export_file_name(
            match stem {
                Some(s) => Some(s@),
                None => None,
            },
            suffix@,
        ),
{
    let mut name = match stem {
        Some(s) => owned(s),
        None => owned("export"),
    };
    name.append(suffix);
    name.append(".png");
    name
}

/// Builds the auto-export destination for `source`: a PNG named
/// `{stem}{suffix}.png` in the source's directory, whatever the source's format.
pub fn build_auto_export_path(source: &str, suffix: &str) -> (r: String)
    ensures
        r@ == with_file_name_of(source@, export_file_name(file_stem_of(source@), suffix@)),
{
    let stem = path_file_stem(source);
    let name = match &stem {
        Some(s) => auto_export_file_name(Some(s.as_str()), suffix),
        None => auto_export_file_name(None, suffix),
    };
    path_with_file_name(source, name.as_str())
}

/// Auto-export always names a PNG file, whatever the source's format: the
/// file name ends in `.png` and begins with the source's stem and the suffix.
pub proof fn law_auto_export_is_png(stem: Seq<char>, suffix: Seq<char>)
    ensures
        ({
            let name = export_file_name(Some(stem), suffix);
            &&& name.subrange(name.len() - 4, name.len() as int) == ".png"@
            &&& name.subrange(0, (stem.len() + suffix.len()) as int) == stem + suffix
        }),
{
    reveal_strlit(".png");
    let name = export_file_name(Some(stem), suffix);
    assert(name.subrange(name.len() - 4, name.len() as int) =~= ".png"@);
    assert(name.subrange(0, (stem.len() + suffix.len()) as int) =~= stem + suffix);
}

} // verus!
