use vstd::prelude::*;

use crate::export::auto_export::{build_auto_export_path, export_file_name};
use crate::paths::{extension_of, file_name_of, file_stem_of, with_file_name_of, path_extension, path_file_name, path_with_extension, with_extension_of};
use crate::persistence::serializer::{is_portal_document_path, portal_document_path};
use crate::text::str_eq;
use crate::text::{before_first, concat_strs, find, owned, seq_starts_with, starts_with};

verus! {

/// The name shown for a project saved at `path`: its file name, or for a
/// portal staging file `.xdp-<name>.tmp-<suffix>` the chosen `<name>`; the whole
/// path when it has no file name.
pub open spec fn display_name(path: Seq<char>) -> Seq<char> {
    match file_name_of(path) {
        None => path,
        Some(name) => if seq_starts_with(name, ".xdp-"@) {
            before_first(name.subrange(5, name.len() as int), ".tmp-"@)
        } else {
            name
        },
    }
}

/// The name shown for a project saved at `path` (see [`display_name`]).
pub fn project_display_name(path: &str) -> (r: String)
    ensures
        r@ == display_name(path@),
{
    proof {
        reveal_strlit(".xdp-");
    }
    match path_file_name(path) {
        None => owned(path),
        Some(name) => {
            if starts_with(name.as_str(), ".xdp-") {
                let n = name.as_str().unicode_len();
                let rest = name.as_str().substring_char(5, n);
                match find(rest, ".tmp-") {
                    Some(i) => owned(rest.substring_char(0, i)),
                    None => owned(rest),
                }
            } else {
                name
            }
        },
    }
}

/// The window title for a project saved at `path`.
pub fn window_title(path: &str) -> (r: String)
    ensures
        r@ == display_name(path@) + " - Screenshot Hero"@,
{
    let mut t = project_display_name(path);
    t.append(" - Screenshot Hero");
    t
}

/// Where a project chosen in the save dialog is written: a path outside the
/// document portal gets the `.shero` extension unless it has it already; a
/// portal path is kept exactly, since only that file may be written.
pub open spec fn project_save_path(path: Seq<char>) -> Seq<char> {
    if !portal_document_path(path) && extension_of(path) != Some("shero"@) {
        with_extension_of(path, "shero"@)
    } else {
        path
    }
}

/// Where a project chosen in the save dialog is written (see [`project_save_path`]).
pub fn save_dialog_path(path: &str) -> (r: String)
    ensures
        r@ == project_save_path(path@),
{
    if !is_portal_document_path(path) {
        let has_shero = match path_extension(path) {
            Some(ext) => str_eq(ext.as_str(), "shero"),
            None => false,
        };
        if !has_shero {
            proof {
                reveal_strlit("shero");
            }
            return path_with_extension(path, "shero");
        }
    }
    owned(path)
}

/// The automation preferences consulted after every change of the annotations.
#[derive(Clone, Debug)]
pub struct AutomationSettings {
    /// Save the open project again (only once it has a file).
    pub auto_save: bool,
    /// Copy the annotated image to the clipboard (after a short pause).
    pub auto_clipboard: bool,
    /// Write the annotated image next to its source.
    pub auto_export: bool,
    /// Appended to the source's file stem when exporting.
    pub export_suffix: String,
}

impl Default for AutomationSettings {
    /// The values used when no settings store is available: saving and copying
    /// on, exporting off, suffix `_shero`.
    fn default() -> (r: Self)
        ensures
            r.auto_save,
            r.auto_clipboard,
            !r.auto_export,
            r.export_suffix@ == "_shero"@,
    {
        AutomationSettings { auto_save: true, auto_clipboard: true, auto_export: false, export_suffix: owned("_shero") }
    }
}

/// What to do after the annotations changed.
#[derive(Clone, Debug)]
pub struct AutomationPlan {
    /// Hand a snapshot of the project to auto-save.
    pub auto_save: bool,
    /// Restart the pause after which the image is copied to the clipboard.
    pub copy_to_clipboard: bool,
    /// Export the annotated image as PNG to this path.
    pub export_to: Option<String>,
}

/// What follows a change of the annotations under `settings`, where
/// `source_path` is the path of the loaded image, if one is loaded: saving
/// needs a loaded image, copying is always scheduled when enabled, exporting
/// needs the source path and goes to the auto-export path built from it.
pub fn plan_after_change(settings: &AutomationSettings, source_path: Option<&str>) -> (p: AutomationPlan)
    ensures
        p.auto_save == (settings.auto_save && source_path is Some),
        p.copy_to_clipboard == settings.auto_clipboard,
        match source_path {
            Some(src) if settings.auto_export => p.export_to matches Some(e) && e@ == with_file_name_of(
                src@,
                export_file_name(file_stem_of(src@), settings.export_suffix@),
            ),
            _ => p.export_to is None,
        },
{
    let export_to = match source_path {
        Some(src) => if settings.auto_export {
            Some(build_auto_export_path(src, settings.export_suffix.as_str()))
        } else {
            None
        },
        None => None,
    };
    AutomationPlan {
        auto_save: settings.auto_save && source_path.is_some(),
        copy_to_clipboard: settings.auto_clipboard,
        export_to,
    }
}

} // verus!
