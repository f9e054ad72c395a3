use vstd::prelude::*;

use crate::text::{concat_strs, contains, seq_contains, seq_starts_with, starts_with};

verus! {

/// A path handed out by the document portal: a staging file (`.xdp-` in it) or
/// a file under `/run/user/.../doc/`.
pub open spec fn portal_document_path(path: Seq<char>) -> bool {
    seq_contains(path, ".xdp-"@) || (seq_starts_with(path, "/run/user/"@) && seq_contains(path, "/doc/"@))
}

/// Whether `path` is a document-portal path. The portal grants write access to
/// that exact file only, so such a file is written in place.
pub fn is_portal_document_path(path: &str) -> (r: bool)
    ensures
        r == portal_document_path(path@),
{
    if contains(path, ".xdp-") {
        return true;
    }
    starts_with(path, "/run/user/") && contains(path, "/doc/")
}

/// How a project file is written.
#[derive(Debug, PartialEq, Eq)]
pub enum SavePlan {
    /// Write the file in place.
    Direct,
    /// Write the given sibling file, then rename it over the target.
    ViaTemporary(String),
}

/// Portal paths are written in place; any other path through `<path>.tmp` and
/// a rename.
pub fn save_plan(path: &str) -> (r: SavePlan)
    ensures
        portal_document_path(path@) ==> r == SavePlan::Direct,
        !portal_document_path(path@) ==> (r matches SavePlan::ViaTemporary(t) && t@ == path@ + ".tmp"@),
{
    if is_portal_document_path(path) {
        SavePlan::Direct
    } else {
        SavePlan::ViaTemporary(concat_strs(path, ".tmp"))
    }
}

} // verus!
