use vstd::prelude::*;

use crate::annotations::model::Annotation;

verus! {

/// The contents of a `.shero` project file.
#[derive(Clone, Debug, PartialEq)]
pub struct SheroProject {
    pub version: u32,
    pub source_image: SourceImageRecord,
    pub annotations: Vec<Annotation>,
    pub view_state: ViewState,
    pub metadata: ProjectMetadata,
}

/// The screenshot a project annotates.
#[derive(Clone, Debug, PartialEq)]
pub struct SourceImageRecord {
    pub path: String,
    pub width: u32,
    pub height: u32,
}

/// Zoom and pan of the canvas; binary64 bit patterns.
#[derive(Clone, Copy, Debug, PartialEq, Eq, Structural)]
pub struct ViewState {
    pub zoom: u64,
    pub pan_x: u64,
    pub pan_y: u64,
}

/// Creation and modification times and the writing application's version.
#[derive(Clone, Debug, PartialEq)]
pub struct ProjectMetadata {
    pub created_at: String,
    pub modified_at: String,
    pub app_version: String,
}

/// The only project format version this library reads and writes.
pub const PROJECT_VERSION: u32 = 1;

impl SheroProject {
    /// A project of the current format for the image at `path` of the given
    /// size, holding `annotations` and the view state; metadata is left empty
    /// for saving to fill in.
    pub fn snapshot(
        path: String,
        width: u32,
        height: u32,
        annotations: Vec<Annotation>,
        view_state: ViewState,
    ) -> (p: SheroProject)
        ensures
            p.version == PROJECT_VERSION,
            p.source_image.path@ == path@,
            p.source_image.width == width,
            p.source_image.height == height,
            p.annotations@ == annotations@,
            p.view_state == view_state,
            p.metadata.created_at@.len() == 0,
            p.metadata.modified_at@.len() == 0,
            p.metadata.app_version@.len() == 0,
    {
        SheroProject {
            version: PROJECT_VERSION,
            source_image: SourceImageRecord { path, width, height },
            annotations,
            view_state,
            metadata: ProjectMetadata {
                created_at: String::new(),
                modified_at: String::new(),
                app_version: String::new(),
            },
        }
    }
}

} // verus!
