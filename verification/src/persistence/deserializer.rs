use vstd::prelude::*;

use crate::persistence::error::PersistenceError;
use crate::persistence::model::{PROJECT_VERSION, SheroProject};

verus! {

/// Accepts a decoded project only in the current format version.
pub fn check_version(project: SheroProject) -> (r: Result<SheroProject, PersistenceError>)
    ensures
        project.version == PROJECT_VERSION ==> r == Ok::<SheroProject, PersistenceError>(project),
        project.version != PROJECT_VERSION ==> r == Err::<SheroProject, PersistenceError>(
            PersistenceError::UnsupportedVersion(project.version),
        ),
{
    if project.version != PROJECT_VERSION {
        return Err(PersistenceError::UnsupportedVersion(project.version));
    }
    Ok(project)
}

} // verus!
