use vstd::prelude::*;

use crate::persistence::model::SheroProject;
use crate::text::owned;

verus! {

/// The application version written into saved projects.
pub const APP_VERSION: &'static str = "0.1.0";

/// Where the current project lives, whether it is auto-saved, and when it was
/// first created.
pub struct ProjectManager {
    pub current_path: Option<String>,
    pub auto_save_enabled: bool,
    pub created_at: Option<String>,
}

/// The creation time a save writes: the one the manager remembers, else the
/// project's own when it has one, else the time of the save.
pub open spec fn created_at_for(remembered: Option<Seq<char>>, in_project: Seq<char>, now: Seq<char>) -> Seq<char> {
    match remembered {
        Some(c) => c,
        None => if in_project.len() == 0 {
            now
        } else {
            in_project
        },
    }
}

/// `new` is `old` with only its metadata changed.
pub open spec fn same_content(old: SheroProject, new: SheroProject) -> bool {
    &&& new.version == old.version
    &&& new.source_image == old.source_image
    &&& new.annotations == old.annotations
    &&& new.view_state == old.view_state
}

/// Calls `chrono::Utc::now` and renders it with `DateTime::to_rfc3339`. The
/// result depends on the clock; the contract claims only that it is not empty
/// (an RFC 3339 date and time always has a date part).
#[verifier::external_body]
fn now_rfc3339() -> (r: String)
    ensures
        r@.len() > 0,
{
    chrono::Utc::now().to_rfc3339()
}

impl ProjectManager {
    /// No project path yet, auto-save on, no creation time.
    pub fn new() -> (m: Self)
        ensures
            m.current_path is None,
            m.auto_save_enabled,
            m.created_at is None,
    {
        ProjectManager { current_path: None, auto_save_enabled: true, created_at: None }
    }

    /// Stamps `project` for a save at time `now`: the creation time is
    /// [`created_at_for`] and is remembered from then on, the modification time
    /// is `now`, the version is [`APP_VERSION`].
    pub fn apply_metadata_at(&mut self, project: &mut SheroProject, now: &str)
        ensures
            final(project).metadata.created_at@ == created_at_for(
                old(self).created_at.deep_view(),
                old(project).metadata.created_at@,
                now@,
            ),
            final(project).metadata.modified_at@ == now@,
            final(project).metadata.app_version@ == APP_VERSION@,
            same_content(*old(project), *final(project)),
            final(self).created_at.deep_view() == Some(final(project).metadata.created_at@),
            final(self).current_path == old(self).current_path,
            final(self).auto_save_enabled == old(self).auto_save_enabled,
    {
        match &self.created_at {
            None => {
                let created = if project.metadata.created_at.as_str().is_empty() {
                    owned(now)
                } else {
                    project.metadata.created_at.clone()
                };
                self.created_at = Some(created.clone());
                project.metadata.created_at = created;
            },
            Some(c) => {
                project.metadata.created_at = c.clone();
            },
        }
        project.metadata.modified_at = owned(now);
        project.metadata.app_version = owned(APP_VERSION);
    }

    /// Prepares `project` to be written to `path`: stamps it at the current
    /// time (see [`ProjectManager::apply_metadata_at`]) and makes `path` the
    /// current path. Returns the stamped project.
    pub fn prepare_save(&mut self, path: &str, project: SheroProject) -> (r: SheroProject)
        ensures
            r.metadata.created_at@ == created_at_for(
                old(self).created_at.deep_view(),
                project.metadata.created_at@,
                r.metadata.modified_at@,
            ),
            r.metadata.modified_at@.len() > 0,
            r.metadata.app_version@ == APP_VERSION@,
            same_content(project, r),
            final(self).created_at.deep_view() == Some(r.metadata.created_at@),
            final(self).current_path.deep_view() == Some(path@),
            final(self).auto_save_enabled == old(self).auto_save_enabled,
    {
        let mut project = project;
        let now = now_rfc3339();
        self.apply_metadata_at(&mut project, now.as_str());
        self.current_path = Some(owned(path));
        project
    }

    /// Records that the project read from `path` is now open: `path` becomes the
    /// current path and the project's creation time is remembered.
    pub fn record_open(&mut self, path: &str, project: &SheroProject)
        ensures
            final(self).current_path.deep_view() == Some(path@),
            final(self).created_at.deep_view() == Some(project.metadata.created_at@),
            final(self).auto_save_enabled == old(self).auto_save_enabled,
    {
        self.current_path = Some(owned(path));
        self.created_at = Some(project.metadata.created_at.clone());
    }

    /// What an auto-save at time `now` writes: nothing when auto-save is off or
    /// no path is known; otherwise the current path and `project` with the
    /// remembered creation time (if any), modification time `now` and version
    /// [`APP_VERSION`].
    pub fn auto_save_snapshot_at(&self, project: SheroProject, now: &str) -> (r: Option<(String, SheroProject)>)
        ensures
            (!self.auto_save_enabled || self.current_path is None) ==> r is None,
            (self.auto_save_enabled && self.current_path is Some) ==> (r matches Some((path, p)) && {
                &&& path@ == self.current_path->0@
                &&& p.metadata.created_at@ == match self.created_at {
                    Some(c) => c@,
                    None => project.metadata.created_at@,
                }
                &&& p.metadata.modified_at@ == now@
                &&& p.metadata.app_version@ == APP_VERSION@
                &&& same_content(project, p)
            }),
    {
        if !self.auto_save_enabled {
            return None;
        }
        match &self.current_path {
            None => None,
            Some(path) => {
                let mut project = project;
                if let Some(c) = &self.created_at {
                    project.metadata.created_at = c.clone();
                }
                project.metadata.modified_at = owned(now);
                project.metadata.app_version = owned(APP_VERSION);
                Some((path.clone(), project))
            },
        }
    }

    /// [`ProjectManager::auto_save_snapshot_at`] at the current time.
    pub fn auto_save_snapshot(&self, project: SheroProject) -> (r: Option<(String, SheroProject)>)
        ensures
            (!self.auto_save_enabled || self.current_path is None) ==> r is None,
            (self.auto_save_enabled && self.current_path is Some) ==> (r matches Some((path, p)) && {
                &&& path@ == self.current_path->0@
                &&& p.metadata.created_at@ == match self.created_at {
                    Some(c) => c@,
                    None => project.metadata.created_at@,
                }
                &&& p.metadata.modified_at@.len() > 0
                &&& p.metadata.app_version@ == APP_VERSION@
                &&& same_content(project, p)
            }),
    {
        let now = now_rfc3339();
        self.auto_save_snapshot_at(project, now.as_str())
    }
}

impl Default for ProjectManager {
    fn default() -> (m: Self)
        ensures
            m.current_path is None,
            m.auto_save_enabled,
            m.created_at is None,
    {
        Self::new()
    }
}

/// Two saves by a fresh manager of projects without a creation time: the
/// first writes the time of that save as the creation time, and the second
/// writes that same creation time again, whatever time it is then. When the
/// first save's time is not empty, neither is the creation time.
pub proof fn law_second_save_keeps_first_creation_time(now1: Seq<char>, now2: Seq<char>)
    ensures
        created_at_for(None, Seq::empty(), now1) == now1,
        created_at_for(Some(created_at_for(None, Seq::empty(), now1)), Seq::empty(), now2) == now1,
        now1.len() > 0 ==> created_at_for(None, Seq::empty(), now1).len() > 0,
{
}

/// Once a manager remembers a creation time, every later save writes that
/// same creation time, whatever the project carries and whenever it is saved.
pub proof fn law_saves_keep_creation_time(c: Seq<char>, in_project: Seq<char>, now: Seq<char>)
    ensures
        created_at_for(Some(c), in_project, now) == c,
{
}

} // verus!
