use screenshot_hero::annotations::model::{Annotation, AnnotationKind, AnnotationStyle, Rect};
use screenshot_hero::persistence::deserializer::check_version;
use screenshot_hero::persistence::error::PersistenceError;
use screenshot_hero::persistence::manager::{ProjectManager, APP_VERSION};
use screenshot_hero::persistence::model::{ProjectMetadata, SheroProject, SourceImageRecord, ViewState};
use screenshot_hero::persistence::serializer::{is_portal_document_path, save_plan, SavePlan};
use uuid::Uuid;

fn sample_project() -> SheroProject {
    SheroProject {
        version: 1,
        source_image: SourceImageRecord { path: "/tmp/screenshot.png".to_string(), width: 1920, height: 1080 },
        annotations: vec![Annotation {
            id: Uuid::parse_str("550e8400-e29b-41d4-a716-446655440000").unwrap().as_u128(),
            kind: AnnotationKind::Rectangle,
            bounds: Rect { x: 10.0f64.to_bits(), y: 20.0f64.to_bits(), width: 100.0f64.to_bits(), height: 50.0f64.to_bits() },
            style: AnnotationStyle::default(),
        }],
        view_state: ViewState { zoom: 1.5f64.to_bits(), pan_x: (-32.0f64).to_bits(), pan_y: 48.0f64.to_bits() },
        metadata: ProjectMetadata { created_at: String::new(), modified_at: String::new(), app_version: String::new() },
    }
}

#[test]
fn portal_document_paths_are_detected() {
    assert!(is_portal_document_path("/run/user/1000/doc/.xdp-cap2.shero.tmp-ifkkL1"));
    assert!(is_portal_document_path("/run/user/1000/doc/abc123/myproject.shero"));
    assert!(!is_portal_document_path("/tmp/myproject.shero"));
    assert!(!is_portal_document_path("/home/user/Pictures/myproject.shero"));
}

#[test]
fn save_plan_uses_temporary_file_outside_portal() {
    assert_eq!(save_plan("/tmp/p.shero"), SavePlan::ViaTemporary("/tmp/p.shero.tmp".to_string()));
    assert_eq!(save_plan("/run/user/1/doc/x/p.shero"), SavePlan::Direct);
}

#[test]
fn load_project_rejects_unsupported_version() {
    let mut project = sample_project();
    project.version = 2;
    let err = check_version(project).expect_err("unsupported version should fail");
    assert!(matches!(err, PersistenceError::UnsupportedVersion(2)));
}

#[test]
fn check_version_accepts_current_version() {
    let project = sample_project();
    assert_eq!(check_version(project.clone()).unwrap(), project);
}

#[test]
fn persistence_error_messages() {
    assert_eq!(PersistenceError::Io("boom".to_string()).message(), "I/O error: boom");
    assert_eq!(PersistenceError::Json("bad".to_string()).message(), "JSON error: bad");
    assert_eq!(PersistenceError::UnsupportedVersion(2).message(), "unsupported project version: 2");
    assert_eq!(PersistenceError::UnsupportedVersion(4096).message(), "unsupported project version: 4096");
    assert_eq!(PersistenceError::MissingSourceImage("/a.png".to_string()).message(), "source image not found: /a.png");
}

#[test]
fn new_manager_has_no_path_and_auto_saves() {
    let m = ProjectManager::new();
    assert!(m.current_path.is_none());
    assert!(m.auto_save_enabled);
    assert!(m.created_at.is_none());
}

#[test]
fn save_preserves_created_at_and_advances_modified_at() {
    let mut manager = ProjectManager::new();
    let mut first = sample_project();
    manager.apply_metadata_at(&mut first, "2026-06-06T12:00:00+00:00");
    assert_eq!(first.metadata.created_at, "2026-06-06T12:00:00+00:00");
    assert_eq!(first.metadata.modified_at, "2026-06-06T12:00:00+00:00");
    assert_eq!(first.metadata.app_version, APP_VERSION);
    assert_eq!(manager.created_at.as_deref(), Some("2026-06-06T12:00:00+00:00"));

    let mut second = sample_project();
    manager.apply_metadata_at(&mut second, "2026-06-06T12:00:01+00:00");
    assert_eq!(second.metadata.created_at, first.metadata.created_at);
    assert_ne!(second.metadata.modified_at, first.metadata.modified_at);
}

#[test]
fn first_save_keeps_project_creation_time() {
    let mut manager = ProjectManager::new();
    let mut p = sample_project();
    p.metadata.created_at = "earlier".to_string();
    manager.apply_metadata_at(&mut p, "now");
    assert_eq!(p.metadata.created_at, "earlier");
    assert_eq!(manager.created_at.as_deref(), Some("earlier"));
}

#[test]
fn prepare_save_sets_path_and_stamps() {
    let mut manager = ProjectManager::new();
    let p = manager.prepare_save("/tmp/x.shero", sample_project());
    assert_eq!(manager.current_path.as_deref(), Some("/tmp/x.shero"));
    assert!(!p.metadata.modified_at.is_empty());
    assert_eq!(p.metadata.created_at, p.metadata.modified_at);
    assert_eq!(p.annotations, sample_project().annotations);
}

#[test]
fn maybe_auto_save_without_path_writes_no_file() {
    let manager = ProjectManager::new();
    assert!(manager.current_path.is_none());
    assert!(manager.auto_save_snapshot(sample_project()).is_none());
}

#[test]
fn auto_save_snapshot_with_path() {
    let mut manager = ProjectManager::new();
    let mut opened = sample_project();
    opened.metadata.created_at = "c0".to_string();
    manager.record_open("/tmp/a.shero", &opened);
    let (path, p) = manager.auto_save_snapshot_at(sample_project(), "t1").unwrap();
    assert_eq!(path, "/tmp/a.shero");
    assert_eq!(p.metadata.created_at, "c0");
    assert_eq!(p.metadata.modified_at, "t1");
    assert_eq!(p.metadata.app_version, APP_VERSION);
    manager.auto_save_enabled = false;
    assert!(manager.auto_save_snapshot_at(sample_project(), "t2").is_none());
}

#[test]
fn snapshot_has_current_version_and_empty_metadata() {
    let p = SheroProject::snapshot("/a.png".to_string(), 3, 4, vec![], ViewState { zoom: 0, pan_x: 0, pan_y: 0 });
    assert_eq!(p.version, 1);
    assert_eq!(p.source_image.width, 3);
    assert!(p.metadata.created_at.is_empty());
}
