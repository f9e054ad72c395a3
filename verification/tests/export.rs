use screenshot_hero::annotations::model::{Annotation, AnnotationKind, AnnotationStyle, Rect, TextData};
use screenshot_hero::export::auto_export::{auto_export_file_name, build_auto_export_path};
use screenshot_hero::export::exporter::{pack_rgb, ExportError};
use screenshot_hero::export::renderer::{
    draw_order, effect_region, is_effect, is_shape, is_text_based, surface_to_rgba, unpremultiply, EffectRegion,
};

#[test]
fn test_build_auto_export_path_png() {
    let result = build_auto_export_path("/home/u/Screenshots/shot.png", "_shero");
    assert_eq!(result, "/home/u/Screenshots/shot_shero.png");
}

#[test]
fn test_build_auto_export_path_jpeg_source() {
    let result = build_auto_export_path("/home/u/Screenshots/shot.jpg", "_shero");
    assert_eq!(result, "/home/u/Screenshots/shot_shero.png");
}

#[test]
fn test_build_auto_export_path_no_extension() {
    let result = build_auto_export_path("/home/u/Screenshots/shot", "_shero");
    assert_eq!(result, "/home/u/Screenshots/shot_shero.png");
}

#[test]
fn auto_export_name_without_stem_is_export() {
    assert_eq!(auto_export_file_name(None, "_x"), "export_x.png");
    assert_eq!(auto_export_file_name(Some("a.b"), ""), "a.b.png");
    assert_eq!(build_auto_export_path("/", "_shero"), "/export_shero.png");
}

#[test]
fn export_error_message() {
    assert_eq!(ExportError::SaveFailed("disk full".to_string()).message(), "save failed: disk full");
}

#[test]
fn unpremultiply_values() {
    assert_eq!(unpremultiply(10, 20, 30, 0), (0, 0, 0));
    assert_eq!(unpremultiply(10, 20, 30, 255), (10, 20, 30));
    assert_eq!(unpremultiply(64, 32, 0, 128), (128, 64, 0));
    assert_eq!(unpremultiply(1, 0, 0, 3), (85, 0, 0));
}

#[test]
fn surface_to_rgba_swaps_and_unpremultiplies() {
    // Two pixels per row, one row, stride 12 (4 bytes padding).
    let data = [30u8, 20, 10, 255, 0, 32, 64, 128, 9, 9, 9, 9];
    let out = surface_to_rgba(&data, 2, 1, 12);
    assert_eq!(out, vec![10, 20, 30, 255, 128, 64, 0, 128]);
}

#[test]
fn pack_rgb_drops_alpha_and_padding() {
    let src = [1u8, 2, 3, 4, 5, 6, 7, 8, 0, 0, 11, 12, 13, 14, 15, 16, 17, 18];
    // 2x2 image, 4 channels, rowstride 10.
    let out = pack_rgb(&src[..], 2, 2, 10, 4);
    assert_eq!(out, vec![1, 2, 3, 5, 6, 7, 11, 12, 13, 15, 16, 17]);
}

fn ann(kind: AnnotationKind) -> Annotation {
    Annotation { id: 0, kind, bounds: Rect { x: 0, y: 0, width: 0, height: 0 }, style: AnnotationStyle::default() }
}

#[test]
fn draw_order_paints_effects_then_shapes_then_text() {
    let text = AnnotationKind::Text(TextData { text: "t".to_string(), font_size: 0 });
    let anns = vec![
        ann(text.clone()),
        ann(AnnotationKind::Rectangle),
        ann(AnnotationKind::Blur),
        ann(AnnotationKind::Ellipse),
        ann(AnnotationKind::Redaction),
    ];
    assert_eq!(draw_order(&anns), vec![2, 4, 1, 3, 0]);
    assert!(is_effect(&AnnotationKind::Pixelate));
    assert!(is_shape(&AnnotationKind::Rectangle));
    assert!(is_text_based(&text));
    assert!(!is_shape(&text));
}

#[test]
fn effect_region_clips_to_image() {
    assert_eq!(effect_region(100, 0, 10, 10, 100, 80, 8), None);
    assert_eq!(
        effect_region(90, 70, 40, 40, 100, 80, 8),
        Some(EffectRegion { x: 90, y: 70, width: 10, height: 10, small_width: 1, small_height: 1 })
    );
    assert_eq!(
        effect_region(0, 0, 64, 32, 100, 80, 16),
        Some(EffectRegion { x: 0, y: 0, width: 64, height: 32, small_width: 4, small_height: 2 })
    );
    assert_eq!(effect_region(0, 0, 0, 10, 100, 80, 8), None);
}
