use screenshot_hero::resources::{themed_svg, tool_icon_path};
use screenshot_hero::text::{concat_strs, contains, decimal_string, find, replace, str_eq};
use screenshot_hero::window::save_dialog_path;

#[test]
fn svg_is_recoloured_for_theme() {
    let svg = "<path fill=\"currentColor\"/><g stroke=\"currentColor\"/>";
    assert_eq!(themed_svg(svg, true), "<path fill=\"#FFFFFF\"/><g stroke=\"#FFFFFF\"/>");
    assert_eq!(themed_svg(svg, false), "<path fill=\"#000000\"/><g stroke=\"#000000\"/>");
    assert_eq!(themed_svg("none", true), "none");
}

#[test]
fn tool_icon_resource_path() {
    assert_eq!(tool_icon_path("pan.svg"), "/dev/codethings/schero/resources/icons/pan.svg");
}

#[test]
fn text_helpers() {
    assert_eq!(replace("aaa", "aa", "b"), "ba");
    assert_eq!(find("hello", "l"), Some(2));
    assert_eq!(find("hello", "z"), None);
    assert_eq!(find("héllo", "llo"), Some(2));
    assert!(contains("abc", ""));
    assert!(str_eq("x", "x"));
    assert!(!str_eq("x", "xy"));
    assert_eq!(concat_strs("ab", "cd"), "abcd");
    assert_eq!(decimal_string(0), "0");
    assert_eq!(decimal_string(4294967295), "4294967295");
}

#[test]
fn save_dialog_adds_project_extension() {
    assert_eq!(save_dialog_path("/home/u/project"), "/home/u/project.shero");
    assert_eq!(save_dialog_path("/home/u/project.txt"), "/home/u/project.shero");
    assert_eq!(save_dialog_path("/home/u/project.shero"), "/home/u/project.shero");
    assert_eq!(
        save_dialog_path("/run/user/1000/doc/.xdp-cap2.shero.tmp-ifkkL1"),
        "/run/user/1000/doc/.xdp-cap2.shero.tmp-ifkkL1"
    );
}
