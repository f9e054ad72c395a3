use vstd::prelude::*;

use crate::text::{concat_strs, replace, replace_all};

verus! {

/// Resource path under which the application's resources are registered.
pub const RESOURCE_BASE_PATH: &'static str = "/dev/codethings/schero";

/// Resource directory of the tool icons.
pub const TOOL_ICON_DIR: &'static str = "/dev/codethings/schero/resources/icons";

/// Resource path of the application icon theme.
pub const APP_ICON_THEME_PATH: &'static str = "/dev/codethings/schero/icons";

/// Name of the application icon.
pub const APP_ICON_NAME: &'static str = "dev.codethings.schero";

/// Resource path of the tool icon file `icon_file`.
pub fn tool_icon_path(icon_file: &str) -> (r: String)
    ensures
        r@ == TOOL_ICON_DIR@ + "/"@ + icon_file@,
{
    let mut r = concat_strs(TOOL_ICON_DIR, "/");
    r.append(icon_file);
    r
}

/// The colour tool icons are drawn in: white on a dark theme, black otherwise.
pub open spec fn icon_color(dark_mode: bool) -> Seq<char> {
    if dark_mode {
        "#FFFFFF"@
    } else {
        "#000000"@
    }
}

/// An SVG icon recoloured for the theme: every `currentColor` becomes the
/// theme's icon colour.
pub fn themed_svg(svg: &str, dark_mode: bool) -> (r: String)
    ensures
        r@ == replace_all(svg@, "currentColor"@, icon_color(dark_mode)),
{
    proof {
        reveal_strlit("currentColor");
    }
    let color = if dark_mode { "#FFFFFF" } else { "#000000" };
    replace(svg, "currentColor", color)
}

} // verus!
