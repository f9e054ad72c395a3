# Screenshot Hero

A screenshot annotator for GNOME: capture a screenshot through the desktop
portal (or open a PNG/JPEG), draw rectangles, ellipses, arrows, lines,
freehand strokes, texts, callouts, timestamps, numbered markers, blur,
pixelate and redaction boxes on it, undo and redo every edit, save the work as
a `.shero` project, and export or copy the result.

## Layout

- `src/` is the verified library, checked with Verus:
  - `annotations/`: the annotation model, the annotation engine (drawing
    order, selection, hit testing, marker numbering), the undo/redo history
    and the laws relating them, the editing commands the canvas runs, and the
    decisions taken on pointer and key events (`interaction`).
  - `persistence/`: the project model, version check, save plan (portal paths
    are written in place, others through a temporary file) and the project
    manager's metadata rules.
  - `export/`: auto-export paths, the painting order, effect regions and the
    pixel conversions used when exporting.
  - `capture/`: which files may be loaded and how load failures are reported.
  - `settings`, `palette`, `window`, `application`, `resources`: preference
    values, the tool palette, window titles, automation after an edit, launch
    options and resource paths.
- `app/` is the GTK 4 / libadwaita application around the library: widgets,
  cairo drawing, file and clipboard I/O, the screenshot portal and the JSON
  encoding of project files.
- `tests/` exercises the library from outside.

## Representation

Coordinates, colours, zoom and pan are floating-point numbers in the
application. The library holds them as their IEEE 754 bit patterns (`u64` for
binary64, `u32` for binary32) and never does arithmetic on them; geometry that
needs arithmetic (hit tests, moving and rescaling points) is passed in by the
caller as a function, and the library's contracts are stated over what that
function returns. Annotation ids are the 128-bit values of their UUIDs, and
paths are strings.
