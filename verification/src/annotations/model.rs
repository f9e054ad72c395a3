use vstd::prelude::*;

verus! {

/// A point in image coordinates. Each coordinate is an IEEE-754 binary64
/// value carried as its bit pattern (`f64::to_bits`).
#[derive(Clone, Copy, Debug, PartialEq, Eq, Structural)]
pub struct Point {
    pub x: u64,
    pub y: u64,
}

/// An axis-aligned rectangle; all four fields are binary64 bit patterns.
#[derive(Clone, Copy, Debug, PartialEq, Eq, Structural)]
pub struct Rect {
    pub x: u64,
    pub y: u64,
    pub width: u64,
    pub height: u64,
}

/// An RGBA colour; channels are binary64 bit patterns.
#[derive(Clone, Copy, Debug, PartialEq, Eq, Structural)]
pub struct Color {
    pub r: u64,
    pub g: u64,
    pub b: u64,
    pub a: u64,
}

/// Stroke and fill of an annotation; `stroke_width` is a binary32 bit pattern.
#[derive(Clone, Copy, Debug, PartialEq, Eq, Structural)]
pub struct AnnotationStyle {
    pub stroke_color: Color,
    pub stroke_width: u32,
    pub fill_color: Option<Color>,
}

} // verus!

verus! {

/// Bit pattern of the binary64 value `1.0`.
pub const F64_ONE: u64 = 0x3FF0_0000_0000_0000;

/// Bit pattern of the binary64 value `0.0`.
pub const F64_ZERO: u64 = 0;

/// Bit pattern of the binary32 value `2.0`.
pub const F32_TWO: u32 = 0x4000_0000;

/// `bits` is the pattern of a binary64 NaN.
pub open spec fn f64_is_nan(bits: u64) -> bool {
    (bits & 0x7FF0_0000_0000_0000) == 0x7FF0_0000_0000_0000 && (bits & 0x000F_FFFF_FFFF_FFFF) != 0
}

/// The binary64 values with patterns `a` and `b` are equal under IEEE 754
/// comparison: neither is NaN, and the patterns agree or both are zeros
/// (`0.0 == -0.0`).
pub open spec fn f64_eq(a: u64, b: u64) -> bool {
    &&& !f64_is_nan(a)
    &&& !f64_is_nan(b)
    &&& (a == b || ((a & 0x7FFF_FFFF_FFFF_FFFF) == 0 && (b & 0x7FFF_FFFF_FFFF_FFFF) == 0))
}

/// `bits` is the pattern of a binary32 NaN.
pub open spec fn f32_is_nan(bits: u32) -> bool {
    (bits & 0x7F80_0000) == 0x7F80_0000 && (bits & 0x007F_FFFF) != 0
}

/// The binary32 values with patterns `a` and `b` are equal under IEEE 754
/// comparison.
pub open spec fn f32_eq(a: u32, b: u32) -> bool {
    &&& !f32_is_nan(a)
    &&& !f32_is_nan(b)
    &&& (a == b || ((a & 0x7FFF_FFFF) == 0 && (b & 0x7FFF_FFFF) == 0))
}

/// The rectangles are equal field by field as floating-point numbers.
pub open spec fn rect_eq(a: Rect, b: Rect) -> bool {
    f64_eq(a.x, b.x) && f64_eq(a.y, b.y) && f64_eq(a.width, b.width) && f64_eq(a.height, b.height)
}

/// The colours are equal channel by channel as floating-point numbers.
pub open spec fn color_eq(a: Color, b: Color) -> bool {
    f64_eq(a.r, b.r) && f64_eq(a.g, b.g) && f64_eq(a.b, b.b) && f64_eq(a.a, b.a)
}

/// The styles are equal: stroke colours and widths as floating-point numbers,
/// and both without fill or both with equal fill colours.
pub open spec fn style_eq(a: AnnotationStyle, b: AnnotationStyle) -> bool {
    &&& color_eq(a.stroke_color, b.stroke_color)
    &&& f32_eq(a.stroke_width, b.stroke_width)
    &&& match (a.fill_color, b.fill_color) {
        (None, None) => true,
        (Some(x), Some(y)) => color_eq(x, y),
        _ => false,
    }
}

/// IEEE 754 equality of two binary64 values given by their patterns.
pub fn f64_equal(a: u64, b: u64) -> (r: bool)
    ensures
        r == f64_eq(a, b),
{
    let a_nan = (a & 0x7FF0_0000_0000_0000) == 0x7FF0_0000_0000_0000 && (a & 0x000F_FFFF_FFFF_FFFF) != 0;
    let b_nan = (b & 0x7FF0_0000_0000_0000) == 0x7FF0_0000_0000_0000 && (b & 0x000F_FFFF_FFFF_FFFF) != 0;
    !a_nan && !b_nan && (a == b || ((a & 0x7FFF_FFFF_FFFF_FFFF) == 0 && (b & 0x7FFF_FFFF_FFFF_FFFF) == 0))
}

/// IEEE 754 equality of two binary32 values given by their patterns.
pub fn f32_equal(a: u32, b: u32) -> (r: bool)
    ensures
        r == f32_eq(a, b),
{
    let a_nan = (a & 0x7F80_0000) == 0x7F80_0000 && (a & 0x007F_FFFF) != 0;
    let b_nan = (b & 0x7F80_0000) == 0x7F80_0000 && (b & 0x007F_FFFF) != 0;
    !a_nan && !b_nan && (a == b || ((a & 0x7FFF_FFFF) == 0 && (b & 0x7FFF_FFFF) == 0))
}

/// Floating-point equality of two rectangles, field by field.
pub fn rect_equal(a: Rect, b: Rect) -> (r: bool)
    ensures
        r == rect_eq(a, b),
{
    f64_equal(a.x, b.x) && f64_equal(a.y, b.y) && f64_equal(a.width, b.width) && f64_equal(a.height, b.height)
}

/// Floating-point equality of two colours, channel by channel.
pub fn color_equal(a: Color, b: Color) -> (r: bool)
    ensures
        r == color_eq(a, b),
{
    f64_equal(a.r, b.r) && f64_equal(a.g, b.g) && f64_equal(a.b, b.b) && f64_equal(a.a, b.a)
}

/// Equality of two styles as the floating-point numbers they hold.
pub fn style_equal(a: AnnotationStyle, b: AnnotationStyle) -> (r: bool)
    ensures
        r == style_eq(a, b),
{
    let fill = match (a.fill_color, b.fill_color) {
        (None, None) => true,
        (Some(x), Some(y)) => color_equal(x, y),
        _ => false,
    };
    color_equal(a.stroke_color, b.stroke_color) && f32_equal(a.stroke_width, b.stroke_width) && fill
}

/// The style given to new annotations: opaque red stroke, stroke width two, no fill.
pub open spec fn default_style() -> AnnotationStyle {
    AnnotationStyle {
        stroke_color: Color { r: F64_ONE, g: F64_ZERO, b: F64_ZERO, a: F64_ONE },
        stroke_width: F32_TWO,
        fill_color: None,
    }
}

impl Default for AnnotationStyle {
    fn default() -> (style: Self)
        ensures
            style == default_style(),
    {
        AnnotationStyle {
            stroke_color: Color { r: F64_ONE, g: F64_ZERO, b: F64_ZERO, a: F64_ONE },
            stroke_width: F32_TWO,
            fill_color: None,
        }
    }
}

/// Start and end of an arrow or a line.
#[derive(Clone, Copy, Debug, PartialEq, Eq, Structural)]
pub struct ArrowData {
    pub start: Point,
    pub end: Point,
}

/// The points of a freehand stroke, in drawing order.
#[derive(Clone, Debug, PartialEq)]
pub struct FreehandData {
    pub points: Vec<Point>,
}

/// Text of a text or timestamp annotation; `font_size` is a binary32 bit pattern.
#[derive(Clone, Debug, PartialEq)]
pub struct TextData {
    pub text: String,
    pub font_size: u32,
}

/// The number shown by a numbered marker.
#[derive(Clone, Copy, Debug, PartialEq, Eq, Structural)]
pub struct NumberMarkerData {
    pub number: u32,
}

/// Text of a callout bubble and the point its pointer aims at.
#[derive(Clone, Debug, PartialEq)]
pub struct CalloutData {
    pub text: String,
    pub anchor: Point,
}

/// What an annotation draws.
#[derive(Clone, Debug, PartialEq)]
pub enum AnnotationKind {
    Rectangle,
    Ellipse,
    Arrow(ArrowData),
    Line(ArrowData),
    Freehand(FreehandData),
    Text(TextData),
    Blur,
    Pixelate,
    Redaction,
    Timestamp(TextData),
    NumberMarker(NumberMarkerData),
    Callout(CalloutData),
}

/// One annotation on the image. `id` is the 128-bit value of its UUID.
#[derive(Clone, Debug, PartialEq)]
pub struct Annotation {
    pub id: u128,
    pub kind: AnnotationKind,
    pub bounds: Rect,
    pub style: AnnotationStyle,
}

/// The mathematical value of an [`AnnotationKind`]: point lists and texts are
/// sequences.
pub enum KindModel {
    Rectangle,
    Ellipse,
    Arrow(ArrowData),
    Line(ArrowData),
    Freehand(Seq<Point>),
    Text(Seq<char>, u32),
    Blur,
    Pixelate,
    Redaction,
    Timestamp(Seq<char>, u32),
    NumberMarker(NumberMarkerData),
    Callout(Seq<char>, Point),
}

/// The mathematical value of an [`Annotation`].
pub struct AnnotationModel {
    pub id: u128,
    pub kind: KindModel,
    pub bounds: Rect,
    pub style: AnnotationStyle,
}

impl View for AnnotationKind {
    type V = KindModel;

    open spec fn view(&self) -> KindModel {
        match self {
            AnnotationKind::Rectangle => KindModel::Rectangle,
            AnnotationKind::Ellipse => KindModel::Ellipse,
            AnnotationKind::Arrow(d) => KindModel::Arrow(*d),
            AnnotationKind::Line(d) => KindModel::Line(*d),
            AnnotationKind::Freehand(d) => KindModel::Freehand(d.points@),
            AnnotationKind::Text(d) => KindModel::Text(d.text@, d.font_size),
            AnnotationKind::Blur => KindModel::Blur,
            AnnotationKind::Pixelate => KindModel::Pixelate,
            AnnotationKind::Redaction => KindModel::Redaction,
            AnnotationKind::Timestamp(d) => KindModel::Timestamp(d.text@, d.font_size),
            AnnotationKind::NumberMarker(d) => KindModel::NumberMarker(*d),
            AnnotationKind::Callout(d) => KindModel::Callout(d.text@, d.anchor),
        }
    }
}

impl View for Annotation {
    type V = AnnotationModel;

    open spec fn view(&self) -> AnnotationModel {
        AnnotationModel { id: self.id, kind: self.kind@, bounds: self.bounds, style: self.style }
    }
}

/// The mathematical values of a sequence of annotations.
pub open spec fn models(s: Seq<Annotation>) -> Seq<AnnotationModel> {
    s.map_values(|a: Annotation| a@)
}

/// Copies a sequence of points element by element.
pub fn copy_points(points: &Vec<Point>) -> (out: Vec<Point>)
    ensures
        out@ == points@,
{
    let mut out: Vec<Point> = Vec::new();
    let mut i: usize = 0;
    while i < points.len()
        invariant
            i <= points.len(),
            out@ == points@.subrange(0, i as int),
        decreases points.len() - i,
    {
        out.push(points[i]);
        i = i + 1;
    }
    out
}

/// The mathematical value of a [`TextData`]: its text and its font size.
impl View for TextData {
    type V = (Seq<char>, u32);

    open spec fn view(&self) -> (Seq<char>, u32) {
        (self.text@, self.font_size)
    }
}

impl TextData {
    /// An equal copy of this text data.
    pub fn duplicate(&self) -> (out: Self)
        ensures
            out@ == self@,
    {
        TextData { text: self.text.clone(), font_size: self.font_size }
    }
}

impl AnnotationKind {
    /// An equal copy of this kind.
    pub fn duplicate(&self) -> (out: Self)
        ensures
            out@ == self@,
    {
        match self {
            AnnotationKind::Rectangle => AnnotationKind::Rectangle,
            AnnotationKind::Ellipse => AnnotationKind::Ellipse,
            AnnotationKind::Arrow(d) => AnnotationKind::Arrow(*d),
            AnnotationKind::Line(d) => AnnotationKind::Line(*d),
            AnnotationKind::Freehand(d) => {
                let points = copy_points(&d.points);
                proof {
                    assert(points@ == d.points@);
                }
                AnnotationKind::Freehand(FreehandData { points })
            },
            AnnotationKind::Text(d) => AnnotationKind::Text(d.duplicate()),
            AnnotationKind::Blur => AnnotationKind::Blur,
            AnnotationKind::Pixelate => AnnotationKind::Pixelate,
            AnnotationKind::Redaction => AnnotationKind::Redaction,
            AnnotationKind::Timestamp(d) => AnnotationKind::Timestamp(d.duplicate()),
            AnnotationKind::NumberMarker(d) => AnnotationKind::NumberMarker(*d),
            AnnotationKind::Callout(d) => AnnotationKind::Callout(
                CalloutData { text: d.text.clone(), anchor: d.anchor },
            ),
        }
    }
}

/// Calls `uuid::Uuid::new_v4` and returns the UUID's 128-bit value
/// (`Uuid::as_u128`). The value is random; the contract states nothing of it.
#[verifier::external_body]
pub(crate) fn random_id() -> (r: u128) {
    uuid::Uuid::new_v4().as_u128()
}

impl Annotation {
    /// A new annotation of `kind` with `bounds` and `style`, under a fresh
    /// random id.
    pub fn create(kind: AnnotationKind, bounds: Rect, style: AnnotationStyle) -> (a: Self)
        ensures
            a.kind == kind,
            a.bounds == bounds,
            a.style == style,
    {
        Annotation { id: random_id(), kind, bounds, style }
    }

    /// An equal copy of this annotation.
    pub fn duplicate(&self) -> (out: Self)
        ensures
            out@ == self@,
    {
        Annotation { id: self.id, kind: self.kind.duplicate(), bounds: self.bounds, style: self.style }
    }
}

} // verus!
