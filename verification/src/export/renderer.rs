use vstd::prelude::*;

use crate::annotations::engine::text_of;
use crate::annotations::model::{Annotation, AnnotationKind, AnnotationModel, KindModel, models};

verus! {

/// Straight (non-premultiplied) colour of a premultiplied pixel: black when
/// fully transparent, unchanged when opaque, otherwise each channel scaled by
/// `255 / a` with rounding to nearest (truncated to a byte).
pub open spec fn unpremultiplied(r: u8, g: u8, b: u8, a: u8) -> (u8, u8, u8) {
    if a == 0 {
        (0, 0, 0)
    } else if a == 255 {
        (r, g, b)
    } else {
        (
            ((r as int * 255 + a as int / 2) / a as int) as u8,
            ((g as int * 255 + a as int / 2) / a as int) as u8,
            ((b as int * 255 + a as int / 2) / a as int) as u8,
        )
    }
}

/// Converts a premultiplied colour to straight colour.
pub fn unpremultiply(r: u8, g: u8, b: u8, a: u8) -> (out: (u8, u8, u8))
    ensures
        out == unpremultiplied(r, g, b, a),
{
    if a == 0 {
        (0, 0, 0)
    } else if a == 255 {
        (r, g, b)
    } else {
        let a32 = a as u32;
        let r32 = r as u32 * 255 + a32 / 2;
        let g32 = g as u32 * 255 + a32 / 2;
        let b32 = b as u32 * 255 + a32 / 2;
        ((r32 / a32) as u8, (g32 / a32) as u8, (b32 / a32) as u8)
    }
}

/// Byte `i` of the straight RGBA image made from a premultiplied ARGB32 (byte
/// order B, G, R, A) surface `data` with rows `stride` bytes apart.
pub open spec fn rgba_byte(data: Seq<u8>, stride: int, width: int, i: int) -> u8 {
    let y = i / (4 * width);
    let x = (i % (4 * width)) / 4;
    let c = i % 4;
    let off = y * stride + x * 4;
    let rgb = unpremultiplied(data[off + 2], data[off + 1], data[off], data[off + 3]);
    if c == 0 {
        rgb.0
    } else if c == 1 {
        rgb.1
    } else if c == 2 {
        rgb.2
    } else {
        data[off + 3]
    }
}

/// Converts a `width` by `height` premultiplied ARGB32 surface (rows `stride`
/// bytes apart) into packed straight RGBA, four bytes per pixel.
pub fn surface_to_rgba(data: &[u8], width: usize, height: usize, stride: usize) -> (out: Vec<u8>)
    requires
        width > 0 ==> stride >= width * 4,
        height > 0 ==> (height - 1) * stride + width * 4 <= data@.len(),
        height * width * 4 <= usize::MAX,
    ensures
        out@.len() == height * width * 4,
        forall|i: int| 0 <= i < out@.len() ==> #[trigger] out@[i] == rgba_byte(data@, stride as int, width as int, i),
{
    let data_len = data.len();
    let mut out: Vec<u8> = Vec::new();
    let mut y: usize = 0;
    while y < height
        invariant
            data_len == data@.len(),
            width > 0 ==> stride >= width * 4,
            height > 0 ==> (height - 1) * stride + width * 4 <= data@.len(),
            height * width * 4 <= usize::MAX,
            y <= height,
            out@.len() == y * width * 4,
            forall|i: int| 0 <= i < out@.len() ==> #[trigger] out@[i] == rgba_byte(data@, stride as int, width as int, i),
        decreases height - y,
    {
        let mut x: usize = 0;
        while x < width
            invariant
                data_len == data@.len(),
                width > 0 ==> stride >= width * 4,
                height > 0 ==> (height - 1) * stride + width * 4 <= data@.len(),
                height * width * 4 <= usize::MAX,
                y < height,
                x <= width,
                out@.len() == y * width * 4 + x * 4,
                forall|i: int| 0 <= i < out@.len() ==> #[trigger] out@[i] == rgba_byte(data@, stride as int, width as int, i),
            decreases width - x,
        {
            proof {
                assert(y * stride + x * 4 + 3 < data@.len()) by (nonlinear_arith)
                    requires
                        y < height,
                        x < width,
                        stride >= width * 4,
                        (height - 1) * stride + width * 4 <= data@.len(),
                ;
                assert(0 <= y * stride) by (nonlinear_arith);
                assert(y * width * 4 + x * 4 + 4 <= height * width * 4) by (nonlinear_arith)
                    requires
                        y < height,
                        x < width,
                ;
            }
            let off = y * stride + x * 4;
            let b = data[off];
            let g = data[off + 1];
            let r = data[off + 2];
            let a = data[off + 3];
            let (r2, g2, b2) = unpremultiply(r, g, b, a);
            let ghost before = out@.len();
            out.push(r2);
            out.push(g2);
            out.push(b2);
            out.push(a);
            proof {
                assert forall|c: int| 0 <= c < 4 implies #[trigger] out@[before + c] == rgba_byte(data@, stride as int, width as int, before + c) by {
                    let i = before + c;
                    assert(i / (4 * width as int) == y as int && (i % (4 * width as int)) / 4 == x as int && i % 4 == c) by (nonlinear_arith)
                        requires
                            i == y * width * 4 + x * 4 + c,
                            0 <= c < 4,
                            x < width,
                    ;
                }
                assert forall|i: int| 0 <= i < out@.len() implies #[trigger] out@[i] == rgba_byte(data@, stride as int, width as int, i) by {
                    if i >= before {
                        assert(out@[before + (i - before)] == out@[i]);
                    }
                }
            }
            x = x + 1;
        }
        proof {
            assert((y + 1) * width * 4 == y * width * 4 + width * 4) by (nonlinear_arith);
        }
        y = y + 1;
    }
    out
}

/// Drawing layer of a kind: effects (blur, pixelate, redaction) first, then
/// shapes (rectangle, ellipse, arrow, line, freehand), then text-based
/// annotations (text, timestamp, number marker, callout) on top.
pub open spec fn layer_of(kind: KindModel) -> nat {
    match kind {
        KindModel::Blur | KindModel::Pixelate | KindModel::Redaction => 0,
        KindModel::Rectangle | KindModel::Ellipse | KindModel::Arrow(_) | KindModel::Line(_) | KindModel::Freehand(_) => 1,
        _ => 2,
    }
}

/// Whether `kind` is an effect drawn from the source pixels.
pub fn is_effect(kind: &AnnotationKind) -> (r: bool)
    ensures
        r == (layer_of(kind@) == 0),
{
    matches!(kind, AnnotationKind::Blur | AnnotationKind::Pixelate | AnnotationKind::Redaction)
}

/// Whether `kind` is a stroked shape.
pub fn is_shape(kind: &AnnotationKind) -> (r: bool)
    ensures
        r == (layer_of(kind@) == 1),
{
    matches!(
        kind,
        AnnotationKind::Rectangle | AnnotationKind::Ellipse | AnnotationKind::Arrow(_) | AnnotationKind::Line(_)
            | AnnotationKind::Freehand(_)
    )
}

/// Whether `kind` draws text.
pub fn is_text_based(kind: &AnnotationKind) -> (r: bool)
    ensures
        r == (layer_of(kind@) == 2),
{
    matches!(
        kind,
        AnnotationKind::Text(_) | AnnotationKind::Timestamp(_) | AnnotationKind::NumberMarker(_)
            | AnnotationKind::Callout(_)
    )
}

/// Indices below `n` of the annotations of `s` in layer `layer`, ascending.
pub open spec fn layer_indices(s: Seq<AnnotationModel>, layer: nat, n: nat) -> Seq<usize>
    decreases n,
{
    if n == 0 {
        Seq::empty()
    } else if layer_of(s[n - 1].kind) == layer {
        layer_indices(s, layer, (n - 1) as nat).push((n - 1) as usize)
    } else {
        layer_indices(s, layer, (n - 1) as nat)
    }
}

/// The layer indices below `n` are ascending, lie below `n`, belong to `layer`,
/// and include every index below `n` of that layer.
proof fn lemma_layer_indices(s: Seq<AnnotationModel>, layer: nat, n: nat)
    requires
        n <= s.len(),
        n <= usize::MAX,
    ensures
        forall|a: int, b: int| 0 <= a < b < layer_indices(s, layer, n).len() ==>
            layer_indices(s, layer, n)[a] < layer_indices(s, layer, n)[b],
        forall|a: int| 0 <= a < layer_indices(s, layer, n).len() ==>
            (layer_indices(s, layer, n)[a] as int) < n && layer_of(s[layer_indices(s, layer, n)[a] as int].kind) == layer,
        forall|i: int| 0 <= i < n && layer_of(s[i].kind) == layer ==> layer_indices(s, layer, n).contains(i as usize),
    decreases n,
{
    if n > 0 {
        lemma_layer_indices(s, layer, (n - 1) as nat);
        let prev = layer_indices(s, layer, (n - 1) as nat);
        if layer_of(s[n - 1].kind) == layer {
            let cur = prev.push((n - 1) as usize);
            assert(((n - 1) as usize) as int == n - 1);
            assert forall|a: int, b: int| 0 <= a < b < cur.len() implies cur[a] < cur[b] by {
                if b == prev.len() {
                    assert((prev[a] as int) < n - 1);
                }
            }
            assert forall|i: int| 0 <= i < n && layer_of(s[i].kind) == layer implies cur.contains(i as usize) by {
                if i < n - 1 {
                    let k = choose|k: int| 0 <= k < prev.len() && prev[k] == i as usize;
                    assert(cur[k] == i as usize);
                } else {
                    assert(cur[prev.len() as int] == i as usize);
                }
            }
        }
    }
}

/// The number of annotations below `n` in each layer adds up to `n`.
proof fn lemma_layer_counts(s: Seq<AnnotationModel>, n: nat)
    requires
        n <= s.len(),
    ensures
        layer_indices(s, 0, n).len() + layer_indices(s, 1, n).len() + layer_indices(s, 2, n).len() == n,
    decreases n,
{
    if n > 0 {
        lemma_layer_counts(s, (n - 1) as nat);
    }
}

/// The order in which annotations are painted: all effects, then all shapes,
/// then all text-based annotations, each group in the annotations' own order.
pub open spec fn paint_order(s: Seq<AnnotationModel>) -> Seq<usize> {
    layer_indices(s, 0, s.len()) + layer_indices(s, 1, s.len()) + layer_indices(s, 2, s.len())
}

/// Every annotation is painted exactly once: the paint order lists each index
/// of the annotations once and no other number.
pub proof fn law_paint_order_is_permutation(s: Seq<AnnotationModel>)
    requires
        s.len() <= usize::MAX,
    ensures
        paint_order(s).len() == s.len(),
        forall|i: usize| (i as int) < s.len() ==> #[trigger] paint_order(s).contains(i),
        forall|a: int, b: int| 0 <= a < b < paint_order(s).len() ==> paint_order(s)[a] != paint_order(s)[b],
{
    let n = s.len();
    let l0 = layer_indices(s, 0, n);
    let l1 = layer_indices(s, 1, n);
    let l2 = layer_indices(s, 2, n);
    lemma_layer_indices(s, 0, n);
    lemma_layer_indices(s, 1, n);
    lemma_layer_indices(s, 2, n);
    lemma_layer_counts(s, n);
    let po = paint_order(s);
    assert(po =~= l0 + l1 + l2);
    assert forall|u: usize| (u as int) < s.len() implies #[trigger] po.contains(u) by {
        let i = u as int;
        let l = layer_of(s[i].kind);
        if l == 0 {
            let k = choose|k: int| 0 <= k < l0.len() && l0[k] == i as usize;
            assert(po[k] == i as usize);
        } else if l == 1 {
            let k = choose|k: int| 0 <= k < l1.len() && l1[k] == i as usize;
            assert(po[l0.len() + k] == i as usize);
        } else {
            let k = choose|k: int| 0 <= k < l2.len() && l2[k] == i as usize;
            assert(po[l0.len() + l1.len() + k] == i as usize);
        }
    }
    assert forall|a: int, b: int| 0 <= a < b < po.len() implies po[a] != po[b] by {
        let la = if a < l0.len() { 0nat } else if a < l0.len() + l1.len() { 1nat } else { 2nat };
        let lb = if b < l0.len() { 0nat } else if b < l0.len() + l1.len() { 1nat } else { 2nat };
        assert(layer_of(s[po[a] as int].kind) == la);
        assert(layer_of(s[po[b] as int].kind) == lb);
        if la == lb {
            assert(po[a] < po[b]);
        }
    }
}

/// Appends to `out` the indices of the annotations in layer `layer`, ascending.
fn push_layer(annotations: &[Annotation], layer: u8, out: &mut Vec<usize>)
    requires
        layer <= 2,
    ensures
        final(out)@ == old(out)@ + layer_indices(models(annotations@), layer as nat, annotations@.len()),
{
    let n = annotations.len();
    let mut i: usize = 0;
    let ghost start = out@;
    while i < n
        invariant
            n == annotations@.len(),
            layer <= 2,
            i <= n,
            out@ == start + layer_indices(models(annotations@), layer as nat, i as nat),
        decreases n - i,
    {
        let kind = &annotations[i].kind;
        let in_layer = if layer == 0 {
            is_effect(kind)
        } else if layer == 1 {
            is_shape(kind)
        } else {
            is_text_based(kind)
        };
        proof {
            assert(models(annotations@)[i as int] == annotations@[i as int]@);
        }
        if in_layer {
            out.push(i);
            proof {
                assert(out@ =~= start + layer_indices(models(annotations@), layer as nat, (i + 1) as nat));
            }
        }
        i = i + 1;
    }
}

/// The indices of `annotations` in painting order (see [`paint_order`]).
pub fn draw_order(annotations: &[Annotation]) -> (r: Vec<usize>)
    ensures
        r@ == paint_order(models(annotations@)),
{
    let mut out: Vec<usize> = Vec::new();
    push_layer(annotations, 0, &mut out);
    push_layer(annotations, 1, &mut out);
    push_layer(annotations, 2, &mut out);
    proof {
        assert(out@ =~= paint_order(models(annotations@)));
    }
    out
}

/// The part of the source image an effect samples, and the size it is shrunk
/// to before being scaled back up.
#[derive(Debug, PartialEq, Eq, Clone, Copy)]
pub struct EffectRegion {
    pub x: i32,
    pub y: i32,
    pub width: i32,
    pub height: i32,
    pub small_width: i32,
    pub small_height: i32,
}

/// The effect region for a rectangle at `(x, y)` of size `w` by `h` (whole
/// pixels, `x` and `y` not negative) on a `pw` by `ph` image: none when it starts
/// outside the image or is empty after clipping to the image; otherwise the
/// clipped rectangle and its size divided by `divisor` (at least one pixel).
pub fn effect_region(x: i32, y: i32, w: i32, h: i32, pw: i32, ph: i32, divisor: i32) -> (r: Option<EffectRegion>)
    requires
        x >= 0,
        y >= 0,
        divisor > 0,
    ensures
        (x >= pw || y >= ph) ==> r is None,
        (x < pw && y < ph) ==> {
            let cw = if w < pw - x { w as int } else { pw - x };
            let ch = if h < ph - y { h as int } else { ph - y };
            if cw <= 0 || ch <= 0 {
                r is None
            } else {
                r matches Some(reg) && reg.x == x && reg.y == y && reg.width == cw && reg.height == ch
                    && reg.small_width == (if cw / divisor as int >= 1 { cw / divisor as int } else { 1 })
                    && reg.small_height == (if ch / divisor as int >= 1 { ch / divisor as int } else { 1 })
            }
        },
{
    if x >= pw || y >= ph {
        return None;
    }
    let cw = if w < pw - x { w } else { pw - x };
    let ch = if h < ph - y { h } else { ph - y };
    if cw <= 0 || ch <= 0 {
        return None;
    }
    let sw = cw / divisor;
    let sh = ch / divisor;
    Some(EffectRegion {
        x,
        y,
        width: cw,
        height: ch,
        small_width: if sw >= 1 { sw } else { 1 },
        small_height: if sh >= 1 { sh } else { 1 },
    })
}

/// The kind draws glyphs: it holds text (a text, timestamp or callout) or is
/// a number marker.
pub open spec fn draws_glyphs(k: KindModel) -> bool {
    text_of(k) is Some || k is NumberMarker
}

/// The kind is an effect computed from the source pixels or covering them.
pub open spec fn covers_pixels(k: KindModel) -> bool {
    k is Blur || k is Pixelate || k is Redaction
}

/// The layer of each kind: effects at the bottom, glyph-drawing kinds on top,
/// every other kind (the stroked shapes) in between.
proof fn lemma_layers(k: KindModel)
    ensures
        (layer_of(k) == 0) == covers_pixels(k),
        (layer_of(k) == 2) == draws_glyphs(k),
        layer_of(k) <= 2,
{
}

/// Painting never puts an effect over a shape or a glyph, nor a shape over a
/// glyph: in the paint order, every effect comes before every other kind, and
/// every text, timestamp, callout and number marker after every other kind.
/// So a blur never hides a marker drawn over the blurred region.
pub proof fn law_glyphs_painted_last_effects_first(s: Seq<AnnotationModel>, a: int, b: int)
    requires
        s.len() <= usize::MAX,
        0 <= a < b < paint_order(s).len(),
    ensures
        draws_glyphs(s[paint_order(s)[a] as int].kind) ==> draws_glyphs(s[paint_order(s)[b] as int].kind),
        covers_pixels(s[paint_order(s)[b] as int].kind) ==> covers_pixels(s[paint_order(s)[a] as int].kind),
{
    let n = s.len();
    let l0 = layer_indices(s, 0, n);
    let l1 = layer_indices(s, 1, n);
    let l2 = layer_indices(s, 2, n);
    lemma_layer_indices(s, 0, n);
    lemma_layer_indices(s, 1, n);
    lemma_layer_indices(s, 2, n);
    let po = paint_order(s);
    assert(po =~= l0 + l1 + l2);
    let la = if a < l0.len() { 0nat } else if a < l0.len() + l1.len() { 1nat } else { 2nat };
    let lb = if b < l0.len() { 0nat } else if b < l0.len() + l1.len() { 1nat } else { 2nat };
    assert(layer_of(s[po[a] as int].kind) == la);
    assert(layer_of(s[po[b] as int].kind) == lb);
    assert(la <= lb);
    lemma_layers(s[po[a] as int].kind);
    lemma_layers(s[po[b] as int].kind);
}

} // verus!
