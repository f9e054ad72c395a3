use vstd::prelude::*;

use crate::text::concat_strs;

verus! {

/// Why an export failed; carries the encoder's or the file system's message.
#[derive(Debug, PartialEq, Eq)]
pub enum ExportError {
    SaveFailed(String),
}

impl ExportError {
    /// The message shown for this error: `save failed: <message>`.
    pub fn message(&self) -> (r: String)
        ensures
            match self {
                ExportError::SaveFailed(m) => r@ == "save failed: "@ + m@,
            },
    {
        match self {
            ExportError::SaveFailed(m) => concat_strs("save failed: ", m.as_str()),
        }
    }
}

/// Byte `c` of pixel `(x, y)` of a packed RGB image of the given width (three
/// bytes per pixel, rows of `3 * width` bytes) built from `src`, which has
/// `channels` bytes per pixel and rows of `rowstride` bytes: the colour
/// channels are copied and any alpha channel dropped.
pub open spec fn rgb_byte(src: Seq<u8>, rowstride: int, channels: int, width: int, i: int) -> u8 {
    let y = i / (3 * width);
    let x = (i % (3 * width)) / 3;
    let c = i % 3;
    src[y * rowstride + x * channels + c]
}

/// Copies the colour channels of a `width` by `height` image stored in `src`
/// (`channels` bytes per pixel, rows `rowstride` bytes apart) into a packed RGB
/// buffer, dropping alpha. JPEG encoders take RGB without alpha.
pub fn pack_rgb(src: &[u8], width: usize, height: usize, rowstride: usize, channels: usize) -> (out: Vec<u8>)
    requires
        channels >= 3,
        width > 0 ==> rowstride >= width * channels,
        height > 0 ==> (height - 1) * rowstride + width * channels <= src@.len(),
        height * width * 3 <= usize::MAX,
    ensures
        out@.len() == height * width * 3,
        forall|i: int| 0 <= i < out@.len() ==> #[trigger] out@[i] == rgb_byte(src@, rowstride as int, channels as int, width as int, i),
{
    let src_len = src.len();
    let mut out: Vec<u8> = Vec::new();
    let mut y: usize = 0;
    while y < height
        invariant
            channels >= 3,
            src_len == src@.len(),
            width > 0 ==> rowstride >= width * channels,
            height > 0 ==> (height - 1) * rowstride + width * channels <= src@.len(),
            height * width * 3 <= usize::MAX,
            y <= height,
            out@.len() == y * width * 3,
            forall|i: int| 0 <= i < out@.len() ==> #[trigger] out@[i] == rgb_byte(src@, rowstride as int, channels as int, width as int, i),
        decreases height - y,
    {
        let mut x: usize = 0;
        while x < width
            invariant
                channels >= 3,
                src_len == src@.len(),
                width > 0 ==> rowstride >= width * channels,
                height > 0 ==> (height - 1) * rowstride + width * channels <= src@.len(),
                height * width * 3 <= usize::MAX,
                y < height,
                x <= width,
                out@.len() == y * width * 3 + x * 3,
                forall|i: int| 0 <= i < out@.len() ==> #[trigger] out@[i] == rgb_byte(src@, rowstride as int, channels as int, width as int, i),
            decreases width - x,
        {
            proof {
                assert(y * rowstride + x * channels + 2 < src@.len()) by (nonlinear_arith)
                    requires
                        y < height,
                        x < width,
                        channels >= 3,
                        rowstride >= width * channels,
                        (height - 1) * rowstride + width * channels <= src@.len(),
                ;
                assert(0 <= y * rowstride && 0 <= x * channels) by (nonlinear_arith);
                assert(src_len == src@.len());
                assert(y * width * 3 + x * 3 + 3 <= height * width * 3) by (nonlinear_arith)
                    requires
                        y < height,
                        x < width,
                ;
            }
            let off = y * rowstride + x * channels;
            let ghost before = out@.len();
            out.push(src[off]);
            out.push(src[off + 1]);
            out.push(src[off + 2]);
            proof {
                assert forall|c: int| 0 <= c < 3 implies #[trigger] out@[before + c] == rgb_byte(src@, rowstride as int, channels as int, width as int, before + c) by {
                    let i = before + c;
                    assert(i / (3 * width as int) == y as int && (i % (3 * width as int)) / 3 == x as int && i % 3 == c) by (nonlinear_arith)
                        requires
                            i == y * width * 3 + x * 3 + c,
                            0 <= c < 3,
                            x < width,
                    ;
                }
                assert forall|i: int| 0 <= i < out@.len() implies #[trigger] out@[i] == rgb_byte(src@, rowstride as int, channels as int, width as int, i) by {
                    if i >= before {
                        assert(out@[before + (i - before)] == out@[i]);
                    }
                }
            }
            x = x + 1;
        }
        proof {
            assert((y + 1) * width * 3 == y * width * 3 + width * 3) by (nonlinear_arith);
        }
        y = y + 1;
    }
    out
}

} // verus!
