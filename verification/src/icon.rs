//! Pixel layout conversion for the tray icon: decoded PNG rows to the
//! ARGB32 (network byte order) pixmaps of the StatusNotifierItem protocol.

use vstd::prelude::*;

verus! {

/// Pixel `q` of `out` is pixel `q` of `rgba` as `[A, R, G, B]`.
pub open spec fn argb_pixel_of_rgba(out: Seq<u8>, rgba: Seq<u8>, q: int) -> bool {
    &&& out[4 * q] == rgba[4 * q + 3]
    &&& out[4 * q + 1] == rgba[4 * q]
    &&& out[4 * q + 2] == rgba[4 * q + 1]
    &&& out[4 * q + 3] == rgba[4 * q + 2]
}

/// Pixel `q` of `out` is pixel `q` of `rgb` as `[0xff, R, G, B]`.
pub open spec fn argb_pixel_of_rgb(out: Seq<u8>, rgb: Seq<u8>, q: int) -> bool {
    &&& out[4 * q] == 0xff
    &&& out[4 * q + 1] == rgb[3 * q]
    &&& out[4 * q + 2] == rgb[3 * q + 1]
    &&& out[4 * q + 3] == rgb[3 * q + 2]
}

/// `out` holds, for each whole RGBA pixel of `rgba`, the bytes `[A, R, G, B]`.
pub open spec fn is_argb_of_rgba(out: Seq<u8>, rgba: Seq<u8>) -> bool {
    &&& out.len() == 4 * (rgba.len() / 4)
    &&& forall|q: int| 0 <= q < rgba.len() / 4 ==> #[trigger] argb_pixel_of_rgba(out, rgba, q)
}

/// `out` holds, for each whole RGB pixel of `rgb`, the bytes `[0xff, R, G, B]`.
pub open spec fn is_argb_of_rgb(out: Seq<u8>, rgb: Seq<u8>) -> bool {
    &&& out.len() == 4 * (rgb.len() / 3)
    &&& forall|q: int| 0 <= q < rgb.len() / 3 ==> #[trigger] argb_pixel_of_rgb(out, rgb, q)
}

/// RGBA8 to ARGB32 network byte order (bytes `[A, R, G, B]` per pixel); a
/// trailing partial pixel is dropped.
pub fn rgba_to_argb(rgba: &[u8]) -> (out: Vec<u8>)
    ensures
        is_argb_of_rgba(out@, rgba@),
{
    let pixels = rgba.len() / 4;
    let mut out: Vec<u8> = Vec::new();
    let mut p: usize = 0;
    let mut base: usize = 0;
    while p < pixels
        invariant
            pixels == rgba@.len() / 4,
            p <= pixels,
            base == 4 * p,
            out@.len() == 4 * p,
            forall|q: int| 0 <= q < p ==> #[trigger] argb_pixel_of_rgba(out@, rgba@, q),
        decreases pixels - p,
    {
        assert(base + 3 < rgba@.len());
        let ghost prev = out@;
        out.push(rgba[base + 3]);
        out.push(rgba[base]);
        out.push(rgba[base + 1]);
        out.push(rgba[base + 2]);
        assert forall|q: int| 0 <= q < p + 1 implies #[trigger] argb_pixel_of_rgba(out@, rgba@, q) by {
            if q < p {
                assert(argb_pixel_of_rgba(prev, rgba@, q));
            }
        }
        p = p + 1;
        base = base + 4;
    }
    out
}

/// RGB8 to ARGB32 network byte order, fully opaque; a trailing partial
/// pixel is dropped.
pub fn rgb_to_argb(rgb: &[u8]) -> (out: Vec<u8>)
    ensures
        is_argb_of_rgb(out@, rgb@),
{
    let pixels = rgb.len() / 3;
    let mut out: Vec<u8> = Vec::new();
    let mut p: usize = 0;
    let mut base: usize = 0;
    while p < pixels
        invariant
            pixels == rgb@.len() / 3,
            p <= pixels,
            base == 3 * p,
            out@.len() == 4 * p,
            forall|q: int| 0 <= q < p ==> #[trigger] argb_pixel_of_rgb(out@, rgb@, q),
        decreases pixels - p,
    {
        assert(base + 2 < rgb@.len());
        let ghost prev = out@;
        out.push(0xff);
        out.push(rgb[base]);
        out.push(rgb[base + 1]);
        out.push(rgb[base + 2]);
        assert forall|q: int| 0 <= q < p + 1 implies #[trigger] argb_pixel_of_rgb(out@, rgb@, q) by {
            if q < p {
                assert(argb_pixel_of_rgb(prev, rgb@, q));
            }
        }
        p = p + 1;
        base = base + 3;
    }
    out
}

} // verus!
