use vstd::prelude::*;
use crate::layout::Extent;
use crate::ratio::{Frac, Ratio, frac};

verus! {

/// An axis-aligned rectangle given by two corners, `(x1, y1)` and `(x2, y2)`.
#[derive(Clone, Copy, Debug, PartialEq, Eq)]
pub struct Rect<T> {
    pub x1: T,
    pub y1: T,
    pub x2: T,
    pub y2: T,
}

/// A rectangle of exact fractions, as a rectangle of mathematical ones.
pub open spec fn rect_view(r: Rect<Ratio>) -> Rect<Frac> {
    Rect { x1: r.x1@, y1: r.y1@, x2: r.x2@, y2: r.y2@ }
}

/// A rectangle of whole pixels, as fractions.
pub open spec fn pixel_rect_view(r: Rect<u32>) -> Rect<Frac> {
    Rect {
        x1: frac(r.x1 as int, 1),
        y1: frac(r.y1 as int, 1),
        x2: frac(r.x2 as int, 1),
        y2: frac(r.y2 as int, 1),
    }
}

/// Corner by corner, the two rectangles stand for the same numbers.
pub open spec fn rect_same_value(a: Rect<Frac>, b: Rect<Frac>) -> bool {
    a.x1.same_value(b.x1) && a.y1.same_value(b.y1) && a.x2.same_value(b.x2) && a.y2.same_value(b.y2)
}

/// A pixel coordinate along an axis of `extent` pixels, in device
/// coordinates: `2 * pixel / extent - 1`, written over the denominator `extent`.
pub open spec fn ndc_spec(pixel: int, extent: int) -> Frac {
    frac(2 * pixel - extent, extent)
}

/// The pixel coordinate of a device coordinate along an axis of `extent`
/// pixels: `(ndc + 1) / 2 * extent`.
pub open spec fn pixel_spec(ndc: Frac, extent: int) -> Frac {
    frac((ndc.num + ndc.den) * extent, 2 * ndc.den)
}

/// A pixel rectangle of the window in device coordinates, axis by axis.
pub open spec fn rect_to_ndc_spec(window: Extent, area: Rect<u32>) -> Rect<Frac> {
    Rect {
        x1: ndc_spec(area.x1 as int, window.width as int),
        y1: ndc_spec(area.y1 as int, window.height as int),
        x2: ndc_spec(area.x2 as int, window.width as int),
        y2: ndc_spec(area.y2 as int, window.height as int),
    }
}

/// A device-coordinate rectangle in the window's pixels, axis by axis.
pub open spec fn rect_to_pixels_spec(window: Extent, area: Rect<Frac>) -> Rect<Frac> {
    Rect {
        x1: pixel_spec(area.x1, window.width as int),
        y1: pixel_spec(area.y1, window.height as int),
        x2: pixel_spec(area.x2, window.width as int),
        y2: pixel_spec(area.y2, window.height as int),
    }
}

/// Maps a pixel coordinate into device coordinates along an axis of
/// `extent` pixels.
pub fn pixel_to_ndc(pixel: u32, extent: u32) -> (r: Ratio)
    requires
        extent > 0,
    ensures
        r@ == ndc_spec(pixel as int, extent as int),
        r@.wf(),
{
    Ratio { num: 2 * pixel as i128 - extent as i128, den: extent as i128 }
}

/// The largest numerator or denominator that `ndc_to_pixel` takes.
pub const NDC_TERM_LIMIT: i128 = 0xffff_ffff_ffff_ffff;

/// Maps a device coordinate back to a pixel coordinate along an axis of
/// `extent` pixels.
pub fn ndc_to_pixel(ndc: Ratio, extent: u32) -> (r: Ratio)
    requires
        ndc@.wf(),
        -NDC_TERM_LIMIT <= ndc.num <= NDC_TERM_LIMIT,
        ndc.den <= NDC_TERM_LIMIT,
    ensures
        r@ == pixel_spec(ndc@, extent as int),
{
    let sum = ndc.num + ndc.den;
    proof {
        assert(-NDC_TERM_LIMIT * u32::MAX <= sum * extent <= 2 * NDC_TERM_LIMIT * u32::MAX)
            by (nonlinear_arith)
            requires
                -NDC_TERM_LIMIT <= sum <= 2 * NDC_TERM_LIMIT,
                0 <= extent <= u32::MAX,
        ;
    }
    Ratio { num: sum * extent as i128, den: 2 * ndc.den }
}

/// Maps a render area given in the window's pixels into device coordinates,
/// each corner coordinate on its own axis.
pub fn render_area_to_ndc(window: Extent, area: Rect<u32>) -> (r: Rect<Ratio>)
    requires
        window.width > 0,
        window.height > 0,
    ensures
        rect_view(r) == rect_to_ndc_spec(window, area),
{
    Rect {
        x1: pixel_to_ndc(area.x1, window.width),
        y1: pixel_to_ndc(area.y1, window.height),
        x2: pixel_to_ndc(area.x2, window.width),
        y2: pixel_to_ndc(area.y2, window.height),
    }
}

/// Maps a device-coordinate rectangle back into the window's pixels.
pub fn ndc_to_render_area(window: Extent, area: Rect<Ratio>) -> (r: Rect<Ratio>)
    requires
        area.x1@.wf() && area.y1@.wf() && area.x2@.wf() && area.y2@.wf(),
        -NDC_TERM_LIMIT <= area.x1.num <= NDC_TERM_LIMIT && area.x1.den <= NDC_TERM_LIMIT,
        -NDC_TERM_LIMIT <= area.y1.num <= NDC_TERM_LIMIT && area.y1.den <= NDC_TERM_LIMIT,
        -NDC_TERM_LIMIT <= area.x2.num <= NDC_TERM_LIMIT && area.x2.den <= NDC_TERM_LIMIT,
        -NDC_TERM_LIMIT <= area.y2.num <= NDC_TERM_LIMIT && area.y2.den <= NDC_TERM_LIMIT,
    ensures
        rect_view(r) == rect_to_pixels_spec(window, rect_view(area)),
{
    Rect {
        x1: ndc_to_pixel(area.x1, window.width),
        y1: ndc_to_pixel(area.y1, window.height),
        x2: ndc_to_pixel(area.x2, window.width),
        y2: ndc_to_pixel(area.y2, window.height),
    }
}

/// The device coordinate of a pixel is `2 * pixel / extent - 1`.
pub proof fn lemma_ndc_formula(pixel: int, extent: int)
    requires
        extent > 0,
    ensures
        ndc_spec(pixel, extent).same_value(
            frac(2 * pixel, 1).div(frac(extent, 1)).sub(frac(1, 1)),
        ),
{
    assert((2 * pixel - extent) * (1 * extent * 1) == ((2 * pixel * 1) * 1 - 1 * (1 * extent))
        * extent) by (nonlinear_arith);
}

/// Along one axis, mapping a pixel coordinate into device coordinates and back
/// gives the pixel coordinate again.
pub proof fn lemma_pixel_round_trip(pixel: int, extent: int)
    requires
        extent > 0,
    ensures
        pixel_spec(ndc_spec(pixel, extent), extent).same_value(frac(pixel, 1)),
{
    assert((2 * pixel - extent + extent) * extent * 1 == pixel * (2 * extent)) by (nonlinear_arith);
}

/// Mapping a render area into device coordinates and back gives the same
/// rectangle of pixels.
pub proof fn lemma_render_area_round_trip(window: Extent, area: Rect<u32>)
    requires
        window.width > 0,
        window.height > 0,
    ensures
        rect_same_value(
            rect_to_pixels_spec(window, rect_to_ndc_spec(window, area)),
            pixel_rect_view(area),
        ),
{
    lemma_pixel_round_trip(area.x1 as int, window.width as int);
    lemma_pixel_round_trip(area.y1 as int, window.height as int);
    lemma_pixel_round_trip(area.x2 as int, window.width as int);
    lemma_pixel_round_trip(area.y2 as int, window.height as int);
}

} // verus!
