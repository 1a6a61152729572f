use vstd::prelude::*;
use crate::ratio::{Frac, Ratio, frac};

verus! {

/// Height in pixels of the info bar kept free at the bottom of the window.
pub const INFOBOX_HEIGHT: u32 = 32;

/// A width and a height in pixels.
#[derive(Clone, Copy, Debug, PartialEq, Eq)]
pub struct Extent {
    pub width: u32,
    pub height: u32,
}

/// Why a layout cannot be made.
#[derive(Clone, Copy, Debug, PartialEq, Eq)]
pub enum LayoutError {
    /// The window is no taller than the info bar.
    WindowTooShort,
    /// The image is no taller than the info bar, so no part of it is shown.
    ImageTooShort,
}

/// The share of the vertical device-coordinate span `[-1, 1]` that the info
/// bar takes: `2 * B / H`.
pub open spec fn infobox_fraction_spec(window_height: int) -> Frac {
    frac(2 * INFOBOX_HEIGHT, window_height)
}

/// Maps the info bar's pixel height into device coordinates for a window of
/// the given height. A window no taller than the bar is refused.
pub fn infobox_fraction(window_height: u32) -> (r: Result<Ratio, LayoutError>)
    ensures
        window_height <= INFOBOX_HEIGHT <==> r is Err,
        r matches Err(e) ==> e == LayoutError::WindowTooShort,
        r matches Ok(f) ==> f@ == infobox_fraction_spec(window_height as int),
{
    if window_height <= INFOBOX_HEIGHT {
        Err(LayoutError::WindowTooShort)
    } else {
        Ok(Ratio { num: 2 * INFOBOX_HEIGHT as i128, den: window_height as i128 })
    }
}

/// The window's width over its height.
pub open spec fn window_aspect_spec(window: Extent) -> Frac {
    frac(window.width as int, window.height as int)
}

/// The image's width over the height it has above the info bar.
pub open spec fn image_aspect_spec(image: Extent) -> Frac {
    frac(image.width as int, image.height - INFOBOX_HEIGHT)
}

/// How much wider the image is than the window, in proportion:
/// the image's aspect over the window's.
pub open spec fn aspect_ratio_spec(window: Extent, image: Extent) -> Frac {
    image_aspect_spec(image).div(window_aspect_spec(window))
}

/// The window's proportions.
pub fn window_aspect(window: Extent) -> (r: Ratio)
    requires
        window.height > 0,
    ensures
        r@ == window_aspect_spec(window),
        r@.wf(),
{
    Ratio { num: window.width as i128, den: window.height as i128 }
}

/// The image's proportions above the info bar. An image no taller than the
/// bar is refused.
pub fn image_aspect(image: Extent) -> (r: Result<Ratio, LayoutError>)
    ensures
        image.height <= INFOBOX_HEIGHT <==> r is Err,
        r matches Err(e) ==> e == LayoutError::ImageTooShort,
        r matches Ok(a) ==> a@ == image_aspect_spec(image) && a@.wf(),
{
    if image.height <= INFOBOX_HEIGHT {
        Err(LayoutError::ImageTooShort)
    } else {
        Ok(Ratio { num: image.width as i128, den: image.height as i128 - INFOBOX_HEIGHT as i128 })
    }
}

/// Bounds on products of pixel sizes, so that they fit in an `i128`.
proof fn lemma_pixel_products(x: int, y: int, z: int)
    requires
        0 <= x <= u32::MAX,
        0 <= y <= u32::MAX,
        0 <= z <= u32::MAX,
    ensures
        0 <= x * y <= u32::MAX * u32::MAX,
        0 <= x * y * z <= u32::MAX * u32::MAX * u32::MAX,
{
    assert(0 <= x * y <= u32::MAX * u32::MAX) by (nonlinear_arith)
        requires
            0 <= x <= u32::MAX,
            0 <= y <= u32::MAX,
    ;
    assert(0 <= (x * y) * z <= (u32::MAX * u32::MAX) * u32::MAX) by (nonlinear_arith)
        requires
            0 <= x * y <= u32::MAX * u32::MAX,
            0 <= z <= u32::MAX,
    ;
}

/// The image's aspect over the window's, `Iw * H / ((Ih - B) * W)`. An image
/// no taller than the info bar is refused.
pub fn aspect_ratio(window: Extent, image: Extent) -> (r: Result<Ratio, LayoutError>)
    requires
        window.width > 0,
    ensures
        image.height <= INFOBOX_HEIGHT <==> r is Err,
        r matches Err(e) ==> e == LayoutError::ImageTooShort,
        r matches Ok(a) ==> a@ == aspect_ratio_spec(window, image) && a@.wf(),
{
    if image.height <= INFOBOX_HEIGHT {
        return Err(LayoutError::ImageTooShort);
    }
    let shown: u32 = image.height - INFOBOX_HEIGHT;
    proof {
        lemma_pixel_products(image.width as int, window.height as int, 0);
        lemma_pixel_products(shown as int, window.width as int, 0);
        assert(shown as int * window.width as int > 0) by (nonlinear_arith)
            requires
                shown > 0,
                window.width > 0,
        ;
    }
    let num = image.width as i128 * window.height as i128;
    let den = shown as i128 * window.width as i128;
    Ok(Ratio { num, den })
}

/// Horizontal and vertical scale factors as fractions.
pub ghost struct ScalesModel {
    pub hscale: Frac,
    pub vscale: Frac,
}

/// Horizontal and vertical scale factors applied to the image quad.
#[derive(Clone, Copy, Debug, PartialEq, Eq)]
pub struct Scales {
    pub hscale: Ratio,
    pub vscale: Ratio,
}

impl View for Scales {
    type V = ScalesModel;

    open spec fn view(&self) -> ScalesModel {
        ScalesModel { hscale: self.hscale@, vscale: self.vscale@ }
    }
}

/// Letterbox or pillarbox: shrink the one axis on which the image overflows,
/// keep the other at scale one. An image relatively wider than the window
/// (`aspect >= 1`) gets `vscale = 1 / aspect`; otherwise `hscale = aspect`.
pub open spec fn fit_scales_spec(aspect: Frac) -> ScalesModel {
    if aspect.num >= aspect.den {
        ScalesModel { hscale: frac(1, 1), vscale: aspect.inv() }
    } else {
        ScalesModel { hscale: aspect, vscale: frac(1, 1) }
    }
}

/// The scales that fit an image of the given relative aspect into the window
/// without stretching it.
pub fn fit_scales(aspect: Ratio) -> (r: Scales)
    requires
        aspect@.wf(),
    ensures
        r@ == fit_scales_spec(aspect@),
        aspect.num < aspect.den ==> r.vscale@ == frac(1, 1) && r.hscale == aspect,
        aspect.num >= aspect.den ==> r.hscale@ == frac(1, 1) && r.vscale@ == aspect@.inv(),
{
    let one = Ratio { num: 1, den: 1 };
    if aspect.num >= aspect.den {
        Scales { hscale: one, vscale: Ratio { num: aspect.den, den: aspect.num } }
    } else {
        Scales { hscale: aspect, vscale: one }
    }
}

/// What remains of the vertical span above the info bar, `(2 - f) / 2` for the
/// bar's fraction `f`, written `(H - B) / H`.
pub open spec fn area_scale_spec(window_height: int) -> Frac {
    frac(window_height - INFOBOX_HEIGHT, window_height)
}

/// The image quad's placement as fractions.
pub ghost struct QuadTransformModel {
    pub hscale: Frac,
    pub vscale: Frac,
    pub y_offset: Frac,
}

/// Where the image quad, which spans the whole of device coordinates, is
/// drawn: scaled by `hscale` and `vscale` about the centre, then moved up by
/// `y_offset`.
#[derive(Clone, Copy, Debug, PartialEq, Eq)]
pub struct QuadTransform {
    pub hscale: Ratio,
    pub vscale: Ratio,
    pub y_offset: Ratio,
}

impl View for QuadTransform {
    type V = QuadTransformModel;

    open spec fn view(&self) -> QuadTransformModel {
        QuadTransformModel { hscale: self.hscale@, vscale: self.vscale@, y_offset: self.y_offset@ }
    }
}

/// The fitted scales, each reduced into the area above the info bar, and the
/// shift by half the bar's fraction, `B / H`.
pub open spec fn quad_transform_spec(window: Extent, image: Extent) -> QuadTransformModel {
    let fit = fit_scales_spec(aspect_ratio_spec(window, image));
    let area = area_scale_spec(window.height as int);
    QuadTransformModel {
        hscale: fit.hscale.mul(area),
        vscale: fit.vscale.mul(area),
        y_offset: frac(INFOBOX_HEIGHT as int, window.height as int),
    }
}

/// Which error, if any, a layout of this window and image meets: the
/// window's height is checked first.
pub open spec fn layout_error_spec(window: Extent, image: Extent) -> Option<LayoutError> {
    if window.height <= INFOBOX_HEIGHT {
        Some(LayoutError::WindowTooShort)
    } else if image.height <= INFOBOX_HEIGHT {
        Some(LayoutError::ImageTooShort)
    } else {
        None
    }
}

/// `r` is what laying out `image` in `window` gives.
pub open spec fn layout_outcome(
    window: Extent,
    image: Extent,
    r: Result<QuadTransform, LayoutError>,
) -> bool {
    match r {
        Ok(t) => layout_error_spec(window, image) is None && t@ == quad_transform_spec(window, image),
        Err(e) => layout_error_spec(window, image) == Some(e),
    }
}

/// Places the image quad in the window: undistorted, as large as fits, and
/// above the info bar. A window or an image no taller than the bar is refused.
pub fn quad_transform(window: Extent, image: Extent) -> (r: Result<QuadTransform, LayoutError>)
    requires
        window.width > 0,
        image.width > 0,
    ensures
        layout_outcome(window, image, r),
{
    if window.height <= INFOBOX_HEIGHT {
        return Err(LayoutError::WindowTooShort);
    }
    let aspect = match aspect_ratio(window, image) {
        Ok(a) => a,
        Err(e) => return Err(e),
    };
    let fit = fit_scales(aspect);
    let h = window.height as i128;
    let above = (window.height - INFOBOX_HEIGHT) as i128;
    proof {
        let an = image.width as int * window.height as int;
        let ad = (image.height - INFOBOX_HEIGHT) as int * window.width as int;
        lemma_pixel_products(image.width as int, window.height as int, above as int);
        lemma_pixel_products(image.width as int, window.height as int, h as int);
        lemma_pixel_products((image.height - INFOBOX_HEIGHT) as int, window.width as int, above as int);
        lemma_pixel_products((image.height - INFOBOX_HEIGHT) as int, window.width as int, h as int);
    }
    let hscale = Ratio { num: fit.hscale.num * above, den: fit.hscale.den * h };
    let vscale = Ratio { num: fit.vscale.num * above, den: fit.vscale.den * h };
    let y_offset = Ratio { num: INFOBOX_HEIGHT as i128, den: h };
    Ok(QuadTransform { hscale, vscale, y_offset })
}

/// Laying out the same window and image twice gives the same placement: the
/// layout is a function of its inputs alone.
pub proof fn lemma_layout_deterministic(
    window: Extent,
    image: Extent,
    r1: Result<QuadTransform, LayoutError>,
    r2: Result<QuadTransform, LayoutError>,
)
    requires
        layout_outcome(window, image, r1),
        layout_outcome(window, image, r2),
    ensures
        r1 == r2,
{
    match (r1, r2) {
        (Ok(t1), Ok(t2)) => {
            assert(t1.hscale == t2.hscale);
            assert(t1.vscale == t2.vscale);
            assert(t1.y_offset == t2.y_offset);
        },
        _ => {},
    }
}

/// A layout that is not refused never degenerates: both scales are positive
/// and at most one (the image is never stretched), and the shift is positive.
pub proof fn lemma_accepted_layout_is_proper(
    window: Extent,
    image: Extent,
    r: Result<QuadTransform, LayoutError>,
)
    requires
        window.width > 0,
        image.width > 0,
        layout_outcome(window, image, r),
        r is Ok,
    ensures
        window.height > INFOBOX_HEIGHT,
        image.height > INFOBOX_HEIGHT,
        0 < r->Ok_0.hscale@.num <= r->Ok_0.hscale@.den,
        0 < r->Ok_0.vscale@.num <= r->Ok_0.vscale@.den,
        0 < r->Ok_0.y_offset@.num < r->Ok_0.y_offset@.den,
{
    let t = r->Ok_0;
    let h = window.height as int;
    let b = INFOBOX_HEIGHT as int;
    let an = image.width as int * h;
    let ad = (image.height - b) * window.width as int;
    assert(an > 0) by (nonlinear_arith)
        requires
            image.width > 0,
            h > 0,
            an == image.width as int * h,
    ;
    assert(ad > 0) by (nonlinear_arith)
        requires
            image.height - b > 0,
            window.width > 0,
            ad == (image.height - b) * window.width as int,
    ;
    let fit = fit_scales_spec(aspect_ratio_spec(window, image));
    assert(0 < fit.hscale.num <= fit.hscale.den);
    assert(0 < fit.vscale.num <= fit.vscale.den);
    lemma_scaled_proper(fit.hscale.num, fit.hscale.den, h - b, h);
    lemma_scaled_proper(fit.vscale.num, fit.vscale.den, h - b, h);
}

/// The product of two fractions in `(0, 1]` lies in `(0, 1]`.
proof fn lemma_scaled_proper(n1: int, d1: int, n2: int, d2: int)
    requires
        0 < n1 <= d1,
        0 < n2 <= d2,
    ensures
        0 < n1 * n2 <= d1 * d2,
{
    assert(0 < n1 * n2 <= d1 * d2) by (nonlinear_arith)
        requires
            0 < n1 <= d1,
            0 < n2 <= d2,
    ;
}

/// The quad's shift is half the info bar's fraction, and what remains above
/// the bar is `(2 - f) / 2` of the span, for the fraction `f = 2 * B / H`.
pub proof fn lemma_offset_and_area_from_infobox_fraction(window_height: int)
    requires
        window_height > 0,
    ensures
        frac(INFOBOX_HEIGHT as int, window_height).same_value(
            infobox_fraction_spec(window_height).div(frac(2, 1)),
        ),
        area_scale_spec(window_height).same_value(
            frac(2, 1).sub(infobox_fraction_spec(window_height)).div(frac(2, 1)),
        ),
{
    let h = window_height;
    let b = INFOBOX_HEIGHT as int;
    assert(b * (h * 2) == (2 * b * 1) * h) by (nonlinear_arith);
    assert((h - b) * (1 * h * 2) == ((2 * h - 2 * b * 1) * 1) * h) by (nonlinear_arith);
}

} // verus!
