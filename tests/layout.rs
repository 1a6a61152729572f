use tileset_view::layout::{
    aspect_ratio, fit_scales, image_aspect, infobox_fraction, quad_transform, window_aspect, Extent,
    LayoutError, INFOBOX_HEIGHT,
};
use tileset_view::ratio::Ratio;

fn value(r: Ratio) -> f64 {
    r.num as f64 / r.den as f64
}

fn close(a: f64, b: f64) -> bool {
    (a - b).abs() < 1e-4
}

fn ext(width: u32, height: u32) -> Extent {
    Extent { width, height }
}

#[test]
fn infobox_fraction_of_600_pixel_window() {
    let f = infobox_fraction(600).unwrap();
    assert_eq!(f, Ratio { num: 64, den: 600 });
    assert!(close(value(f), 0.10667));
}

#[test]
fn aspect_values_for_800_by_600_window_and_400_by_300_image() {
    let window = ext(800, 600);
    let image = ext(400, 300);
    let ia = image_aspect(image).unwrap();
    assert_eq!(ia, Ratio { num: 400, den: 268 });
    assert!(close(value(ia), 1.4925));
    let wa = window_aspect(window);
    assert!(close(value(wa), 1.3333));
    let a = aspect_ratio(window, image).unwrap();
    assert_eq!(a, Ratio { num: 240000, den: 214400 });
    assert!(close(value(a), 1.1194));
    let s = fit_scales(a);
    assert!(close(value(s.vscale), 0.8933));
    assert_eq!(value(s.hscale), 1.0);
}

#[test]
fn quad_transform_for_wide_image() {
    let t = quad_transform(ext(800, 600), ext(400, 300)).unwrap();
    let area = 568.0 / 600.0;
    assert_eq!(t.hscale, Ratio { num: 568, den: 600 });
    assert!(close(value(t.hscale), area));
    assert!(close(value(t.vscale), 214400.0 / 240000.0 * area));
    assert_eq!(t.y_offset, Ratio { num: 32, den: 600 });
}

#[test]
fn narrow_window_scales_horizontally() {
    let window = ext(1200, 600);
    let image = ext(400, 300);
    let a = aspect_ratio(window, image).unwrap();
    assert!(value(a) < 1.0);
    let s = fit_scales(a);
    assert_eq!(value(s.vscale), 1.0);
    assert_eq!(s.hscale, a);
    let t = quad_transform(window, image).unwrap();
    assert_eq!(t.vscale, Ratio { num: 568, den: 600 });
    assert!(close(value(t.hscale), value(a) * 568.0 / 600.0));
}

#[test]
fn square_fit_keeps_both_scales_at_one() {
    let s = fit_scales(Ratio { num: 5, den: 5 });
    assert_eq!(value(s.hscale), 1.0);
    assert_eq!(value(s.vscale), 1.0);
}

#[test]
fn layout_twice_gives_same_result() {
    let window = ext(1024, 768);
    let image = ext(512, 512);
    assert_eq!(quad_transform(window, image), quad_transform(window, image));
    assert_eq!(infobox_fraction(768), infobox_fraction(768));
}

#[test]
fn window_no_taller_than_bar_is_refused() {
    assert_eq!(infobox_fraction(INFOBOX_HEIGHT), Err(LayoutError::WindowTooShort));
    assert_eq!(infobox_fraction(10), Err(LayoutError::WindowTooShort));
    assert_eq!(infobox_fraction(0), Err(LayoutError::WindowTooShort));
    assert!(infobox_fraction(INFOBOX_HEIGHT + 1).is_ok());
    assert_eq!(
        quad_transform(ext(800, 32), ext(400, 300)),
        Err(LayoutError::WindowTooShort)
    );
    assert_eq!(
        quad_transform(ext(800, 20), ext(400, 20)),
        Err(LayoutError::WindowTooShort)
    );
}

#[test]
fn image_no_taller_than_bar_is_refused() {
    assert_eq!(image_aspect(ext(400, 32)), Err(LayoutError::ImageTooShort));
    assert_eq!(aspect_ratio(ext(800, 600), ext(400, 32)), Err(LayoutError::ImageTooShort));
    assert_eq!(
        quad_transform(ext(800, 600), ext(400, 10)),
        Err(LayoutError::ImageTooShort)
    );
}

#[test]
fn accepted_layout_scales_are_in_unit_range() {
    for &(w, h, iw, ih) in &[(800, 600, 400, 300), (33, 33, 1, 33), (1, 4000, 4000, 40), (u32::MAX, u32::MAX, u32::MAX, u32::MAX)] {
        let t = quad_transform(ext(w, h), ext(iw, ih)).unwrap();
        for r in [t.hscale, t.vscale] {
            assert!(r.num > 0 && r.num <= r.den);
        }
        assert!(t.y_offset.num > 0 && t.y_offset.num < t.y_offset.den);
    }
}

#[test]
fn largest_sizes_do_not_overflow() {
    let m = u32::MAX;
    let t = quad_transform(ext(m, m), ext(m, m)).unwrap();
    let shown = (m - INFOBOX_HEIGHT) as i128;
    assert_eq!(t.hscale, Ratio { num: shown, den: m as i128 });
    assert_eq!(t.vscale.num, shown * m as i128 * shown);
    assert_eq!(t.vscale.den, m as i128 * m as i128 * m as i128);
}
