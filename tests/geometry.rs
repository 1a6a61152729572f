use tileset_view::geometry::{
    create_border_rectangle_vertex_data, create_solid_rectangle_vertex_data,
    create_textured_quad_vertex_data, create_vertex_data, Primitive, RectStyle, Rectangle,
};
use tileset_view::layout::{Extent, LayoutError};
use tileset_view::ratio::Ratio;
use tileset_view::rectangle_renderer::RectangleRenderer;

const COLOR: [f32; 4] = [1.0, 1.0, 0.2, 1.0];

#[test]
fn solid_rectangle_is_two_triangles() {
    let d = create_solid_rectangle_vertex_data([-0.75f32, -0.5, 0.75, 0.5], COLOR);
    assert_eq!(d.num_vertices, 6);
    assert_eq!(d.primitive, Primitive::Triangles);
    let corners: Vec<(f32, f32)> = d.vertices.chunks(6).map(|v| (v[0], v[1])).collect();
    assert_eq!(
        corners,
        vec![(-0.75, -0.5), (0.75, -0.5), (-0.75, 0.5), (-0.75, 0.5), (0.75, -0.5), (0.75, 0.5)]
    );
    for v in d.vertices.chunks(6) {
        assert_eq!(&v[2..], &COLOR[..]);
    }
}

#[test]
fn border_rectangle_is_a_loop_of_four() {
    let d = create_border_rectangle_vertex_data([1i32, 2, 3, 4], [5, 6, 7, 8]);
    assert_eq!(d.num_vertices, 4);
    assert_eq!(d.primitive, Primitive::LineLoop);
    assert_eq!(
        d.vertices,
        vec![1, 2, 5, 6, 7, 8, 3, 2, 5, 6, 7, 8, 3, 4, 5, 6, 7, 8, 1, 4, 5, 6, 7, 8]
    );
}

#[test]
fn rectangle_style_picks_the_geometry() {
    let solid = Rectangle { coords: [0u8, 0, 1, 1], color: [9, 9, 9, 9], style: RectStyle::Solid };
    let border = Rectangle { style: RectStyle::Border, ..solid };
    let s = create_vertex_data(solid);
    let b = create_vertex_data(border);
    assert_eq!((s.num_vertices, s.primitive, s.vertices.len()), (6, Primitive::Triangles, 36));
    assert_eq!((b.num_vertices, b.primitive, b.vertices.len()), (4, Primitive::LineLoop, 24));
}

#[test]
fn textured_quad_spans_device_coordinates() {
    let d = create_textured_quad_vertex_data();
    assert_eq!(d.num_vertices, 6);
    assert_eq!(d.vertices.len(), 24);
    assert_eq!(&d.vertices[..4], &[-1, 1, 0, 0]);
    assert_eq!(&d.vertices[20..], &[1, -1, 1, 1]);
}

#[test]
fn rectangle_renderer_on_window_resize() {
    let r = RectangleRenderer::new(1, 2, 6, Primitive::Triangles);
    assert_eq!((r.program, r.vertex_array, r.num_vertices), (1, 2, 6));
    assert_eq!(r.on_window_resize(Extent { width: 800, height: 600 }), Ok(Ratio { num: 64, den: 600 }));
    assert_eq!(r.on_window_resize(Extent { width: 800, height: 32 }), Err(LayoutError::WindowTooShort));
}
