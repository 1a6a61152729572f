use vstd::prelude::*;

verus! {

/// How the GPU joins consecutive vertices.
#[derive(Clone, Copy, Debug, PartialEq, Eq)]
pub enum Primitive {
    /// Every three vertices make a filled triangle.
    Triangles,
    /// The vertices are joined in order by lines, the last back to the first.
    LineLoop,
}

/// Whether a rectangle is filled or outlined.
#[derive(Clone, Copy, Debug, PartialEq, Eq)]
pub enum RectStyle {
    Solid,
    Border,
}

/// A rectangle to draw: corners `[x1, y1, x2, y2]` in device coordinates, an
/// RGBA colour and a style. `T` is the number type the GPU is handed.
#[derive(Clone, Copy, Debug)]
pub struct Rectangle<T> {
    pub coords: [T; 4],
    pub color: [T; 4],
    pub style: RectStyle,
}

/// Interleaved vertex data ready to upload, with how to draw it.
#[derive(Clone, Debug)]
pub struct VertexData<T> {
    pub vertices: Vec<T>,
    pub num_vertices: i32,
    pub primitive: Primitive,
}

/// Numbers per vertex of a coloured rectangle: a position, then a colour.
pub const COLOURED_VERTEX_LEN: usize = 6;

/// Numbers per vertex of the textured quad: a position, then a texture
/// coordinate.
pub const TEXTURED_VERTEX_LEN: usize = 4;

/// One coloured vertex: `x, y, r, g, b, a`.
pub open spec fn coloured_vertex<T>(x: T, y: T, color: [T; 4]) -> Seq<T> {
    seq![x, y, color@[0], color@[1], color@[2], color@[3]]
}

/// A filled rectangle as two triangles: top left, top right, bottom left,
/// then bottom left, top right, bottom right.
pub open spec fn solid_rectangle_spec<T>(coords: [T; 4], color: [T; 4]) -> Seq<T> {
    let (x1, y1, x2, y2) = (coords@[0], coords@[1], coords@[2], coords@[3]);
    coloured_vertex(x1, y1, color) + coloured_vertex(x2, y1, color) + coloured_vertex(x1, y2, color)
        + coloured_vertex(x1, y2, color) + coloured_vertex(x2, y1, color) + coloured_vertex(
        x2,
        y2,
        color,
    )
}

/// An outlined rectangle as a loop through its four corners.
pub open spec fn border_rectangle_spec<T>(coords: [T; 4], color: [T; 4]) -> Seq<T> {
    let (x1, y1, x2, y2) = (coords@[0], coords@[1], coords@[2], coords@[3]);
    coloured_vertex(x1, y1, color) + coloured_vertex(x2, y1, color) + coloured_vertex(x2, y2, color)
        + coloured_vertex(x1, y2, color)
}

/// The vertex data of a rectangle in the given style.
pub open spec fn rectangle_vertices_spec<T>(rect: Rectangle<T>) -> Seq<T> {
    match rect.style {
        RectStyle::Solid => solid_rectangle_spec(rect.coords, rect.color),
        RectStyle::Border => border_rectangle_spec(rect.coords, rect.color),
    }
}

/// Appends one coloured vertex.
fn push_coloured_vertex<T: Copy>(vertices: &mut Vec<T>, x: T, y: T, color: [T; 4])
    ensures
        final(vertices)@ == old(vertices)@ + coloured_vertex(x, y, color),
{
    vertices.push(x);
    vertices.push(y);
    vertices.push(color[0]);
    vertices.push(color[1]);
    vertices.push(color[2]);
    vertices.push(color[3]);
    assert(final(vertices)@ =~= old(vertices)@ + coloured_vertex(x, y, color));
}

/// A filled rectangle: six vertices drawn as two triangles.
pub fn create_solid_rectangle_vertex_data<T: Copy>(coords: [T; 4], color: [T; 4]) -> (r:
    VertexData<T>)
    ensures
        r.vertices@ == solid_rectangle_spec(coords, color),
        r.vertices@.len() == r.num_vertices * COLOURED_VERTEX_LEN,
        r.num_vertices == 6,
        r.primitive == Primitive::Triangles,
{
    let mut vertices: Vec<T> = Vec::new();
    push_coloured_vertex(&mut vertices, coords[0], coords[1], color);
    push_coloured_vertex(&mut vertices, coords[2], coords[1], color);
    push_coloured_vertex(&mut vertices, coords[0], coords[3], color);
    push_coloured_vertex(&mut vertices, coords[0], coords[3], color);
    push_coloured_vertex(&mut vertices, coords[2], coords[1], color);
    push_coloured_vertex(&mut vertices, coords[2], coords[3], color);
    VertexData { vertices, num_vertices: 6, primitive: Primitive::Triangles }
}

/// An outlined rectangle: four vertices drawn as a closed loop of lines.
pub fn create_border_rectangle_vertex_data<T: Copy>(coords: [T; 4], color: [T; 4]) -> (r:
    VertexData<T>)
    ensures
        r.vertices@ == border_rectangle_spec(coords, color),
        r.vertices@.len() == r.num_vertices * COLOURED_VERTEX_LEN,
        r.num_vertices == 4,
        r.primitive == Primitive::LineLoop,
{
    let mut vertices: Vec<T> = Vec::new();
    push_coloured_vertex(&mut vertices, coords[0], coords[1], color);
    push_coloured_vertex(&mut vertices, coords[2], coords[1], color);
    push_coloured_vertex(&mut vertices, coords[2], coords[3], color);
    push_coloured_vertex(&mut vertices, coords[0], coords[3], color);
    VertexData { vertices, num_vertices: 4, primitive: Primitive::LineLoop }
}

/// The vertex data of a rectangle, filled or outlined as its style says.
pub fn create_vertex_data<T: Copy>(rectangle: Rectangle<T>) -> (r: VertexData<T>)
    ensures
        r.vertices@ == rectangle_vertices_spec(rectangle),
        r.vertices@.len() == r.num_vertices * COLOURED_VERTEX_LEN,
        r.primitive == (match rectangle.style {
            RectStyle::Solid => Primitive::Triangles,
            RectStyle::Border => Primitive::LineLoop,
        }),
{
    match rectangle.style {
        RectStyle::Solid => create_solid_rectangle_vertex_data(rectangle.coords, rectangle.color),
        RectStyle::Border => create_border_rectangle_vertex_data(rectangle.coords, rectangle.color),
    }
}

/// The textured quad over the whole of device coordinates, as two triangles;
/// texture row 0 is at the top.
pub open spec fn textured_quad_spec() -> Seq<i8> {
    seq![
        -1i8, 1i8, 0i8, 0i8,
        1i8, 1i8, 1i8, 0i8,
        -1i8, -1i8, 0i8, 1i8,
        -1i8, -1i8, 0i8, 1i8,
        1i8, 1i8, 1i8, 0i8,
        1i8, -1i8, 1i8, 1i8,
    ]
}

/// The textured quad's six vertices: position, then texture coordinate.
pub fn create_textured_quad_vertex_data() -> (r: VertexData<i8>)
    ensures
        r.vertices@ == textured_quad_spec(),
        r.vertices@.len() == r.num_vertices * TEXTURED_VERTEX_LEN,
        r.num_vertices == 6,
        r.primitive == Primitive::Triangles,
{
    let vertices: Vec<i8> = vec![
        -1, 1, 0, 0,
        1, 1, 1, 0,
        -1, -1, 0, 1,
        -1, -1, 0, 1,
        1, 1, 1, 0,
        1, -1, 1, 1,
    ];
    assert(vertices@ =~= textured_quad_spec());
    VertexData { vertices, num_vertices: 6, primitive: Primitive::Triangles }
}

} // verus!
