use vstd::prelude::*;
use crate::geometry::Primitive;
use crate::layout::{Extent, LayoutError, infobox_fraction, infobox_fraction_spec, INFOBOX_HEIGHT};
use crate::ratio::Ratio;

verus! {

/// Draws one coloured rectangle. It holds the GPU handles of its shader
/// program and vertex array, and how to draw the vertices.
#[derive(Debug)]
pub struct RectangleRenderer {
    pub program: u32,
    pub vertex_array: u32,
    pub num_vertices: i32,
    pub primitive: Primitive,
}

impl RectangleRenderer {
    /// A renderer over a shader program and a vertex array already made.
    pub fn new(program: u32, vertex_array: u32, num_vertices: i32, primitive: Primitive) -> (r:
        RectangleRenderer)
        ensures
            r.program == program,
            r.vertex_array == vertex_array,
            r.num_vertices == num_vertices,
            r.primitive == primitive,
    {
        RectangleRenderer { program, vertex_array, num_vertices, primitive }
    }

    /// The info bar's fraction of the vertical span, as the shader's
    /// `infobox_height` takes it, after the window took a new size.
    pub fn on_window_resize(&self, window_size: Extent) -> (r: Result<Ratio, LayoutError>)
        ensures
            window_size.height <= INFOBOX_HEIGHT <==> r is Err,
            r matches Err(e) ==> e == LayoutError::WindowTooShort,
            r matches Ok(f) ==> f@ == infobox_fraction_spec(window_size.height as int),
    {
        infobox_fraction(window_size.height)
    }
}

} // verus!
