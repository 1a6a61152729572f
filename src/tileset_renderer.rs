use vstd::prelude::*;
use crate::layout::{Extent, LayoutError, QuadTransform, layout_outcome, quad_transform};
use crate::ratio::Ratio;
use crate::render_area::{Rect, rect_to_ndc_spec, rect_view, render_area_to_ndc};

verus! {

/// Draws the tileset image as one textured quad. It holds the GPU handles of
/// its shader program, vertex array and texture, and the image's size.
#[derive(Debug)]
pub struct TilesetRenderer {
    pub program: u32,
    pub vertex_array: u32,
    pub texture: u32,
    pub image_size: Extent,
}

impl TilesetRenderer {
    /// The image has some width, so that it can be laid out.
    pub open spec fn wf(&self) -> bool {
        self.image_size.width > 0
    }

    /// A renderer over GPU objects already made and an image already loaded.
    pub fn new(program: u32, vertex_array: u32, texture: u32, image_size: Extent) -> (r:
        TilesetRenderer)
        requires
            image_size.width > 0,
        ensures
            r.wf(),
            r.program == program,
            r.vertex_array == vertex_array,
            r.texture == texture,
            r.image_size == image_size,
    {
        TilesetRenderer { program, vertex_array, texture, image_size }
    }

    /// The placement of the image quad after the window took a new size.
    pub fn on_window_resize(&self, window_size: Extent) -> (r: Result<QuadTransform, LayoutError>)
        requires
            self.wf(),
            window_size.width > 0,
        ensures
            layout_outcome(window_size, self.image_size, r),
    {
        quad_transform(window_size, self.image_size)
    }

    /// The render area, given in the window's pixels, in device coordinates,
    /// as the shader's `render_area` takes it.
    pub fn set_render_area(&self, window_size: Extent, render_area: Rect<u32>) -> (r: Rect<Ratio>)
        requires
            window_size.width > 0,
            window_size.height > 0,
        ensures
            rect_view(r) == rect_to_ndc_spec(window_size, render_area),
    {
        render_area_to_ndc(window_size, render_area)
    }
}

} // verus!
