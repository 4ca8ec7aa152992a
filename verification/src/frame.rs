//! What one frame consists of: the render pass and its draw calls.

use vstd::prelude::*;
use crate::surface::TextureFormat;

verus! {

/// A colour, each channel in tenths: 0 is none of it, 10 is all of it.
#[derive(Clone, Copy, Debug, PartialEq, Eq, Structural)]
pub struct Color {
    pub r: u8,
    pub g: u8,
    pub b: u8,
    pub a: u8,
}

/// What happens to an attachment when a render pass begins.
#[derive(Clone, Copy, Debug, PartialEq, Eq, Structural)]
pub enum LoadOp {
    /// Every pixel is set to this colour.
    Clear(Color),
    /// The pixels keep what they held.
    Load,
}

/// What happens to an attachment when a render pass ends.
#[derive(Clone, Copy, Debug, PartialEq, Eq, Structural)]
pub enum StoreOp {
    /// What was drawn is written back.
    Store,
    /// What was drawn is dropped.
    Discard,
}

/// A colour target of a render pass: a view of the frame's texture, read in
/// `format`.
#[derive(Clone, Copy, Debug, PartialEq, Eq, Structural)]
pub struct ColorAttachment {
    pub format: TextureFormat,
    pub load: LoadOp,
    pub store: StoreOp,
}

/// The indices from `start` up to and excluding `end`.
#[derive(Clone, Copy, Debug, PartialEq, Eq, Structural)]
pub struct Span {
    pub start: u32,
    pub end: u32,
}

/// One draw call: the vertices and the instances that it runs over.
#[derive(Clone, Copy, Debug, PartialEq, Eq, Structural)]
pub struct DrawCall {
    pub vertices: Span,
    pub instances: Span,
}

/// One frame: a single render pass with its colour attachments, and the draw
/// calls recorded in it, in order.
#[derive(Debug, PartialEq, Eq)]
pub struct Frame {
    pub color_attachments: Vec<ColorAttachment>,
    pub draws: Vec<DrawCall>,
}

/// The colour behind the triangle: one tenth of red, two of green, three of
/// blue, opaque.
pub open spec fn background() -> Color {
    Color { r: 1, g: 2, b: 3, a: 10 }
}

/// The one attachment of a frame: the surface texture viewed as
/// `Bgra8UnormSrgb`, cleared to the background, kept after the pass.
pub open spec fn triangle_attachment() -> ColorAttachment {
    ColorAttachment {
        format: TextureFormat::Bgra8UnormSrgb,
        load: LoadOp::Clear(background()),
        store: StoreOp::Store,
    }
}

/// The one draw call of a frame: three vertices, one instance.
pub open spec fn triangle_draw() -> DrawCall {
    DrawCall { vertices: Span { start: 0, end: 3 }, instances: Span { start: 0, end: 1 } }
}

impl Frame {
    /// Whether this frame is the triangle: exactly one attachment and exactly
    /// one draw call, the two above.
    pub open spec fn is_triangle(self) -> bool {
        &&& self.color_attachments@ =~= seq![triangle_attachment()]
        &&& self.draws@ =~= seq![triangle_draw()]
    }

    /// The frame that shows the triangle.
    pub fn triangle() -> (frame: Self)
        ensures
            frame.is_triangle(),
    {
        let clear = Color { r: 1, g: 2, b: 3, a: 10 };
        let attachment = ColorAttachment {
            format: TextureFormat::Bgra8UnormSrgb,
            load: LoadOp::Clear(clear),
            store: StoreOp::Store,
        };
        let draw = DrawCall {
            vertices: Span { start: 0, end: 3 },
            instances: Span { start: 0, end: 1 },
        };
        Frame { color_attachments: vec![attachment], draws: vec![draw] }
    }
}

} // verus!
