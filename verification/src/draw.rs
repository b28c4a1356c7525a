//! The description of one frame, as the GUI library hands it over.
//!
//! A frame is an ordered list of draw batches. Each batch has one vertex
//! stream, one index stream and an ordered list of commands that draw
//! ranges of the index stream.

use vstd::prelude::*;
use crate::layout::Vertex;

verus! {

/// The identifier under which the GUI library knows a texture.
///
/// The renderer hands the GUI library such an identifier for every texture
/// it creates, and the GUI library hands it back in the draw commands that
/// use the texture.
#[derive(Clone, Copy, Debug, PartialEq, Eq, Structural)]
pub struct TextureId {
    pub id: usize,
}

impl TextureId {
    /// The name of the texture object that the identifier stands for: its
    /// low 32 bits.
    pub open spec fn spec_texture(self) -> u32 {
        (self.id as int % 0x1_0000_0000) as u32
    }

    /// The identifier for the texture object named `texture`.
    pub fn from_texture(texture: u32) -> (id: TextureId)
        ensures
            id.id == texture,
            id.spec_texture() == texture,
    {
        TextureId { id: texture as usize }
    }

    /// The name of the texture object that the identifier stands for.
    pub fn texture(self) -> (texture: u32)
        ensures
            texture == self.spec_texture(),
    {
        ((self.id as u64) % 0x1_0000_0000) as u32
    }
}

/// A rectangle of the framebuffer, measured in pixels from the lower left
/// corner of the framebuffer: bit patterns of the coordinates of its own
/// lower left corner and of its size.
#[derive(Clone, Copy, Debug, PartialEq, Eq, Structural)]
pub struct ScissorRect {
    pub x: u32,
    pub y: u32,
    pub width: u32,
    pub height: u32,
}

/// One command of a draw batch.
#[derive(Clone, Copy, Debug, PartialEq, Eq, Structural)]
pub enum DrawCommand {
    /// Draws `count` indices as a list of triangles, starting with the
    /// index at `idx_offset`, textured with `texture_id` and confined to
    /// the whole pixels of `scissor`.
    Elements { count: u32, scissor: ScissorRect, texture_id: TextureId, idx_offset: u32 },
    /// Asks the renderer to restore its render state.
    ResetRenderState,
    /// Asks the renderer to run a callback of the application.
    RawCallback,
}

/// A vertex stream, an index stream and the commands that draw from them.
#[derive(Clone, Debug, PartialEq, Eq)]
pub struct DrawBatch {
    pub vertices: Vec<Vertex>,
    pub indices: Vec<u16>,
    pub commands: Vec<DrawCommand>,
}

/// The mathematical value of a [`DrawBatch`].
pub struct DrawBatchView {
    pub vertices: Seq<Vertex>,
    pub indices: Seq<u16>,
    pub commands: Seq<DrawCommand>,
}

impl View for DrawBatch {
    type V = DrawBatchView;

    open spec fn view(&self) -> DrawBatchView {
        DrawBatchView {
            vertices: self.vertices@,
            indices: self.indices@,
            commands: self.commands@,
        }
    }
}

/// The bit pattern of the number one.
pub const ONE: u32 = 0x3F80_0000;

/// The bit pattern of the number minus one.
pub const MINUS_ONE: u32 = 0xBF80_0000;

/// The sixteen entries, column by column, of the matrix that takes a point
/// `(x, y, z, 1)` of UI space to `(x_scale * x - 1, y_scale * y + 1, -z, 1)`.
pub open spec fn projection_entries(x_scale: u32, y_scale: u32) -> Seq<u32> {
    seq![
        x_scale, 0, 0, 0,
        0, y_scale, 0, 0,
        0, 0, MINUS_ONE, 0,
        MINUS_ONE, ONE, 0, ONE,
    ]
}

/// The orthographic projection from UI space to normalized device
/// coordinates, for the given bit patterns of the two scale factors.
///
/// With two over the display width as `x_scale` and minus two over the
/// display height as `y_scale`, the matrix takes the upper left corner of
/// the display to `(-1, 1)` and the lower right corner to `(1, -1)`.
pub fn projection(x_scale: u32, y_scale: u32) -> (matrix: [u32; 16])
    ensures
        matrix@ == projection_entries(x_scale, y_scale),
{
    let matrix: [u32; 16] = [
        x_scale, 0, 0, 0,
        0, y_scale, 0, 0,
        0, 0, MINUS_ONE, 0,
        MINUS_ONE, ONE, 0, ONE,
    ];
    assert(matrix@ =~= projection_entries(x_scale, y_scale));
    matrix
}

/// Everything needed to draw one frame.
#[derive(Clone, Debug, PartialEq, Eq)]
pub struct DrawData {
    /// Bit pattern of the width of the framebuffer in pixels.
    pub framebuffer_width: u32,
    /// Bit pattern of the height of the framebuffer in pixels.
    pub framebuffer_height: u32,
    /// Bit pattern of two over the display width.
    pub x_scale: u32,
    /// Bit pattern of minus two over the display height.
    pub y_scale: u32,
    /// The draw batches, in drawing order.
    pub batches: Vec<DrawBatch>,
}

/// The mathematical value of a [`DrawData`].
pub struct DrawDataView {
    pub framebuffer_width: u32,
    pub framebuffer_height: u32,
    pub x_scale: u32,
    pub y_scale: u32,
    pub batches: Seq<DrawBatchView>,
}

impl View for DrawData {
    type V = DrawDataView;

    open spec fn view(&self) -> DrawDataView {
        DrawDataView {
            framebuffer_width: self.framebuffer_width,
            framebuffer_height: self.framebuffer_height,
            x_scale: self.x_scale,
            y_scale: self.y_scale,
            batches: self.batches@.map_values(|batch: DrawBatch| batch@),
        }
    }
}

} // verus!
