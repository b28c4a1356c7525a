//! The renderer: the GPU objects it owns and the calls that draw a frame.

use vstd::prelude::*;
use vstd::string::StringExecFns;
use crate::draw::{
    projection, projection_entries, DrawBatch, DrawBatchView, DrawCommand, DrawData, DrawDataView,
    TextureId,
};
use crate::gl::{
    call_views, GlCall, GlCallView, ARRAY_BUFFER, BLEND, CULL_FACE, DEPTH_TEST,
    ELEMENT_ARRAY_BUFFER, FILL, FLOAT, FRONT_AND_BACK, FUNC_ADD, ONE_MINUS_SRC_ALPHA,
    SCISSOR_TEST, SRC_ALPHA, STREAM_DRAW, TEXTURE0, TEXTURE_2D, TRIANGLES, UNSIGNED_BYTE,
    UNSIGNED_SHORT,
};
use crate::layout::{
    encode_indices, encode_vertices, indices_bytes, vertices_bytes, COLOR_OFFSET, INDEX_SIZE,
    POSITION_OFFSET, UV_OFFSET, VERTEX_SIZE,
};
use crate::pixel::{pixel_of, to_pixel};
use crate::setup::{FontTexture, Setup, Step};

verus! {

/// Where the shader program keeps its uniforms and vertex attributes.
#[derive(Clone, Copy, Debug, PartialEq, Eq, Structural)]
pub struct Locs {
    pub texture: u32,
    pub proj_mtx: u32,
    pub position: u32,
    pub uv: u32,
    pub color: u32,
}

/// The GPU objects that draw the GUI.
#[derive(Debug, PartialEq, Eq, Structural)]
pub struct Renderer {
    /// The linked shader program.
    pub program: u32,
    pub locs: Locs,
    /// The buffer that receives each batch's vertex stream.
    pub vbo: u32,
    /// The buffer that receives each batch's index stream.
    pub ebo: u32,
    /// The texture that holds the font atlas.
    pub font_texture: u32,
}

/// Why the renderer does not carry out a draw command.
#[derive(Clone, Copy, Debug, PartialEq, Eq, Structural)]
pub enum Unsupported {
    /// The command asks to reset the render state.
    ResetRenderState,
    /// The command asks to run a callback of the application.
    RawCallback,
}

/// The first draw command of a frame that the renderer does not carry out.
#[derive(Clone, Copy, Debug, PartialEq, Eq, Structural)]
pub struct RenderError {
    /// Position of the batch among the batches of the frame.
    pub batch: usize,
    /// Position of the command among the commands of the batch.
    pub command: usize,
    pub kind: Unsupported,
}

impl RenderError {
    /// The diagnostic for the error.
    pub open spec fn spec_message(self) -> Seq<char> {
        match self.kind {
            Unsupported::ResetRenderState => "Resetting the render state is not supported"@,
            Unsupported::RawCallback => "User callbacks are not supported"@,
        }
    }

    /// The diagnostic for the error.
    pub fn message(&self) -> (message: String)
        ensures
            message@ == self.spec_message(),
    {
        match self.kind {
            Unsupported::ResetRenderState => String::from_str(
                "Resetting the render state is not supported",
            ),
            Unsupported::RawCallback => String::from_str("User callbacks are not supported"),
        }
    }
}

/// Why the renderer does not carry out `command`, if it does not.
pub open spec fn unsupported_kind(command: DrawCommand) -> Option<Unsupported> {
    match command {
        DrawCommand::Elements { .. } => None,
        DrawCommand::ResetRenderState => Some(Unsupported::ResetRenderState),
        DrawCommand::RawCallback => Some(Unsupported::RawCallback),
    }
}

/// Whether the renderer carries out `command`.
pub open spec fn supported(command: DrawCommand) -> bool {
    unsupported_kind(command) is None
}

/// Whether the renderer carries out every command of every batch.
pub open spec fn all_supported(batches: Seq<DrawBatchView>) -> bool {
    forall|k: int, j: int|
        0 <= k < batches.len() && 0 <= j < batches[k].commands.len() ==> supported(
            #[trigger] batches[k].commands[j],
        )
}

/// Whether command `j` of batch `k` is the first command, in drawing order,
/// that the renderer does not carry out.
pub open spec fn first_unsupported(batches: Seq<DrawBatchView>, k: int, j: int) -> bool {
    &&& 0 <= k < batches.len()
    &&& 0 <= j < batches[k].commands.len()
    &&& !supported(batches[k].commands[j])
    &&& forall|j2: int| 0 <= j2 < j ==> supported(#[trigger] batches[k].commands[j2])
    &&& all_supported(batches.take(k))
}

/// The calls that carry out one draw command.
pub open spec fn command_calls(command: DrawCommand) -> Seq<GlCallView> {
    match command {
        DrawCommand::Elements { count, scissor, texture_id, idx_offset } => seq![
            GlCallView::BindTexture { target: TEXTURE_2D, texture: texture_id.spec_texture() },
            GlCallView::Scissor {
                x: pixel_of(scissor.x) as i32,
                y: pixel_of(scissor.y) as i32,
                width: pixel_of(scissor.width) as i32,
                height: pixel_of(scissor.height) as i32,
            },
            GlCallView::DrawElements {
                mode: TRIANGLES,
                count,
                element_type: UNSIGNED_SHORT,
                offset: (idx_offset * INDEX_SIZE) as u64,
            },
        ],
        _ => Seq::empty(),
    }
}

/// The calls that carry out a list of draw commands, in order.
pub open spec fn commands_calls(commands: Seq<DrawCommand>) -> Seq<GlCallView>
    decreases commands.len(),
{
    if commands.len() == 0 {
        Seq::empty()
    } else {
        commands_calls(commands.drop_last()) + command_calls(commands.last())
    }
}

/// The calls that replace the contents of both buffers with the streams of
/// `batch`.
pub open spec fn upload_calls(r: Renderer, batch: DrawBatchView) -> Seq<GlCallView> {
    seq![
        GlCallView::BindBuffer { target: ARRAY_BUFFER, buffer: r.vbo },
        GlCallView::BufferData {
            target: ARRAY_BUFFER,
            data: vertices_bytes(batch.vertices),
            usage: STREAM_DRAW,
        },
        GlCallView::BindBuffer { target: ELEMENT_ARRAY_BUFFER, buffer: r.ebo },
        GlCallView::BufferData {
            target: ELEMENT_ARRAY_BUFFER,
            data: indices_bytes(batch.indices),
            usage: STREAM_DRAW,
        },
    ]
}

/// The calls that draw one batch: the upload of its streams, then its
/// commands.
pub open spec fn batch_calls(r: Renderer, batch: DrawBatchView) -> Seq<GlCallView> {
    upload_calls(r, batch) + commands_calls(batch.commands)
}

/// The calls that draw a list of batches, in order.
pub open spec fn batches_calls(r: Renderer, batches: Seq<DrawBatchView>) -> Seq<GlCallView>
    decreases batches.len(),
{
    if batches.len() == 0 {
        Seq::empty()
    } else {
        batches_calls(r, batches.drop_last()) + batch_calls(r, batches.last())
    }
}

/// The calls that open a frame: the fixed render state, the viewport, the
/// program with its uniforms, and the vertex array with the vertex layout.
pub open spec fn state_calls(r: Renderer, vertex_array: u32, data: DrawDataView) -> Seq<
    GlCallView,
> {
    seq![
        GlCallView::ActiveTexture { unit: TEXTURE0 },
        GlCallView::Enable { parameter: BLEND },
        GlCallView::BlendEquation { mode: FUNC_ADD },
        GlCallView::BlendFunc { src: SRC_ALPHA, dst: ONE_MINUS_SRC_ALPHA },
        GlCallView::Disable { parameter: CULL_FACE },
        GlCallView::Disable { parameter: DEPTH_TEST },
        GlCallView::Enable { parameter: SCISSOR_TEST },
        GlCallView::PolygonMode { face: FRONT_AND_BACK, mode: FILL },
        GlCallView::Viewport {
            x: 0,
            y: 0,
            width: pixel_of(data.framebuffer_width) as i32,
            height: pixel_of(data.framebuffer_height) as i32,
        },
        GlCallView::UseProgram { program: r.program },
        GlCallView::Uniform1i { location: r.locs.texture, value: 0 },
        GlCallView::UniformMatrix4 {
            location: r.locs.proj_mtx,
            transpose: false,
            matrix: projection_entries(data.x_scale, data.y_scale),
        },
        GlCallView::BindSampler { unit: 0, sampler: 0 },
        GlCallView::BindVertexArray { vertex_array },
        GlCallView::BindBuffer { target: ARRAY_BUFFER, buffer: r.vbo },
        GlCallView::EnableVertexAttribArray { index: r.locs.position },
        GlCallView::EnableVertexAttribArray { index: r.locs.uv },
        GlCallView::EnableVertexAttribArray { index: r.locs.color },
        GlCallView::VertexAttribPointer {
            index: r.locs.position,
            size: 2,
            data_type: FLOAT,
            normalized: false,
            stride: VERTEX_SIZE as i32,
            offset: POSITION_OFFSET as i32,
        },
        GlCallView::VertexAttribPointer {
            index: r.locs.uv,
            size: 2,
            data_type: FLOAT,
            normalized: false,
            stride: VERTEX_SIZE as i32,
            offset: UV_OFFSET as i32,
        },
        GlCallView::VertexAttribPointer {
            index: r.locs.color,
            size: 4,
            data_type: UNSIGNED_BYTE,
            normalized: true,
            stride: VERTEX_SIZE as i32,
            offset: COLOR_OFFSET as i32,
        },
    ]
}

/// The calls that close a frame.
pub open spec fn end_calls(vertex_array: u32) -> Seq<GlCallView> {
    seq![GlCallView::DeleteVertexArray { vertex_array }]
}

/// The calls that draw a frame.
pub open spec fn frame_calls(r: Renderer, vertex_array: u32, data: DrawDataView) -> Seq<
    GlCallView,
> {
    state_calls(r, vertex_array, data) + batches_calls(r, data.batches) + end_calls(vertex_array)
}

/// Appends `call` to `plan`.
fn emit(plan: &mut Vec<GlCall>, call: GlCall)
    ensures
        call_views(final(plan)@) == call_views(old(plan)@).push(call@),
{
    plan.push(call);
    assert(call_views(plan@) =~= call_views(old(plan)@).push(call@));
}

/// The calls that release the objects of a renderer.
pub open spec fn teardown_calls(r: Renderer) -> Seq<GlCallView> {
    seq![
        GlCallView::DeleteBuffer { buffer: r.vbo },
        GlCallView::DeleteBuffer { buffer: r.ebo },
        GlCallView::DeleteProgram { program: r.program },
        GlCallView::DeleteTexture { texture: r.font_texture },
    ]
}

impl Renderer {
    /// Begins the creation of a renderer that draws text with the font
    /// atlas `font`.
    ///
    /// Creation needs the graphics context. The state that is returned
    /// names the calls to issue, one after the other (see [`Setup`]); the
    /// renderer comes with the answer to the last of them.
    pub fn new(font: FontTexture) -> (setup: Setup)
        ensures
            setup == Setup::first(font),
    {
        Setup {
            step: Step::CreateVertexArray,
            font,
            vertex_array: 0,
            program: 0,
            vertex_shader: 0,
            fragment_shader: 0,
            locs: Locs { texture: 0, proj_mtx: 0, position: 0, uv: 0, color: 0 },
            vbo: 0,
            ebo: 0,
            previous_texture: 0,
            font_texture: 0,
        }
    }

    /// The identifier to register with the GUI library for the font atlas.
    /// A draw command that carries it binds the font texture.
    pub fn font_texture_id(&self) -> (id: TextureId)
        ensures
            id.id == self.font_texture,
            id.spec_texture() == self.font_texture,
    {
        TextureId::from_texture(self.font_texture)
    }

    /// Gives the renderer up and yields the calls that release its buffers,
    /// its program and its font texture.
    pub fn teardown(self) -> (calls: Vec<GlCall>)
        ensures
            call_views(calls@) == teardown_calls(self),
    {
        let mut calls: Vec<GlCall> = Vec::new();
        emit(&mut calls, GlCall::DeleteBuffer { buffer: self.vbo });
        emit(&mut calls, GlCall::DeleteBuffer { buffer: self.ebo });
        emit(&mut calls, GlCall::DeleteProgram { program: self.program });
        emit(&mut calls, GlCall::DeleteTexture { texture: self.font_texture });
        assert(call_views(calls@) =~= teardown_calls(self));
        calls
    }

    /// Appends the calls that open a frame.
    fn emit_state(&self, plan: &mut Vec<GlCall>, vertex_array: u32, data: &DrawData)
        ensures
            call_views(final(plan)@) == call_views(old(plan)@) + state_calls(
                *self,
                vertex_array,
                data@,
            ),
    {
        emit(plan, GlCall::ActiveTexture { unit: TEXTURE0 });
        emit(plan, GlCall::Enable { parameter: BLEND });
        emit(plan, GlCall::BlendEquation { mode: FUNC_ADD });
        emit(plan, GlCall::BlendFunc { src: SRC_ALPHA, dst: ONE_MINUS_SRC_ALPHA });
        emit(plan, GlCall::Disable { parameter: CULL_FACE });
        emit(plan, GlCall::Disable { parameter: DEPTH_TEST });
        emit(plan, GlCall::Enable { parameter: SCISSOR_TEST });
        emit(plan, GlCall::PolygonMode { face: FRONT_AND_BACK, mode: FILL });
        emit(
            plan,
            GlCall::Viewport {
                x: 0,
                y: 0,
                width: to_pixel(data.framebuffer_width),
                height: to_pixel(data.framebuffer_height),
            },
        );
        emit(plan, GlCall::UseProgram { program: self.program });
        emit(plan, GlCall::Uniform1i { location: self.locs.texture, value: 0 });
        emit(
            plan,
            GlCall::UniformMatrix4 {
                location: self.locs.proj_mtx,
                transpose: false,
                matrix: projection(data.x_scale, data.y_scale),
            },
        );
        emit(plan, GlCall::BindSampler { unit: 0, sampler: 0 });
        emit(plan, GlCall::BindVertexArray { vertex_array });
        emit(plan, GlCall::BindBuffer { target: ARRAY_BUFFER, buffer: self.vbo });
        emit(plan, GlCall::EnableVertexAttribArray { index: self.locs.position });
        emit(plan, GlCall::EnableVertexAttribArray { index: self.locs.uv });
        emit(plan, GlCall::EnableVertexAttribArray { index: self.locs.color });
        emit(
            plan,
            GlCall::VertexAttribPointer {
                index: self.locs.position,
                size: 2,
                data_type: FLOAT,
                normalized: false,
                stride: VERTEX_SIZE as i32,
                offset: POSITION_OFFSET as i32,
            },
        );
        emit(
            plan,
            GlCall::VertexAttribPointer {
                index: self.locs.uv,
                size: 2,
                data_type: FLOAT,
                normalized: false,
                stride: VERTEX_SIZE as i32,
                offset: UV_OFFSET as i32,
            },
        );
        emit(
            plan,
            GlCall::VertexAttribPointer {
                index: self.locs.color,
                size: 4,
                data_type: UNSIGNED_BYTE,
                normalized: true,
                stride: VERTEX_SIZE as i32,
                offset: COLOR_OFFSET as i32,
            },
        );
        assert(call_views(plan@) =~= call_views(old(plan)@) + state_calls(
            *self,
            vertex_array,
            data@,
        ));
    }

    /// Appends the calls that upload the streams of `batch`.
    fn emit_upload(&self, plan: &mut Vec<GlCall>, batch: &DrawBatch)
        ensures
            call_views(final(plan)@) == call_views(old(plan)@) + upload_calls(*self, batch@),
    {
        emit(plan, GlCall::BindBuffer { target: ARRAY_BUFFER, buffer: self.vbo });
        emit(
            plan,
            GlCall::BufferData {
                target: ARRAY_BUFFER,
                data: encode_vertices(&batch.vertices),
                usage: STREAM_DRAW,
            },
        );
        emit(plan, GlCall::BindBuffer { target: ELEMENT_ARRAY_BUFFER, buffer: self.ebo });
        emit(
            plan,
            GlCall::BufferData {
                target: ELEMENT_ARRAY_BUFFER,
                data: encode_indices(&batch.indices),
                usage: STREAM_DRAW,
            },
        );
        assert(call_views(plan@) =~= call_views(old(plan)@) + upload_calls(*self, batch@));
    }

    /// Appends the calls that carry out the commands of batch `k`, or
    /// reports the first of them that is not supported.
    fn emit_commands(plan: &mut Vec<GlCall>, commands: &Vec<DrawCommand>, k: usize) -> (result:
        Result<(), RenderError>)
        ensures
            match result {
                Ok(()) => {
                    &&& forall|j: int| 0 <= j < commands.len() ==> supported(#[trigger] commands[j])
                    &&& call_views(final(plan)@) == call_views(old(plan)@) + commands_calls(
                        commands@,
                    )
                },
                Err(e) => {
                    &&& e.batch == k
                    &&& e.command < commands.len()
                    &&& unsupported_kind(commands[e.command as int]) == Some(e.kind)
                    &&& forall|j: int| 0 <= j < e.command ==> supported(#[trigger] commands[j])
                },
            },
    {
        let mut j: usize = 0;
        while j < commands.len()
            invariant
                j <= commands.len(),
                forall|j2: int| 0 <= j2 < j ==> supported(#[trigger] commands[j2]),
                call_views(plan@) == call_views(old(plan)@) + commands_calls(
                    commands@.take(j as int),
                ),
            decreases commands.len() - j,
        {
            let ghost before = call_views(plan@);
            match commands[j] {
                DrawCommand::Elements { count, scissor, texture_id, idx_offset } => {
                    emit(plan, GlCall::BindTexture { target: TEXTURE_2D, texture: texture_id.texture() });
                    emit(
                        plan,
                        GlCall::Scissor {
                            x: to_pixel(scissor.x),
                            y: to_pixel(scissor.y),
                            width: to_pixel(scissor.width),
                            height: to_pixel(scissor.height),
                        },
                    );
                    emit(
                        plan,
                        GlCall::DrawElements {
                            mode: TRIANGLES,
                            count,
                            element_type: UNSIGNED_SHORT,
                            offset: idx_offset as u64 * INDEX_SIZE as u64,
                        },
                    );
                },
                DrawCommand::ResetRenderState => {
                    return Err(
                        RenderError { batch: k, command: j, kind: Unsupported::ResetRenderState },
                    );
                },
                DrawCommand::RawCallback => {
                    return Err(RenderError { batch: k, command: j, kind: Unsupported::RawCallback });
                },
            }
            proof {
                assert(commands@.take(j + 1).drop_last() =~= commands@.take(j as int));
                assert(call_views(plan@) =~= before + command_calls(commands[j as int]));
            }
            j += 1;
        }
        proof {
            assert(commands@.take(j as int) =~= commands@);
        }
        Ok(())
    }

    /// Turns one frame into the calls that draw it.
    ///
    /// `vertex_array` names a vertex array object created for this frame; the
    /// calls bind it, describe the vertex layout in it and delete it at the
    /// end. The calls are to be issued in order, on the context that owns the
    /// renderer's objects.
    ///
    /// A frame with a command that the renderer does not carry out yields no
    /// calls at all, but the position and kind of the first such command.
    pub fn render(&self, vertex_array: u32, data: &DrawData) -> (result: Result<
        Vec<GlCall>,
        RenderError,
    >)
        ensures
            match result {
                Ok(plan) => {
                    &&& all_supported(data@.batches)
                    &&& call_views(plan@) == frame_calls(*self, vertex_array, data@)
                },
                Err(e) => {
                    &&& first_unsupported(data@.batches, e.batch as int, e.command as int)
                    &&& unsupported_kind(data@.batches[e.batch as int].commands[e.command as int])
                        == Some(e.kind)
                },
            },
            data@.batches.len() == 0 ==> (result matches Ok(plan) && call_views(plan@)
                == state_calls(*self, vertex_array, data@) + end_calls(vertex_array)),
    {
        let mut plan: Vec<GlCall> = Vec::new();
        self.emit_state(&mut plan, vertex_array, data);
        let mut k: usize = 0;
        while k < data.batches.len()
            invariant
                k <= data.batches.len(),
                all_supported(data@.batches.take(k as int)),
                call_views(plan@) == state_calls(*self, vertex_array, data@) + batches_calls(
                    *self,
                    data@.batches.take(k as int),
                ),
            decreases data.batches.len() - k,
        {
            let batch = &data.batches[k];
            let ghost before = call_views(plan@);
            assert(data@.batches[k as int] == batch@);
            self.emit_upload(&mut plan, batch);
            match Self::emit_commands(&mut plan, &batch.commands, k) {
                Ok(()) => {},
                Err(e) => {
                    return Err(e);
                },
            }
            proof {
                assert(data@.batches.take(k + 1).drop_last() =~= data@.batches.take(k as int));
                assert(call_views(plan@) =~= before + batch_calls(*self, batch@));
                assert forall|k2: int, j2: int|
                    0 <= k2 < data@.batches.take(k + 1).len() && 0 <= j2 < data@.batches.take(
                        k + 1,
                    )[k2].commands.len() implies supported(
                    #[trigger] data@.batches.take(k + 1)[k2].commands[j2],
                ) by {
                    if k2 < k {
                        assert(data@.batches.take(k + 1)[k2] == data@.batches.take(k as int)[k2]);
                    }
                }
            }
            k += 1;
        }
        proof {
            assert(data@.batches.take(k as int) =~= data@.batches);
        }
        emit(&mut plan, GlCall::DeleteVertexArray { vertex_array });
        assert(call_views(plan@) =~= frame_calls(*self, vertex_array, data@));
        Ok(plan)
    }
}

} // verus!
