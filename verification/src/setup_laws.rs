//! What holds of every setup.
//!
//! Two things are stated here: that a shader which does not compile, or a
//! program which does not link, ends the setup with an error that says
//! which; and what a setup that meets no failure issues, call by call.

use vstd::prelude::*;
use crate::gl::{
    Attribute, GlCallView, GlReply, Uniform, LINEAR, RGBA, TEXTURE_2D, TEXTURE_BINDING_2D,
    TEXTURE_MAG_FILTER, TEXTURE_MIN_FILTER, UNPACK_ROW_LENGTH, UNSIGNED_BYTE,
};
use crate::renderer::{Locs, Renderer};
use crate::setup::{
    binding_name, script, FontTexture, Progress, Setup, SetupError, Step, SCRIPT_LEN,
};
use crate::shader::ShaderStage;

verus! {

/// A shader that does not compile ends the setup.
///
/// When the compile status of the shader of `stage` is reported as failed,
/// the only call that the setup still issues fetches the information log of
/// that shader. The setup then fails with an error that names the stage
/// and carries the log, and whatever else is answered fails it too: it
/// neither goes on nor yields a renderer.
pub proof fn lemma_compile_failure_ends_setup(
    setup: Setup,
    stage: ShaderStage,
    log: String,
    other: GlReply,
)
    requires
        setup.step == Step::CompileStatus(stage),
    ensures
        setup.next(GlReply::Status(false)) matches Ok(Progress::Continue(asking)) && {
            &&& asking.pending() == (GlCallView::GetShaderInfoLog { shader: setup.shader(stage) })
            &&& asking.next(GlReply::Log(log)) == Err::<Progress, SetupError>(
                SetupError::CompileFailed { stage, log },
            )
            &&& asking.next(other) is Err
        },
{
}

/// A program that does not link ends the setup.
///
/// When the link status is reported as failed, the only call that the
/// setup still issues fetches the information log of the program. The setup
/// then fails with an error that carries the log, and whatever else is
/// answered fails it too.
pub proof fn lemma_link_failure_ends_setup(setup: Setup, log: String, other: GlReply)
    requires
        setup.step == Step::LinkStatus,
    ensures
        setup.next(GlReply::Status(false)) matches Ok(Progress::Continue(asking)) && {
            &&& asking.pending() == (GlCallView::GetProgramInfoLog { program: setup.program })
            &&& asking.next(GlReply::Log(log)) == Err::<Progress, SetupError>(
                SetupError::LinkFailed { log },
            )
            &&& asking.next(other) is Err
        },
{
}

/// What the graphics context yields in a setup that meets no failure.
pub struct Yield {
    pub vertex_array: u32,
    pub program: u32,
    pub vertex_shader: u32,
    pub fragment_shader: u32,
    pub locs: Locs,
    pub vbo: u32,
    pub ebo: u32,
    /// The texture binding as reported before the font texture is created.
    pub texture_binding: i32,
    pub font_texture: u32,
}

impl Yield {
    /// The shader of a stage.
    pub open spec fn shader(self, stage: ShaderStage) -> u32 {
        match stage {
            ShaderStage::Vertex => self.vertex_shader,
            ShaderStage::Fragment => self.fragment_shader,
        }
    }

    /// The answer to the call of `step`.
    pub open spec fn answer(self, step: Step) -> GlReply {
        match step {
            Step::CreateVertexArray => GlReply::Created(self.vertex_array),
            Step::CreateProgram => GlReply::Created(self.program),
            Step::CreateShader(stage) => GlReply::Created(self.shader(stage)),
            Step::CompileStatus(_) => GlReply::Status(true),
            Step::LinkStatus => GlReply::Status(true),
            Step::UniformLocation(Uniform::Texture) => GlReply::Location(Some(self.locs.texture)),
            Step::UniformLocation(Uniform::ProjMtx) => GlReply::Location(Some(self.locs.proj_mtx)),
            Step::AttribLocation(Attribute::Position) => GlReply::Location(
                Some(self.locs.position),
            ),
            Step::AttribLocation(Attribute::Uv) => GlReply::Location(Some(self.locs.uv)),
            Step::AttribLocation(Attribute::Color) => GlReply::Location(Some(self.locs.color)),
            Step::CreateVertexBuffer => GlReply::Created(self.vbo),
            Step::CreateIndexBuffer => GlReply::Created(self.ebo),
            Step::SaveTextureBinding => GlReply::Integer(self.texture_binding),
            Step::CreateFontTexture => GlReply::Created(self.font_texture),
            _ => GlReply::Done,
        }
    }

    /// The renderer that the setup finishes with.
    pub open spec fn renderer(self) -> Renderer {
        Renderer {
            program: self.program,
            locs: self.locs,
            vbo: self.vbo,
            ebo: self.ebo,
            font_texture: self.font_texture,
        }
    }

    /// The state in which step `i` of the script is due: what the earlier
    /// steps have yielded is put down, the rest is still zero.
    pub open spec fn state_at(self, font: FontTexture, i: int) -> Setup {
        Setup {
            step: script()[i],
            font,
            vertex_array: if i > 0 { self.vertex_array } else { 0 },
            program: if i > 2 { self.program } else { 0 },
            vertex_shader: if i > 3 { self.vertex_shader } else { 0 },
            fragment_shader: if i > 8 { self.fragment_shader } else { 0 },
            locs: Locs {
                texture: if i > 19 { self.locs.texture } else { 0 },
                proj_mtx: if i > 20 { self.locs.proj_mtx } else { 0 },
                position: if i > 21 { self.locs.position } else { 0 },
                uv: if i > 22 { self.locs.uv } else { 0 },
                color: if i > 23 { self.locs.color } else { 0 },
            },
            vbo: if i > 24 { self.vbo } else { 0 },
            ebo: if i > 25 { self.ebo } else { 0 },
            previous_texture: if i > 26 { binding_name(self.texture_binding) } else { 0 },
            font_texture: if i > 27 { self.font_texture } else { 0 },
        }
    }

    /// The calls of the setup, in order.
    pub open spec fn calls(self, font: FontTexture) -> Seq<GlCallView> {
        seq![
            GlCallView::CreateVertexArray,
            GlCallView::BindVertexArray { vertex_array: self.vertex_array },
            GlCallView::CreateProgram,
            GlCallView::CreateShader { shader_type: ShaderStage::Vertex.spec_shader_type() },
            GlCallView::ShaderSource {
                shader: self.vertex_shader,
                source: ShaderStage::Vertex.spec_source(),
            },
            GlCallView::CompileShader { shader: self.vertex_shader },
            GlCallView::GetShaderCompileStatus { shader: self.vertex_shader },
            GlCallView::AttachShader { program: self.program, shader: self.vertex_shader },
            GlCallView::CreateShader { shader_type: ShaderStage::Fragment.spec_shader_type() },
            GlCallView::ShaderSource {
                shader: self.fragment_shader,
                source: ShaderStage::Fragment.spec_source(),
            },
            GlCallView::CompileShader { shader: self.fragment_shader },
            GlCallView::GetShaderCompileStatus { shader: self.fragment_shader },
            GlCallView::AttachShader { program: self.program, shader: self.fragment_shader },
            GlCallView::LinkProgram { program: self.program },
            GlCallView::GetProgramLinkStatus { program: self.program },
            GlCallView::DetachShader { program: self.program, shader: self.vertex_shader },
            GlCallView::DeleteShader { shader: self.vertex_shader },
            GlCallView::DetachShader { program: self.program, shader: self.fragment_shader },
            GlCallView::DeleteShader { shader: self.fragment_shader },
            GlCallView::GetUniformLocation { program: self.program, uniform: Uniform::Texture },
            GlCallView::GetUniformLocation { program: self.program, uniform: Uniform::ProjMtx },
            GlCallView::GetAttribLocation {
                program: self.program,
                attribute: Attribute::Position,
            },
            GlCallView::GetAttribLocation { program: self.program, attribute: Attribute::Uv },
            GlCallView::GetAttribLocation { program: self.program, attribute: Attribute::Color },
            GlCallView::CreateBuffer,
            GlCallView::CreateBuffer,
            GlCallView::GetParameter { parameter: TEXTURE_BINDING_2D },
            GlCallView::CreateTexture,
            GlCallView::BindTexture { target: TEXTURE_2D, texture: self.font_texture },
            GlCallView::TexParameter {
                target: TEXTURE_2D,
                parameter: TEXTURE_MIN_FILTER,
                value: LINEAR as i32,
            },
            GlCallView::TexParameter {
                target: TEXTURE_2D,
                parameter: TEXTURE_MAG_FILTER,
                value: LINEAR as i32,
            },
            GlCallView::PixelStore { parameter: UNPACK_ROW_LENGTH, value: 0 },
            GlCallView::TexImage2d {
                target: TEXTURE_2D,
                level: 0,
                internal_format: RGBA as i32,
                width: font@.width,
                height: font@.height,
                border: 0,
                format: RGBA,
                ty: UNSIGNED_BYTE,
                pixels: font@.pixels,
            },
            GlCallView::BindTexture {
                target: TEXTURE_2D,
                texture: binding_name(self.texture_binding),
            },
        ]
    }
}

/// A setup that meets no failure follows the script to its end.
///
/// Let the graphics context create every object, compile and link, know
/// every uniform and attribute, and yield the values of `y`. Then the setup
/// begins in the state of step 0; in the state of each step it issues the
/// call that [`Yield::calls`] lists at that place, with the names that the
/// context has yielded so far; the answer leads to the state of the next
/// step; and the answer to the last call finishes the setup with the
/// renderer over the yielded objects.
pub proof fn lemma_setup_follows_script(y: Yield, font: FontTexture, i: int)
    requires
        0 <= i < SCRIPT_LEN,
    ensures
        script().len() == SCRIPT_LEN,
        y.calls(font).len() == SCRIPT_LEN,
        y.state_at(font, 0) == Setup::first(font),
        y.state_at(font, i).pending() == y.calls(font)[i],
        i + 1 < SCRIPT_LEN ==> y.state_at(font, i).next(y.answer(script()[i])) == Ok::<
            Progress,
            SetupError,
        >(Progress::Continue(y.state_at(font, i + 1))),
        i + 1 == SCRIPT_LEN ==> y.state_at(font, i).next(y.answer(script()[i])) == Ok::<
            Progress,
            SetupError,
        >(Progress::Finished(y.renderer())),
{
}

} // verus!
