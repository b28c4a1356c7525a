//! The one-time creation of the GPU objects.
//!
//! Creating the renderer is a conversation with the graphics context: a
//! fixed script of calls, several of which yield a value that later calls
//! need or that decides whether the setup goes on. [`Setup`] holds the
//! state of that conversation. It names the call to issue next
//! ([`Setup::request`]) and takes the answer ([`Setup::advance`]), until
//! the renderer is complete or the setup has failed.

use vstd::prelude::*;
use vstd::string::StringExecFns;
use crate::gl::{
    Attribute, GlCall, GlCallView, GlReply, Uniform, LINEAR, RGBA, TEXTURE_2D,
    TEXTURE_BINDING_2D, TEXTURE_MAG_FILTER, TEXTURE_MIN_FILTER, UNPACK_ROW_LENGTH, UNSIGNED_BYTE,
};
use crate::renderer::{Locs, Renderer};
use crate::shader::ShaderStage;

verus! {

/// The font atlas as an image of RGBA pixels, one byte per channel, row by
/// row. The image always has exactly four bytes for each of its pixels.
#[derive(Debug, PartialEq, Eq)]
pub struct FontTexture {
    width: u32,
    height: u32,
    pixels: Vec<u8>,
}

/// The mathematical value of a [`FontTexture`].
pub struct FontTextureView {
    pub width: u32,
    pub height: u32,
    pub pixels: Seq<u8>,
}

impl View for FontTexture {
    type V = FontTextureView;

    closed spec fn view(&self) -> FontTextureView {
        FontTextureView { width: self.width, height: self.height, pixels: self.pixels@ }
    }
}

impl FontTexture {
    #[verifier::type_invariant]
    spec fn complete(self) -> bool {
        self.pixels@.len() == 4 * self.width * self.height
    }

    /// The image of the given size over `pixels`, if these are four bytes
    /// for each pixel of the image.
    pub fn new(width: u32, height: u32, pixels: Vec<u8>) -> (font: Option<FontTexture>)
        ensures
            font is Some <==> pixels@.len() == 4 * width * height,
            font matches Some(f) ==> f@ == (FontTextureView { width, height, pixels: pixels@ }),
    {
        assert(width * height <= 0xffff_ffff * 0xffff_ffff && 4 * (width * height) == 4 * width
            * height) by (nonlinear_arith)
            requires
                0 <= width <= 0xffff_ffff,
                0 <= height <= 0xffff_ffff,
        ;
        let expected: u128 = 4 * (width as u128 * height as u128);
        if pixels.len() as u128 == expected {
            Some(FontTexture { width, height, pixels })
        } else {
            None
        }
    }

    /// Width of the image in pixels.
    pub fn width(&self) -> (width: u32)
        ensures
            width == self@.width,
    {
        self.width
    }

    /// Height of the image in pixels.
    pub fn height(&self) -> (height: u32)
        ensures
            height == self@.height,
    {
        self.height
    }

    /// The bytes of the image.
    pub fn pixels(&self) -> (pixels: &Vec<u8>)
        ensures
            pixels@ == self@.pixels,
            pixels@.len() == 4 * self@.width * self@.height,
    {
        proof {
            use_type_invariant(self);
        }
        &self.pixels
    }
}

/// A GPU object that the setup creates.
#[derive(Clone, Copy, Debug, PartialEq, Eq, Structural)]
pub enum GpuObject {
    VertexArray,
    Program,
    Shader(ShaderStage),
    VertexBuffer,
    IndexBuffer,
    FontTexture,
}

/// One step of the setup: one call and its answer.
#[derive(Clone, Copy, Debug, PartialEq, Eq, Structural)]
pub enum Step {
    CreateVertexArray,
    BindVertexArray,
    CreateProgram,
    CreateShader(ShaderStage),
    ShaderSource(ShaderStage),
    CompileShader(ShaderStage),
    CompileStatus(ShaderStage),
    AttachShader(ShaderStage),
    LinkProgram,
    LinkStatus,
    DetachShader(ShaderStage),
    DeleteShader(ShaderStage),
    UniformLocation(Uniform),
    AttribLocation(Attribute),
    CreateVertexBuffer,
    CreateIndexBuffer,
    SaveTextureBinding,
    CreateFontTexture,
    BindFontTexture,
    SetMinFilter,
    SetMagFilter,
    SetUnpackRowLength,
    UploadFontTexture,
    RestoreTextureBinding,
    /// Taken only after a shader has failed to compile: fetches its log.
    ShaderInfoLog(ShaderStage),
    /// Taken only after the program has failed to link: fetches its log.
    ProgramInfoLog,
}

/// Number of steps of a setup that succeeds.
pub const SCRIPT_LEN: usize = 34;

/// The steps of a setup that succeeds, in order.
pub open spec fn script() -> Seq<Step> {
    seq![
        Step::CreateVertexArray,
        Step::BindVertexArray,
        Step::CreateProgram,
        Step::CreateShader(ShaderStage::Vertex),
        Step::ShaderSource(ShaderStage::Vertex),
        Step::CompileShader(ShaderStage::Vertex),
        Step::CompileStatus(ShaderStage::Vertex),
        Step::AttachShader(ShaderStage::Vertex),
        Step::CreateShader(ShaderStage::Fragment),
        Step::ShaderSource(ShaderStage::Fragment),
        Step::CompileShader(ShaderStage::Fragment),
        Step::CompileStatus(ShaderStage::Fragment),
        Step::AttachShader(ShaderStage::Fragment),
        Step::LinkProgram,
        Step::LinkStatus,
        Step::DetachShader(ShaderStage::Vertex),
        Step::DeleteShader(ShaderStage::Vertex),
        Step::DetachShader(ShaderStage::Fragment),
        Step::DeleteShader(ShaderStage::Fragment),
        Step::UniformLocation(Uniform::Texture),
        Step::UniformLocation(Uniform::ProjMtx),
        Step::AttribLocation(Attribute::Position),
        Step::AttribLocation(Attribute::Uv),
        Step::AttribLocation(Attribute::Color),
        Step::CreateVertexBuffer,
        Step::CreateIndexBuffer,
        Step::SaveTextureBinding,
        Step::CreateFontTexture,
        Step::BindFontTexture,
        Step::SetMinFilter,
        Step::SetMagFilter,
        Step::SetUnpackRowLength,
        Step::UploadFontTexture,
        Step::RestoreTextureBinding,
    ]
}

impl Step {
    /// The place of the step in the script; the two steps that fetch a log
    /// are not in the script and stand behind its end.
    pub open spec fn position(self) -> int {
        match self {
            Step::CreateVertexArray => 0,
            Step::BindVertexArray => 1,
            Step::CreateProgram => 2,
            Step::CreateShader(ShaderStage::Vertex) => 3,
            Step::ShaderSource(ShaderStage::Vertex) => 4,
            Step::CompileShader(ShaderStage::Vertex) => 5,
            Step::CompileStatus(ShaderStage::Vertex) => 6,
            Step::AttachShader(ShaderStage::Vertex) => 7,
            Step::CreateShader(ShaderStage::Fragment) => 8,
            Step::ShaderSource(ShaderStage::Fragment) => 9,
            Step::CompileShader(ShaderStage::Fragment) => 10,
            Step::CompileStatus(ShaderStage::Fragment) => 11,
            Step::AttachShader(ShaderStage::Fragment) => 12,
            Step::LinkProgram => 13,
            Step::LinkStatus => 14,
            Step::DetachShader(ShaderStage::Vertex) => 15,
            Step::DeleteShader(ShaderStage::Vertex) => 16,
            Step::DetachShader(ShaderStage::Fragment) => 17,
            Step::DeleteShader(ShaderStage::Fragment) => 18,
            Step::UniformLocation(Uniform::Texture) => 19,
            Step::UniformLocation(Uniform::ProjMtx) => 20,
            Step::AttribLocation(Attribute::Position) => 21,
            Step::AttribLocation(Attribute::Uv) => 22,
            Step::AttribLocation(Attribute::Color) => 23,
            Step::CreateVertexBuffer => 24,
            Step::CreateIndexBuffer => 25,
            Step::SaveTextureBinding => 26,
            Step::CreateFontTexture => 27,
            Step::BindFontTexture => 28,
            Step::SetMinFilter => 29,
            Step::SetMagFilter => 30,
            Step::SetUnpackRowLength => 31,
            Step::UploadFontTexture => 32,
            Step::RestoreTextureBinding => 33,
            Step::ShaderInfoLog(_) => 34,
            Step::ProgramInfoLog => 34,
        }
    }

    /// The step that follows in the script, if one does.
    pub open spec fn spec_successor(self) -> Option<Step> {
        if self.position() + 1 < script().len() {
            Some(script()[self.position() + 1])
        } else {
            None
        }
    }

    /// The object that the step creates, if it creates one.
    pub open spec fn creates(self) -> Option<GpuObject> {
        match self {
            Step::CreateVertexArray => Some(GpuObject::VertexArray),
            Step::CreateProgram => Some(GpuObject::Program),
            Step::CreateShader(stage) => Some(GpuObject::Shader(stage)),
            Step::CreateVertexBuffer => Some(GpuObject::VertexBuffer),
            Step::CreateIndexBuffer => Some(GpuObject::IndexBuffer),
            Step::CreateFontTexture => Some(GpuObject::FontTexture),
            _ => None,
        }
    }

    /// Whether the call of the step yields nothing.
    pub open spec fn is_command(self) -> bool {
        match self {
            Step::BindVertexArray
            | Step::ShaderSource(_)
            | Step::CompileShader(_)
            | Step::AttachShader(_)
            | Step::LinkProgram
            | Step::DetachShader(_)
            | Step::DeleteShader(_)
            | Step::BindFontTexture
            | Step::SetMinFilter
            | Step::SetMagFilter
            | Step::SetUnpackRowLength
            | Step::UploadFontTexture
            | Step::RestoreTextureBinding => true,
            _ => false,
        }
    }

    /// The step that follows in the script, if one does.
    pub fn successor(self) -> (next: Option<Step>)
        ensures
            next == self.spec_successor(),
    {
        match self {
            Step::CreateVertexArray => Some(Step::BindVertexArray),
            Step::BindVertexArray => Some(Step::CreateProgram),
            Step::CreateProgram => Some(Step::CreateShader(ShaderStage::Vertex)),
            Step::CreateShader(stage) => Some(Step::ShaderSource(stage)),
            Step::ShaderSource(stage) => Some(Step::CompileShader(stage)),
            Step::CompileShader(stage) => Some(Step::CompileStatus(stage)),
            Step::CompileStatus(stage) => Some(Step::AttachShader(stage)),
            Step::AttachShader(ShaderStage::Vertex) => Some(
                Step::CreateShader(ShaderStage::Fragment),
            ),
            Step::AttachShader(ShaderStage::Fragment) => Some(Step::LinkProgram),
            Step::LinkProgram => Some(Step::LinkStatus),
            Step::LinkStatus => Some(Step::DetachShader(ShaderStage::Vertex)),
            Step::DetachShader(stage) => Some(Step::DeleteShader(stage)),
            Step::DeleteShader(ShaderStage::Vertex) => Some(
                Step::DetachShader(ShaderStage::Fragment),
            ),
            Step::DeleteShader(ShaderStage::Fragment) => Some(
                Step::UniformLocation(Uniform::Texture),
            ),
            Step::UniformLocation(Uniform::Texture) => Some(Step::UniformLocation(Uniform::ProjMtx)),
            Step::UniformLocation(Uniform::ProjMtx) => Some(
                Step::AttribLocation(Attribute::Position),
            ),
            Step::AttribLocation(Attribute::Position) => Some(Step::AttribLocation(Attribute::Uv)),
            Step::AttribLocation(Attribute::Uv) => Some(Step::AttribLocation(Attribute::Color)),
            Step::AttribLocation(Attribute::Color) => Some(Step::CreateVertexBuffer),
            Step::CreateVertexBuffer => Some(Step::CreateIndexBuffer),
            Step::CreateIndexBuffer => Some(Step::SaveTextureBinding),
            Step::SaveTextureBinding => Some(Step::CreateFontTexture),
            Step::CreateFontTexture => Some(Step::BindFontTexture),
            Step::BindFontTexture => Some(Step::SetMinFilter),
            Step::SetMinFilter => Some(Step::SetMagFilter),
            Step::SetMagFilter => Some(Step::SetUnpackRowLength),
            Step::SetUnpackRowLength => Some(Step::UploadFontTexture),
            Step::UploadFontTexture => Some(Step::RestoreTextureBinding),
            Step::RestoreTextureBinding => None,
            Step::ShaderInfoLog(_) => None,
            Step::ProgramInfoLog => None,
        }
    }
}

/// Why a setup has failed.
#[derive(Clone, Debug, PartialEq, Eq)]
pub enum SetupError {
    /// The graphics context could not create `object`; `message` is what
    /// it said.
    CreateFailed { object: GpuObject, message: String },
    /// The shader of `stage` did not compile; `log` is its information log.
    CompileFailed { stage: ShaderStage, log: String },
    /// The program did not link; `log` is its information log.
    LinkFailed { log: String },
    /// The linked program has no such uniform.
    MissingUniform { uniform: Uniform },
    /// The linked program has no such attribute.
    MissingAttribute { attribute: Attribute },
    /// The answer given at `step` is none that the call of the step has.
    UnexpectedReply { step: Step },
}

impl GpuObject {
    /// The words for the object in messages.
    pub open spec fn spec_name(self) -> Seq<char> {
        match self {
            GpuObject::VertexArray => "vertex array"@,
            GpuObject::Program => "program"@,
            GpuObject::Shader(ShaderStage::Vertex) => "vertex shader"@,
            GpuObject::Shader(ShaderStage::Fragment) => "fragment shader"@,
            GpuObject::VertexBuffer => "vertex buffer"@,
            GpuObject::IndexBuffer => "index buffer"@,
            GpuObject::FontTexture => "font texture"@,
        }
    }

    /// The words for the object in messages.
    pub fn name(self) -> (name: &'static str)
        ensures
            name@ == self.spec_name(),
    {
        match self {
            GpuObject::VertexArray => "vertex array",
            GpuObject::Program => "program",
            GpuObject::Shader(ShaderStage::Vertex) => "vertex shader",
            GpuObject::Shader(ShaderStage::Fragment) => "fragment shader",
            GpuObject::VertexBuffer => "vertex buffer",
            GpuObject::IndexBuffer => "index buffer",
            GpuObject::FontTexture => "font texture",
        }
    }
}

impl SetupError {
    /// The diagnostic for the error. It names the object, the shader stage,
    /// the uniform or the attribute that the error is about, and ends with
    /// what the graphics context had to say, where it said something.
    pub open spec fn spec_message(self) -> Seq<char> {
        match self {
            SetupError::CreateFailed { object, message } => "Cannot create "@ + object.spec_name()
                + ": "@ + message@,
            SetupError::CompileFailed { stage, log } => "Cannot compile "@ + stage.spec_name()
                + " shader: "@ + log@,
            SetupError::LinkFailed { log } => "Cannot link program: "@ + log@,
            SetupError::MissingUniform { uniform } => "Cannot find uniform "@ + uniform.spec_name(),
            SetupError::MissingAttribute { attribute } => "Cannot find attribute "@
                + attribute.spec_name(),
            SetupError::UnexpectedReply { step } => "Unexpected reply"@,
        }
    }

    /// The diagnostic for the error.
    pub fn message(&self) -> (message: String)
        ensures
            message@ == self.spec_message(),
    {
        match self {
            SetupError::CreateFailed { object, message } => String::from_str(
                "Cannot create ",
            ).concat(object.name()).concat(": ").concat(message.as_str()),
            SetupError::CompileFailed { stage, log } => String::from_str("Cannot compile ").concat(
                stage.name(),
            ).concat(" shader: ").concat(log.as_str()),
            SetupError::LinkFailed { log } => String::from_str("Cannot link program: ").concat(
                log.as_str(),
            ),
            SetupError::MissingUniform { uniform } => String::from_str(
                "Cannot find uniform ",
            ).concat(uniform.name()),
            SetupError::MissingAttribute { attribute } => String::from_str(
                "Cannot find attribute ",
            ).concat(attribute.name()),
            SetupError::UnexpectedReply { .. } => String::from_str("Unexpected reply"),
        }
    }
}

/// The texture name that a reported texture binding stands for.
pub open spec fn binding_name(binding: i32) -> u32 {
    if binding >= 0 {
        binding as u32
    } else {
        (binding + 0x1_0000_0000) as u32
    }
}

/// The state of a setup: the step whose call is due, and what the steps
/// before it have yielded.
#[derive(Debug, PartialEq, Eq)]
pub struct Setup {
    /// The step whose call is due.
    pub step: Step,
    /// The font atlas to upload.
    pub font: FontTexture,
    pub vertex_array: u32,
    pub program: u32,
    pub vertex_shader: u32,
    pub fragment_shader: u32,
    pub locs: Locs,
    pub vbo: u32,
    pub ebo: u32,
    /// The texture that was bound when the setup began to work on the font
    /// texture.
    pub previous_texture: u32,
    pub font_texture: u32,
}

/// What a setup has come to after an answer.
#[derive(Debug, PartialEq, Eq)]
pub enum Progress {
    /// The setup goes on with the call of the state.
    Continue(Setup),
    /// The setup is complete.
    Finished(Renderer),
}

impl Setup {
    /// The state before the first call.
    pub open spec fn first(font: FontTexture) -> Setup {
        Setup {
            step: Step::CreateVertexArray,
            font,
            vertex_array: 0,
            program: 0,
            vertex_shader: 0,
            fragment_shader: 0,
            locs: Locs { texture: 0, proj_mtx: 0, position: 0, uv: 0, color: 0 },
            vbo: 0,
            ebo: 0,
            previous_texture: 0,
            font_texture: 0,
        }
    }

    /// The shader of a stage.
    pub open spec fn shader(self, stage: ShaderStage) -> u32 {
        match stage {
            ShaderStage::Vertex => self.vertex_shader,
            ShaderStage::Fragment => self.fragment_shader,
        }
    }

    /// The call that is due.
    pub open spec fn pending(self) -> GlCallView {
        match self.step {
            Step::CreateVertexArray => GlCallView::CreateVertexArray,
            Step::BindVertexArray => GlCallView::BindVertexArray {
                vertex_array: self.vertex_array,
            },
            Step::CreateProgram => GlCallView::CreateProgram,
            Step::CreateShader(stage) => GlCallView::CreateShader {
                shader_type: stage.spec_shader_type(),
            },
            Step::ShaderSource(stage) => GlCallView::ShaderSource {
                shader: self.shader(stage),
                source: stage.spec_source(),
            },
            Step::CompileShader(stage) => GlCallView::CompileShader { shader: self.shader(stage) },
            Step::CompileStatus(stage) => GlCallView::GetShaderCompileStatus {
                shader: self.shader(stage),
            },
            Step::ShaderInfoLog(stage) => GlCallView::GetShaderInfoLog {
                shader: self.shader(stage),
            },
            Step::AttachShader(stage) => GlCallView::AttachShader {
                program: self.program,
                shader: self.shader(stage),
            },
            Step::LinkProgram => GlCallView::LinkProgram { program: self.program },
            Step::LinkStatus => GlCallView::GetProgramLinkStatus { program: self.program },
            Step::ProgramInfoLog => GlCallView::GetProgramInfoLog { program: self.program },
            Step::DetachShader(stage) => GlCallView::DetachShader {
                program: self.program,
                shader: self.shader(stage),
            },
            Step::DeleteShader(stage) => GlCallView::DeleteShader { shader: self.shader(stage) },
            Step::UniformLocation(uniform) => GlCallView::GetUniformLocation {
                program: self.program,
                uniform,
            },
            Step::AttribLocation(attribute) => GlCallView::GetAttribLocation {
                program: self.program,
                attribute,
            },
            Step::CreateVertexBuffer => GlCallView::CreateBuffer,
            Step::CreateIndexBuffer => GlCallView::CreateBuffer,
            Step::SaveTextureBinding => GlCallView::GetParameter { parameter: TEXTURE_BINDING_2D },
            Step::CreateFontTexture => GlCallView::CreateTexture,
            Step::BindFontTexture => GlCallView::BindTexture {
                target: TEXTURE_2D,
                texture: self.font_texture,
            },
            Step::SetMinFilter => GlCallView::TexParameter {
                target: TEXTURE_2D,
                parameter: TEXTURE_MIN_FILTER,
                value: LINEAR as i32,
            },
            Step::SetMagFilter => GlCallView::TexParameter {
                target: TEXTURE_2D,
                parameter: TEXTURE_MAG_FILTER,
                value: LINEAR as i32,
            },
            Step::SetUnpackRowLength => GlCallView::PixelStore {
                parameter: UNPACK_ROW_LENGTH,
                value: 0,
            },
            Step::UploadFontTexture => GlCallView::TexImage2d {
                target: TEXTURE_2D,
                level: 0,
                internal_format: RGBA as i32,
                width: self.font@.width,
                height: self.font@.height,
                border: 0,
                format: RGBA,
                ty: UNSIGNED_BYTE,
                pixels: self.font@.pixels,
            },
            Step::RestoreTextureBinding => GlCallView::BindTexture {
                target: TEXTURE_2D,
                texture: self.previous_texture,
            },
        }
    }

    /// The state with the name of a created object put down.
    pub open spec fn with_object(self, object: GpuObject, name: u32) -> Setup {
        match object {
            GpuObject::VertexArray => Setup { vertex_array: name, ..self },
            GpuObject::Program => Setup { program: name, ..self },
            GpuObject::Shader(ShaderStage::Vertex) => Setup { vertex_shader: name, ..self },
            GpuObject::Shader(ShaderStage::Fragment) => Setup { fragment_shader: name, ..self },
            GpuObject::VertexBuffer => Setup { vbo: name, ..self },
            GpuObject::IndexBuffer => Setup { ebo: name, ..self },
            GpuObject::FontTexture => Setup { font_texture: name, ..self },
        }
    }

    /// The state with the location of a uniform put down.
    pub open spec fn with_uniform(self, uniform: Uniform, location: u32) -> Setup {
        match uniform {
            Uniform::Texture => Setup { locs: Locs { texture: location, ..self.locs }, ..self },
            Uniform::ProjMtx => Setup { locs: Locs { proj_mtx: location, ..self.locs }, ..self },
        }
    }

    /// The state with the location of an attribute put down.
    pub open spec fn with_attribute(self, attribute: Attribute, location: u32) -> Setup {
        match attribute {
            Attribute::Position => Setup { locs: Locs { position: location, ..self.locs }, ..self },
            Attribute::Uv => Setup { locs: Locs { uv: location, ..self.locs }, ..self },
            Attribute::Color => Setup { locs: Locs { color: location, ..self.locs }, ..self },
        }
    }

    /// The renderer over the objects of the state.
    pub open spec fn renderer(self) -> Renderer {
        Renderer {
            program: self.program,
            locs: self.locs,
            vbo: self.vbo,
            ebo: self.ebo,
            font_texture: self.font_texture,
        }
    }

    /// What the setup comes to once the step of the state is done: the
    /// next step of the script, or the renderer after the last one.
    pub open spec fn proceed(self) -> Result<Progress, SetupError> {
        match self.step.spec_successor() {
            Some(step) => Ok(Progress::Continue(Setup { step, ..self })),
            None => Ok(Progress::Finished(self.renderer())),
        }
    }

    /// What the setup comes to when the call that is due is answered with
    /// `reply`.
    ///
    /// An object that could not be created, a uniform or attribute that the
    /// program lacks, and an answer that the call cannot have end the
    /// setup. A shader that did not compile and a program that did not link
    /// end it too, after one more call that fetches the information log.
    /// Every other answer is put down and leads to the next step.
    pub open spec fn next(self, reply: GlReply) -> Result<Progress, SetupError> {
        let unexpected = Err(SetupError::UnexpectedReply { step: self.step });
        match reply {
            GlReply::Done => if self.step.is_command() {
                self.proceed()
            } else {
                unexpected
            },
            GlReply::Created(name) => match self.step.creates() {
                Some(object) => self.with_object(object, name).proceed(),
                None => unexpected,
            },
            GlReply::CreateFailed(message) => match self.step.creates() {
                Some(object) => Err(SetupError::CreateFailed { object, message }),
                None => unexpected,
            },
            GlReply::Status(ok) => match self.step {
                Step::CompileStatus(stage) => if ok {
                    self.proceed()
                } else {
                    Ok(Progress::Continue(Setup { step: Step::ShaderInfoLog(stage), ..self }))
                },
                Step::LinkStatus => if ok {
                    self.proceed()
                } else {
                    Ok(Progress::Continue(Setup { step: Step::ProgramInfoLog, ..self }))
                },
                _ => unexpected,
            },
            GlReply::Log(log) => match self.step {
                Step::ShaderInfoLog(stage) => Err(SetupError::CompileFailed { stage, log }),
                Step::ProgramInfoLog => Err(SetupError::LinkFailed { log }),
                _ => unexpected,
            },
            GlReply::Location(location) => match self.step {
                Step::UniformLocation(uniform) => match location {
                    Some(location) => self.with_uniform(uniform, location).proceed(),
                    None => Err(SetupError::MissingUniform { uniform }),
                },
                Step::AttribLocation(attribute) => match location {
                    Some(location) => self.with_attribute(attribute, location).proceed(),
                    None => Err(SetupError::MissingAttribute { attribute }),
                },
                _ => unexpected,
            },
            GlReply::Integer(value) => match self.step {
                Step::SaveTextureBinding => Setup {
                    previous_texture: binding_name(value),
                    ..self
                }.proceed(),
                _ => unexpected,
            },
        }
    }

    /// The shader of a stage.
    fn stage_shader(&self, stage: ShaderStage) -> (shader: u32)
        ensures
            shader == self.shader(stage),
    {
        match stage {
            ShaderStage::Vertex => self.vertex_shader,
            ShaderStage::Fragment => self.fragment_shader,
        }
    }

    /// The call to issue now. Its answer goes to [`Setup::advance`].
    ///
    /// When the call uploads the font atlas, it carries exactly four bytes
    /// for each pixel of the size it names.
    pub fn request(&self) -> (call: GlCall)
        ensures
            call@ == self.pending(),
            call@ matches GlCallView::TexImage2d { width, height, pixels, .. } ==> pixels.len() == 4
                * width * height,
    {
        match self.step {
            Step::CreateVertexArray => GlCall::CreateVertexArray,
            Step::BindVertexArray => GlCall::BindVertexArray { vertex_array: self.vertex_array },
            Step::CreateProgram => GlCall::CreateProgram,
            Step::CreateShader(stage) => GlCall::CreateShader { shader_type: stage.shader_type() },
            Step::ShaderSource(stage) => GlCall::ShaderSource {
                shader: self.stage_shader(stage),
                source: stage.source(),
            },
            Step::CompileShader(stage) => GlCall::CompileShader {
                shader: self.stage_shader(stage),
            },
            Step::CompileStatus(stage) => GlCall::GetShaderCompileStatus {
                shader: self.stage_shader(stage),
            },
            Step::ShaderInfoLog(stage) => GlCall::GetShaderInfoLog {
                shader: self.stage_shader(stage),
            },
            Step::AttachShader(stage) => GlCall::AttachShader {
                program: self.program,
                shader: self.stage_shader(stage),
            },
            Step::LinkProgram => GlCall::LinkProgram { program: self.program },
            Step::LinkStatus => GlCall::GetProgramLinkStatus { program: self.program },
            Step::ProgramInfoLog => GlCall::GetProgramInfoLog { program: self.program },
            Step::DetachShader(stage) => GlCall::DetachShader {
                program: self.program,
                shader: self.stage_shader(stage),
            },
            Step::DeleteShader(stage) => GlCall::DeleteShader { shader: self.stage_shader(stage) },
            Step::UniformLocation(uniform) => GlCall::GetUniformLocation {
                program: self.program,
                uniform,
            },
            Step::AttribLocation(attribute) => GlCall::GetAttribLocation {
                program: self.program,
                attribute,
            },
            Step::CreateVertexBuffer => GlCall::CreateBuffer,
            Step::CreateIndexBuffer => GlCall::CreateBuffer,
            Step::SaveTextureBinding => GlCall::GetParameter { parameter: TEXTURE_BINDING_2D },
            Step::CreateFontTexture => GlCall::CreateTexture,
            Step::BindFontTexture => GlCall::BindTexture {
                target: TEXTURE_2D,
                texture: self.font_texture,
            },
            Step::SetMinFilter => GlCall::TexParameter {
                target: TEXTURE_2D,
                parameter: TEXTURE_MIN_FILTER,
                value: LINEAR as i32,
            },
            Step::SetMagFilter => GlCall::TexParameter {
                target: TEXTURE_2D,
                parameter: TEXTURE_MAG_FILTER,
                value: LINEAR as i32,
            },
            Step::SetUnpackRowLength => GlCall::PixelStore {
                parameter: UNPACK_ROW_LENGTH,
                value: 0,
            },
            Step::UploadFontTexture => GlCall::TexImage2d {
                target: TEXTURE_2D,
                level: 0,
                internal_format: RGBA as i32,
                width: self.font.width(),
                height: self.font.height(),
                border: 0,
                format: RGBA,
                ty: UNSIGNED_BYTE,
                pixels: self.font.pixels().clone(),
            },
            Step::RestoreTextureBinding => GlCall::BindTexture {
                target: TEXTURE_2D,
                texture: self.previous_texture,
            },
        }
    }

    /// Goes on to the next step of the script, or finishes after the last.
    fn go_on(self) -> (result: Result<Progress, SetupError>)
        ensures
            result == self.proceed(),
    {
        match self.step.successor() {
            Some(step) => {
                let mut state = self;
                state.step = step;
                Ok(Progress::Continue(state))
            },
            None => Ok(
                Progress::Finished(
                    Renderer {
                        program: self.program,
                        locs: self.locs,
                        vbo: self.vbo,
                        ebo: self.ebo,
                        font_texture: self.font_texture,
                    },
                ),
            ),
        }
    }

    /// Takes the answer to the call that was due and says what the setup
    /// has come to: the state with the next call, the finished renderer, or
    /// the reason why the setup has failed.
    pub fn advance(self, reply: GlReply) -> (result: Result<Progress, SetupError>)
        ensures
            result == self.next(reply),
    {
        let step = self.step;
        let mut state = self;
        match reply {
            GlReply::Done => match step {
                Step::BindVertexArray
                | Step::ShaderSource(_)
                | Step::CompileShader(_)
                | Step::AttachShader(_)
                | Step::LinkProgram
                | Step::DetachShader(_)
                | Step::DeleteShader(_)
                | Step::BindFontTexture
                | Step::SetMinFilter
                | Step::SetMagFilter
                | Step::SetUnpackRowLength
                | Step::UploadFontTexture
                | Step::RestoreTextureBinding => state.go_on(),
                _ => Err(SetupError::UnexpectedReply { step }),
            },
            GlReply::Created(name) => {
                match step {
                    Step::CreateVertexArray => {
                        state.vertex_array = name;
                    },
                    Step::CreateProgram => {
                        state.program = name;
                    },
                    Step::CreateShader(ShaderStage::Vertex) => {
                        state.vertex_shader = name;
                    },
                    Step::CreateShader(ShaderStage::Fragment) => {
                        state.fragment_shader = name;
                    },
                    Step::CreateVertexBuffer => {
                        state.vbo = name;
                    },
                    Step::CreateIndexBuffer => {
                        state.ebo = name;
                    },
                    Step::CreateFontTexture => {
                        state.font_texture = name;
                    },
                    _ => {
                        return Err(SetupError::UnexpectedReply { step });
                    },
                }
                state.go_on()
            },
            GlReply::CreateFailed(message) => {
                let object = match step {
                    Step::CreateVertexArray => GpuObject::VertexArray,
                    Step::CreateProgram => GpuObject::Program,
                    Step::CreateShader(stage) => GpuObject::Shader(stage),
                    Step::CreateVertexBuffer => GpuObject::VertexBuffer,
                    Step::CreateIndexBuffer => GpuObject::IndexBuffer,
                    Step::CreateFontTexture => GpuObject::FontTexture,
                    _ => {
                        return Err(SetupError::UnexpectedReply { step });
                    },
                };
                Err(SetupError::CreateFailed { object, message })
            },
            GlReply::Status(ok) => match step {
                Step::CompileStatus(stage) => {
                    if ok {
                        state.go_on()
                    } else {
                        state.step = Step::ShaderInfoLog(stage);
                        Ok(Progress::Continue(state))
                    }
                },
                Step::LinkStatus => {
                    if ok {
                        state.go_on()
                    } else {
                        state.step = Step::ProgramInfoLog;
                        Ok(Progress::Continue(state))
                    }
                },
                _ => Err(SetupError::UnexpectedReply { step }),
            },
            GlReply::Log(log) => match step {
                Step::ShaderInfoLog(stage) => Err(SetupError::CompileFailed { stage, log }),
                Step::ProgramInfoLog => Err(SetupError::LinkFailed { log }),
                _ => Err(SetupError::UnexpectedReply { step }),
            },
            GlReply::Location(location) => match step {
                Step::UniformLocation(uniform) => match location {
                    Some(location) => {
                        match uniform {
                            Uniform::Texture => {
                                state.locs.texture = location;
                            },
                            Uniform::ProjMtx => {
                                state.locs.proj_mtx = location;
                            },
                        }
                        state.go_on()
                    },
                    None => Err(SetupError::MissingUniform { uniform }),
                },
                Step::AttribLocation(attribute) => match location {
                    Some(location) => {
                        match attribute {
                            Attribute::Position => {
                                state.locs.position = location;
                            },
                            Attribute::Uv => {
                                state.locs.uv = location;
                            },
                            Attribute::Color => {
                                state.locs.color = location;
                            },
                        }
                        state.go_on()
                    },
                    None => Err(SetupError::MissingAttribute { attribute }),
                },
                _ => Err(SetupError::UnexpectedReply { step }),
            },
            GlReply::Integer(value) => match step {
                Step::SaveTextureBinding => {
                    state.previous_texture = if value >= 0 {
                        value as u32
                    } else {
                        (value as i64 + 0x1_0000_0000) as u32
                    };
                    state.go_on()
                },
                _ => Err(SetupError::UnexpectedReply { step }),
            },
        }
    }
}

} // verus!
