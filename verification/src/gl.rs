//! The vocabulary of graphics calls.
//!
//! A [`GlCall`] names one OpenGL call together with its arguments; whoever
//! owns the graphics context issues it. Calls that yield a value are
//! answered with a [`GlReply`]. Enumerants are carried as their OpenGL
//! numeric values; the ones this crate uses are named below.

use vstd::prelude::*;

verus! {

pub const TRIANGLES: u32 = 0x0004;

pub const SRC_ALPHA: u32 = 0x0302;

pub const ONE_MINUS_SRC_ALPHA: u32 = 0x0303;

pub const FRONT_AND_BACK: u32 = 0x0408;

pub const CULL_FACE: u32 = 0x0B44;

pub const DEPTH_TEST: u32 = 0x0B71;

pub const BLEND: u32 = 0x0BE2;

pub const SCISSOR_TEST: u32 = 0x0C11;

pub const UNPACK_ROW_LENGTH: u32 = 0x0CF2;

pub const TEXTURE_2D: u32 = 0x0DE1;

pub const UNSIGNED_BYTE: u32 = 0x1401;

pub const UNSIGNED_SHORT: u32 = 0x1403;

pub const FLOAT: u32 = 0x1406;

pub const RGBA: u32 = 0x1908;

pub const FILL: u32 = 0x1B02;

pub const LINEAR: u32 = 0x2601;

pub const TEXTURE_MAG_FILTER: u32 = 0x2800;

pub const TEXTURE_MIN_FILTER: u32 = 0x2801;

pub const FUNC_ADD: u32 = 0x8006;

pub const TEXTURE_BINDING_2D: u32 = 0x8069;

pub const TEXTURE0: u32 = 0x84C0;

pub const ARRAY_BUFFER: u32 = 0x8892;

pub const ELEMENT_ARRAY_BUFFER: u32 = 0x8893;

pub const STREAM_DRAW: u32 = 0x88E0;

pub const FRAGMENT_SHADER: u32 = 0x8B30;

pub const VERTEX_SHADER: u32 = 0x8B31;

/// A uniform variable of the shader program.
#[derive(Clone, Copy, Debug, PartialEq, Eq, Structural)]
pub enum Uniform {
    /// The sampler of the texture that modulates the vertex color.
    Texture,
    /// The projection matrix.
    ProjMtx,
}

/// A vertex attribute of the shader program.
#[derive(Clone, Copy, Debug, PartialEq, Eq, Structural)]
pub enum Attribute {
    Position,
    Uv,
    Color,
}

impl Uniform {
    /// The identifier of the uniform in the shader sources.
    pub open spec fn spec_name(self) -> Seq<char> {
        match self {
            Uniform::Texture => "Texture"@,
            Uniform::ProjMtx => "ProjMtx"@,
        }
    }

    /// The identifier of the uniform in the shader sources.
    pub fn name(self) -> (name: &'static str)
        ensures
            name@ == self.spec_name(),
    {
        match self {
            Uniform::Texture => "Texture",
            Uniform::ProjMtx => "ProjMtx",
        }
    }
}

impl Attribute {
    /// The identifier of the attribute in the shader sources.
    pub open spec fn spec_name(self) -> Seq<char> {
        match self {
            Attribute::Position => "Position"@,
            Attribute::Uv => "UV"@,
            Attribute::Color => "Color"@,
        }
    }

    /// The identifier of the attribute in the shader sources.
    pub fn name(self) -> (name: &'static str)
        ensures
            name@ == self.spec_name(),
    {
        match self {
            Attribute::Position => "Position",
            Attribute::Uv => "UV",
            Attribute::Color => "Color",
        }
    }
}

/// One graphics call with its arguments.
///
/// The variants up to [`GlCall::DrawElements`] yield nothing and are
/// answered with [`GlReply::Done`]; the answer to each of the others is
/// given with the variant.
#[derive(Clone, Debug, PartialEq, Eq)]
#[allow(inconsistent_fields)]
pub enum GlCall {
    BindVertexArray { vertex_array: u32 },
    DeleteVertexArray { vertex_array: u32 },
    ShaderSource { shader: u32, source: String },
    CompileShader { shader: u32 },
    AttachShader { program: u32, shader: u32 },
    DetachShader { program: u32, shader: u32 },
    DeleteShader { shader: u32 },
    LinkProgram { program: u32 },
    UseProgram { program: u32 },
    DeleteProgram { program: u32 },
    BindBuffer { target: u32, buffer: u32 },
    /// Replaces the whole data store of the buffer bound to `target`.
    BufferData { target: u32, data: Vec<u8>, usage: u32 },
    DeleteBuffer { buffer: u32 },
    ActiveTexture { unit: u32 },
    BindTexture { target: u32, texture: u32 },
    TexParameter { target: u32, parameter: u32, value: i32 },
    PixelStore { parameter: u32, value: i32 },
    TexImage2d {
        target: u32,
        level: i32,
        internal_format: i32,
        width: u32,
        height: u32,
        border: i32,
        format: u32,
        ty: u32,
        pixels: Vec<u8>,
    },
    DeleteTexture { texture: u32 },
    BindSampler { unit: u32, sampler: u32 },
    Enable { parameter: u32 },
    Disable { parameter: u32 },
    BlendEquation { mode: u32 },
    BlendFunc { src: u32, dst: u32 },
    PolygonMode { face: u32, mode: u32 },
    Viewport { x: i32, y: i32, width: i32, height: i32 },
    Scissor { x: i32, y: i32, width: i32, height: i32 },
    Uniform1i { location: u32, value: i32 },
    /// `matrix` holds the bit patterns of the sixteen entries, column by
    /// column.
    UniformMatrix4 { location: u32, transpose: bool, matrix: [u32; 16] },
    EnableVertexAttribArray { index: u32 },
    VertexAttribPointer {
        index: u32,
        size: i32,
        data_type: u32,
        normalized: bool,
        stride: i32,
        offset: i32,
    },
    /// `offset` is the byte offset of the first index in the bound index
    /// buffer.
    DrawElements { mode: u32, count: u32, element_type: u32, offset: u64 },
    /// Answered with [`GlReply::Created`] or [`GlReply::CreateFailed`].
    CreateVertexArray,
    /// Answered with [`GlReply::Created`] or [`GlReply::CreateFailed`].
    CreateProgram,
    /// Answered with [`GlReply::Created`] or [`GlReply::CreateFailed`].
    CreateShader { shader_type: u32 },
    /// Answered with [`GlReply::Created`] or [`GlReply::CreateFailed`].
    CreateBuffer,
    /// Answered with [`GlReply::Created`] or [`GlReply::CreateFailed`].
    CreateTexture,
    /// Answered with [`GlReply::Status`].
    GetShaderCompileStatus { shader: u32 },
    /// Answered with [`GlReply::Log`].
    GetShaderInfoLog { shader: u32 },
    /// Answered with [`GlReply::Status`].
    GetProgramLinkStatus { program: u32 },
    /// Answered with [`GlReply::Log`].
    GetProgramInfoLog { program: u32 },
    /// Answered with [`GlReply::Location`].
    GetUniformLocation { program: u32, uniform: Uniform },
    /// Answered with [`GlReply::Location`].
    GetAttribLocation { program: u32, attribute: Attribute },
    /// Answered with [`GlReply::Integer`].
    GetParameter { parameter: u32 },
}

/// The mathematical value of a [`GlCall`]: text and bytes as sequences.
#[allow(inconsistent_fields)]
pub enum GlCallView {
    BindVertexArray { vertex_array: u32 },
    DeleteVertexArray { vertex_array: u32 },
    ShaderSource { shader: u32, source: Seq<char> },
    CompileShader { shader: u32 },
    AttachShader { program: u32, shader: u32 },
    DetachShader { program: u32, shader: u32 },
    DeleteShader { shader: u32 },
    LinkProgram { program: u32 },
    UseProgram { program: u32 },
    DeleteProgram { program: u32 },
    BindBuffer { target: u32, buffer: u32 },
    BufferData { target: u32, data: Seq<u8>, usage: u32 },
    DeleteBuffer { buffer: u32 },
    ActiveTexture { unit: u32 },
    BindTexture { target: u32, texture: u32 },
    TexParameter { target: u32, parameter: u32, value: i32 },
    PixelStore { parameter: u32, value: i32 },
    TexImage2d {
        target: u32,
        level: i32,
        internal_format: i32,
        width: u32,
        height: u32,
        border: i32,
        format: u32,
        ty: u32,
        pixels: Seq<u8>,
    },
    DeleteTexture { texture: u32 },
    BindSampler { unit: u32, sampler: u32 },
    Enable { parameter: u32 },
    Disable { parameter: u32 },
    BlendEquation { mode: u32 },
    BlendFunc { src: u32, dst: u32 },
    PolygonMode { face: u32, mode: u32 },
    Viewport { x: i32, y: i32, width: i32, height: i32 },
    Scissor { x: i32, y: i32, width: i32, height: i32 },
    Uniform1i { location: u32, value: i32 },
    UniformMatrix4 { location: u32, transpose: bool, matrix: Seq<u32> },
    EnableVertexAttribArray { index: u32 },
    VertexAttribPointer {
        index: u32,
        size: i32,
        data_type: u32,
        normalized: bool,
        stride: i32,
        offset: i32,
    },
    DrawElements { mode: u32, count: u32, element_type: u32, offset: u64 },
    CreateVertexArray,
    CreateProgram,
    CreateShader { shader_type: u32 },
    CreateBuffer,
    CreateTexture,
    GetShaderCompileStatus { shader: u32 },
    GetShaderInfoLog { shader: u32 },
    GetProgramLinkStatus { program: u32 },
    GetProgramInfoLog { program: u32 },
    GetUniformLocation { program: u32, uniform: Uniform },
    GetAttribLocation { program: u32, attribute: Attribute },
    GetParameter { parameter: u32 },
}

impl View for GlCall {
    type V = GlCallView;

    open spec fn view(&self) -> GlCallView {
        match *self {
            GlCall::BindVertexArray { vertex_array } => GlCallView::BindVertexArray {
                vertex_array,
            },
            GlCall::DeleteVertexArray { vertex_array } => GlCallView::DeleteVertexArray {
                vertex_array,
            },
            GlCall::ShaderSource { shader, source } => GlCallView::ShaderSource {
                shader,
                source: source@,
            },
            GlCall::CompileShader { shader } => GlCallView::CompileShader { shader },
            GlCall::AttachShader { program, shader } => GlCallView::AttachShader {
                program,
                shader,
            },
            GlCall::DetachShader { program, shader } => GlCallView::DetachShader {
                program,
                shader,
            },
            GlCall::DeleteShader { shader } => GlCallView::DeleteShader { shader },
            GlCall::LinkProgram { program } => GlCallView::LinkProgram { program },
            GlCall::UseProgram { program } => GlCallView::UseProgram { program },
            GlCall::DeleteProgram { program } => GlCallView::DeleteProgram { program },
            GlCall::BindBuffer { target, buffer } => GlCallView::BindBuffer { target, buffer },
            GlCall::BufferData { target, data, usage } => GlCallView::BufferData {
                target,
                data: data@,
                usage,
            },
            GlCall::DeleteBuffer { buffer } => GlCallView::DeleteBuffer { buffer },
            GlCall::ActiveTexture { unit } => GlCallView::ActiveTexture { unit },
            GlCall::BindTexture { target, texture } => GlCallView::BindTexture {
                target,
                texture,
            },
            GlCall::TexParameter { target, parameter, value } => GlCallView::TexParameter {
                target,
                parameter,
                value,
            },
            GlCall::PixelStore { parameter, value } => GlCallView::PixelStore {
                parameter,
                value,
            },
            GlCall::TexImage2d {
                target,
                level,
                internal_format,
                width,
                height,
                border,
                format,
                ty,
                pixels,
            } => GlCallView::TexImage2d {
                target,
                level,
                internal_format,
                width,
                height,
                border,
                format,
                ty,
                pixels: pixels@,
            },
            GlCall::DeleteTexture { texture } => GlCallView::DeleteTexture { texture },
            GlCall::BindSampler { unit, sampler } => GlCallView::BindSampler { unit, sampler },
            GlCall::Enable { parameter } => GlCallView::Enable { parameter },
            GlCall::Disable { parameter } => GlCallView::Disable { parameter },
            GlCall::BlendEquation { mode } => GlCallView::BlendEquation { mode },
            GlCall::BlendFunc { src, dst } => GlCallView::BlendFunc { src, dst },
            GlCall::PolygonMode { face, mode } => GlCallView::PolygonMode { face, mode },
            GlCall::Viewport { x, y, width, height } => GlCallView::Viewport {
                x,
                y,
                width,
                height,
            },
            GlCall::Scissor { x, y, width, height } => GlCallView::Scissor {
                x,
                y,
                width,
                height,
            },
            GlCall::Uniform1i { location, value } => GlCallView::Uniform1i { location, value },
            GlCall::UniformMatrix4 { location, transpose, matrix } => GlCallView::UniformMatrix4 {
                location,
                transpose,
                matrix: matrix@,
            },
            GlCall::EnableVertexAttribArray { index } => GlCallView::EnableVertexAttribArray {
                index,
            },
            GlCall::VertexAttribPointer {
                index,
                size,
                data_type,
                normalized,
                stride,
                offset,
            } => GlCallView::VertexAttribPointer {
                index,
                size,
                data_type,
                normalized,
                stride,
                offset,
            },
            GlCall::DrawElements { mode, count, element_type, offset } => GlCallView::DrawElements {
                mode,
                count,
                element_type,
                offset,
            },
            GlCall::CreateVertexArray => GlCallView::CreateVertexArray,
            GlCall::CreateProgram => GlCallView::CreateProgram,
            GlCall::CreateShader { shader_type } => GlCallView::CreateShader { shader_type },
            GlCall::CreateBuffer => GlCallView::CreateBuffer,
            GlCall::CreateTexture => GlCallView::CreateTexture,
            GlCall::GetShaderCompileStatus { shader } => GlCallView::GetShaderCompileStatus {
                shader,
            },
            GlCall::GetShaderInfoLog { shader } => GlCallView::GetShaderInfoLog { shader },
            GlCall::GetProgramLinkStatus { program } => GlCallView::GetProgramLinkStatus {
                program,
            },
            GlCall::GetProgramInfoLog { program } => GlCallView::GetProgramInfoLog { program },
            GlCall::GetUniformLocation { program, uniform } => GlCallView::GetUniformLocation {
                program,
                uniform,
            },
            GlCall::GetAttribLocation { program, attribute } => GlCallView::GetAttribLocation {
                program,
                attribute,
            },
            GlCall::GetParameter { parameter } => GlCallView::GetParameter { parameter },
        }
    }
}

impl GlCallView {
    /// Whether the call yields a value, so that the answer to it is another
    /// than [`GlReply::Done`].
    pub open spec fn is_query(self) -> bool {
        match self {
            GlCallView::CreateVertexArray
            | GlCallView::CreateProgram
            | GlCallView::CreateShader { .. }
            | GlCallView::CreateBuffer
            | GlCallView::CreateTexture
            | GlCallView::GetShaderCompileStatus { .. }
            | GlCallView::GetShaderInfoLog { .. }
            | GlCallView::GetProgramLinkStatus { .. }
            | GlCallView::GetProgramInfoLog { .. }
            | GlCallView::GetUniformLocation { .. }
            | GlCallView::GetAttribLocation { .. }
            | GlCallView::GetParameter { .. } => true,
            _ => false,
        }
    }
}

/// The values of a list of calls, in order.
pub open spec fn call_views(calls: Seq<GlCall>) -> Seq<GlCallView> {
    calls.map_values(|call: GlCall| call@)
}

/// The answer of the graphics context to one [`GlCall`].
#[derive(Clone, Debug, PartialEq, Eq)]
pub enum GlReply {
    /// The call yields nothing and has been issued.
    Done,
    /// The name of the object that was created.
    Created(u32),
    /// No object could be created; the text says why.
    CreateFailed(String),
    /// A compile or link status.
    Status(bool),
    /// An information log.
    Log(String),
    /// The location of a uniform or an attribute, if the program has it.
    Location(Option<u32>),
    /// An integer state value.
    Integer(i32),
}

} // verus!
