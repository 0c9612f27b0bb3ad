//! The vocabulary spoken between the library and the GPU.
//!
//! The library never touches the GPU itself: it hands out [`Command`]s, and
//! whoever owns the real device (or a recording stand-in) performs them. A
//! command that asks a question is answered with a [`Reply`]. Object handles
//! are plain integers chosen by the executor; the library never does
//! arithmetic on them.
use vstd::prelude::*;

verus! {

/// The pipeline stage a shader object belongs to.
#[derive(Clone, Copy, Debug, PartialEq, Eq, Structural)]
pub enum Stage {
    Vertex,
    Fragment,
}

/// Which drawable a piece of static configuration belongs to.
#[derive(Clone, Copy, Debug, PartialEq, Eq, Structural)]
pub enum Variant {
    /// The lit, textured cube drawn with an index buffer.
    Mesh,
    /// The screen-aligned textured quad drawn from plain vertices.
    Quad,
}

/// A shader source text; the texts themselves are configuration owned by the
/// executor.
#[derive(Clone, Copy, Debug, PartialEq, Eq, Structural)]
pub enum ShaderText {
    MeshVertex,
    MeshFragment,
    QuadVertex,
    QuadFragment,
}

/// Where a buffer is bound.
#[derive(Clone, Copy, Debug, PartialEq, Eq, Structural)]
pub enum BufferTarget {
    Array,
    ElementArray,
}

/// The static geometry uploaded into a buffer.
#[derive(Clone, Copy, Debug, PartialEq, Eq, Structural)]
pub enum Geometry {
    /// Interleaved position, texture coordinate and normal of the cube.
    MeshVertices,
    /// The cube's triangle indices.
    MeshIndices,
    /// Interleaved position and texture coordinate of the quad.
    QuadVertices,
}

/// Attribute and uniform names used by the shader programs.
#[derive(Clone, Copy, Debug, PartialEq, Eq, Structural)]
pub enum Name {
    Position,
    Texcoord,
    Normal,
    ProjectionMatrix,
    ModelMatrix,
    ViewMatrix,
    Sampler,
}

/// The two matrices a render context exposes to a drawable.
#[derive(Clone, Copy, Debug, PartialEq, Eq, Structural)]
pub enum MatrixSlot {
    Projection,
    Model,
}

/// Texture parameters set once the real image has arrived.
#[derive(Clone, Copy, Debug, PartialEq, Eq, Structural)]
pub enum TexSetting {
    WrapSClampToEdge,
    WrapTClampToEdge,
    MinFilterLinear,
}

/// One call into the GPU.
///
/// Handles are `u32` values picked by the executor. Commands whose name starts
/// with `Create` or `Query` are answered with a [`Reply`]; the others are
/// fire-and-forget.
#[derive(Clone, Debug, PartialEq, Eq)]
pub enum Command {
    CreateVertexArray,
    BindVertexArray(Option<u32>),
    DeleteVertexArray(Option<u32>),
    CreateBuffer,
    BindBuffer(BufferTarget, Option<u32>),
    BufferData(BufferTarget, Geometry),
    DeleteBuffer(Option<u32>),
    CreateShader(Stage),
    ShaderSource(u32, ShaderText),
    CompileShader(u32),
    QueryCompileStatus(u32),
    QueryShaderLog(u32),
    DeleteShader(u32),
    CreateProgram,
    AttachShader(u32, u32),
    LinkProgram(u32),
    QueryLinkStatus(u32),
    QueryProgramLog(u32),
    DeleteProgram(Option<u32>),
    UseProgram(Option<u32>),
    QueryAttribLocation(u32, Name),
    BindAttribLocation(u32, u32, Name),
    QueryUniformLocation(u32, Name),
    EnableVertexAttrib(u32),
    /// A float attribute of `size` components, `stride` and `offset` in bytes.
    VertexAttribPointer { index: u32, size: i32, stride: i32, offset: i32 },
    ActiveTexture(u32),
    Uniform1i(Option<u32>, i32),
    /// Upload the render context's matrix in `slot` to a uniform location.
    UniformMatrix(Option<u32>, MatrixSlot),
    CreateTexture,
    BindTexture(Option<u32>),
    /// Upload raw RGBA pixels to the bound texture.
    TexImagePixels { width: i32, height: i32, rgba: Vec<u8> },
    /// Ask the host to decode the image at `url`; when it has, the executor
    /// reports it through `Texture::on_image_ready`.
    LoadImage(Option<u32>, String),
    /// Upload the decoded image to the bound texture.
    TexImageDecoded,
    GenerateMipmap,
    TexParameter(TexSetting),
    Viewport { x: i32, y: i32, width: i32, height: i32 },
    ClearColor { r: u8, g: u8, b: u8, a: u8 },
    EnableDepthTest,
    DepthFuncLessEqual,
    /// Clear the color and depth buffers.
    Clear,
    DrawTrianglesIndexed(i32),
    DrawTriangles(i32),
}

/// The executor's answer to a `Create` or `Query` command.
#[derive(Clone, Debug, PartialEq, Eq)]
pub enum Reply {
    /// A new object, or a uniform location; `None` where the GPU gave none.
    Object(Option<u32>),
    /// A compile or link status.
    Flag(bool),
    /// An info log, where the GPU has one.
    Text(Option<String>),
    /// An attribute location, as the unsigned value the GPU's index takes.
    Location(u32),
}

/// The object a reply hands over; any other reply hands over none.
pub open spec fn object_of(r: Reply) -> Option<u32> {
    match r {
        Reply::Object(o) => o,
        _ => None,
    }
}

/// A status reply; anything but a true flag counts as failure.
pub open spec fn flag_of(r: Reply) -> bool {
    match r {
        Reply::Flag(b) => b,
        _ => false,
    }
}

/// An attribute location; anything else reads as the "not found" location,
/// -1 taken as an unsigned index.
pub open spec fn location_of(r: Reply) -> u32 {
    match r {
        Reply::Location(l) => l,
        _ => 0xffff_ffffu32,
    }
}

pub fn reply_object(r: &Reply) -> (o: Option<u32>)
    ensures
        o == object_of(*r),
{
    match r {
        Reply::Object(o) => *o,
        _ => None,
    }
}

pub fn reply_flag(r: &Reply) -> (b: bool)
    ensures
        b == flag_of(*r),
{
    match r {
        Reply::Flag(b) => *b,
        _ => false,
    }
}

pub fn reply_location(r: &Reply) -> (l: u32)
    ensures
        l == location_of(*r),
{
    match r {
        Reply::Location(l) => *l,
        _ => 0xffff_ffffu32,
    }
}

/// The identifier the shader programs use for a name.
pub open spec fn name_text(n: Name) -> Seq<char> {
    match n {
        Name::Position => "position"@,
        Name::Texcoord => "texcoord"@,
        Name::Normal => "normal"@,
        Name::ProjectionMatrix => "upm"@,
        Name::ModelMatrix => "umm"@,
        Name::ViewMatrix => "uvm"@,
        Name::Sampler => "uSampler"@,
    }
}

impl Name {
    /// The identifier the shader programs use for this name.
    pub fn text(&self) -> (r: &'static str)
        ensures
            r@ == name_text(*self),
    {
        match self {
            Name::Position => {
                proof { reveal_strlit("position"); }
                "position"
            },
            Name::Texcoord => {
                proof { reveal_strlit("texcoord"); }
                "texcoord"
            },
            Name::Normal => {
                proof { reveal_strlit("normal"); }
                "normal"
            },
            Name::ProjectionMatrix => {
                proof { reveal_strlit("upm"); }
                "upm"
            },
            Name::ModelMatrix => {
                proof { reveal_strlit("umm"); }
                "umm"
            },
            Name::ViewMatrix => {
                proof { reveal_strlit("uvm"); }
                "uvm"
            },
            Name::Sampler => {
                proof { reveal_strlit("uSampler"); }
                "uSampler"
            },
        }
    }
}

} // verus!
