//! The two drawables and what they ask of the GPU once they exist: a draw per
//! frame, and the release of what they own.
use vstd::prelude::*;
use crate::command::{Command, MatrixSlot, Variant};
use crate::creation::Build;

verus! {

/// The number of indices the cube is drawn with: two triangles per face.
pub const CUBE_INDEX_COUNT: i32 = 36;

/// The number of vertices the quad is drawn with: two triangles.
pub const QUAD_VERTEX_COUNT: i32 = 6;

/// The lit, textured cube: a program, a vertex array over an interleaved
/// vertex buffer and an index buffer, and the locations of its uniforms.
#[derive(Clone, Copy, Debug, PartialEq, Eq, Structural)]
pub struct Cube {
    pub vao: Option<u32>,
    pub program: Option<u32>,
    pub pro_mat: Option<u32>,
    pub mod_mat: Option<u32>,
    pub sampler: Option<u32>,
}

/// The screen-aligned quad: a program, one vertex buffer and its vertex
/// array, and the locations of its matrix uniforms.
#[derive(Clone, Copy, Debug, PartialEq, Eq, Structural)]
pub struct Quad {
    pub pro: Option<u32>,
    pub buf: Option<u32>,
    pub vao: Option<u32>,
    pub upm: Option<u32>,
    pub uvm: Option<u32>,
}

/// Whichever drawable a frame driver shows.
#[derive(Clone, Copy, Debug, PartialEq, Eq, Structural)]
pub enum Drawable {
    Cube(Cube),
    Quad(Quad),
}

impl Cube {
    /// Begin creating a cube; see [`Build::resume`] for the rest.
    pub fn create() -> (r: (Build, Vec<Command>))
        ensures
            r.0 == Build::initial(Variant::Mesh),
            r.0.wf(),
            r.0.variant == Variant::Mesh,
            r.1@ == seq![Command::CreateVertexArray],
    {
        Build::start(Variant::Mesh)
    }

    pub open spec fn draw_spec(self, texture: Option<u32>) -> Seq<Command> {
        seq![
            Command::UseProgram(self.program),
            Command::BindVertexArray(self.vao),
            Command::UniformMatrix(self.mod_mat, MatrixSlot::Model),
            Command::UniformMatrix(self.pro_mat, MatrixSlot::Projection),
            Command::BindTexture(texture),
            Command::DrawTrianglesIndexed(CUBE_INDEX_COUNT),
        ]
    }

    pub open spec fn release_spec(self) -> Seq<Command> {
        seq![Command::DeleteProgram(self.program), Command::DeleteVertexArray(self.vao)]
    }

    /// One frame of the cube: bind its program and vertex array, upload the
    /// context's model and projection matrices, bind `texture` and draw the
    /// indexed triangles.
    pub fn draw(&self, texture: Option<u32>) -> (r: Vec<Command>)
        ensures
            r@ == self.draw_spec(texture),
    {
        vec![
            Command::UseProgram(self.program),
            Command::BindVertexArray(self.vao),
            Command::UniformMatrix(self.mod_mat, MatrixSlot::Model),
            Command::UniformMatrix(self.pro_mat, MatrixSlot::Projection),
            Command::BindTexture(texture),
            Command::DrawTrianglesIndexed(CUBE_INDEX_COUNT),
        ]
    }

    /// Give back the program and the vertex array. Taking `self` by value
    /// makes this happen at most once.
    pub fn release(self) -> (r: Vec<Command>)
        ensures
            r@ == self.release_spec(),
    {
        vec![Command::DeleteProgram(self.program), Command::DeleteVertexArray(self.vao)]
    }
}

impl Quad {
    /// Begin creating a quad; see [`Build::resume`] for the rest.
    pub fn create() -> (r: (Build, Vec<Command>))
        ensures
            r.0 == Build::initial(Variant::Quad),
            r.0.wf(),
            r.0.variant == Variant::Quad,
            r.1@ == seq![Command::CreateVertexArray],
    {
        Build::start(Variant::Quad)
    }

    pub open spec fn draw_spec(self, texture: Option<u32>) -> Seq<Command> {
        seq![
            Command::UseProgram(self.pro),
            Command::BindVertexArray(self.vao),
            Command::UniformMatrix(self.upm, MatrixSlot::Projection),
            Command::UniformMatrix(self.uvm, MatrixSlot::Model),
            Command::BindTexture(texture),
            Command::DrawTriangles(QUAD_VERTEX_COUNT),
            Command::BindVertexArray(None),
        ]
    }

    pub open spec fn release_spec(self) -> Seq<Command> {
        seq![
            Command::DeleteProgram(self.pro),
            Command::DeleteVertexArray(self.vao),
            Command::DeleteBuffer(self.buf),
        ]
    }

    /// One frame of the quad: bind its program and vertex array, upload the
    /// context's projection and model matrices, bind `texture`, draw the
    /// triangles and unbind the vertex array.
    pub fn draw(&self, texture: Option<u32>) -> (r: Vec<Command>)
        ensures
            r@ == self.draw_spec(texture),
    {
        vec![
            Command::UseProgram(self.pro),
            Command::BindVertexArray(self.vao),
            Command::UniformMatrix(self.upm, MatrixSlot::Projection),
            Command::UniformMatrix(self.uvm, MatrixSlot::Model),
            Command::BindTexture(texture),
            Command::DrawTriangles(QUAD_VERTEX_COUNT),
            Command::BindVertexArray(None),
        ]
    }

    /// Give back the program, the vertex array and the vertex buffer.
    pub fn release(self) -> (r: Vec<Command>)
        ensures
            r@ == self.release_spec(),
    {
        vec![
            Command::DeleteProgram(self.pro),
            Command::DeleteVertexArray(self.vao),
            Command::DeleteBuffer(self.buf),
        ]
    }
}

impl Drawable {
    pub open spec fn draw_spec(self, texture: Option<u32>) -> Seq<Command> {
        match self {
            Drawable::Cube(c) => c.draw_spec(texture),
            Drawable::Quad(q) => q.draw_spec(texture),
        }
    }

    pub open spec fn release_spec(self) -> Seq<Command> {
        match self {
            Drawable::Cube(c) => c.release_spec(),
            Drawable::Quad(q) => q.release_spec(),
        }
    }

    pub fn draw(&self, texture: Option<u32>) -> (r: Vec<Command>)
        ensures
            r@ == self.draw_spec(texture),
    {
        match self {
            Drawable::Cube(c) => c.draw(texture),
            Drawable::Quad(q) => q.draw(texture),
        }
    }

    pub fn release(self) -> (r: Vec<Command>)
        ensures
            r@ == self.release_spec(),
    {
        match self {
            Drawable::Cube(c) => c.release(),
            Drawable::Quad(q) => q.release(),
        }
    }
}

} // verus!
