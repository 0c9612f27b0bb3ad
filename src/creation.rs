//! Creating a drawable, one GPU round trip at a time.
//!
//! A [`Build`] holds what has been created so far and the question it is
//! waiting on. Each [`Build::resume`] takes the GPU's answer and yields the
//! commands to run next together with the new state: still pending, a finished
//! drawable, or a failure. On failure the commands release every object the
//! build had been handed, so nothing leaks.
use vstd::prelude::*;
use crate::command::{
    flag_of, location_of, object_of, reply_flag, reply_location, reply_object, BufferTarget,
    Command, Geometry, Name, Reply, ShaderText, Stage, Variant,
};
use crate::drawable::{Cube, Drawable, Quad};

verus! {

/// Bytes in one float of vertex data.
pub const FLOAT_BYTES: i32 = 4;

/// The cube's vertices: position (3), texture coordinate (2), normal (3).
pub const MESH_STRIDE: i32 = 8 * FLOAT_BYTES;
pub const MESH_TEXCOORD_OFFSET: i32 = 3 * FLOAT_BYTES;
pub const MESH_NORMAL_OFFSET: i32 = 5 * FLOAT_BYTES;

/// The quad's vertices: position (2), texture coordinate (2).
pub const QUAD_STRIDE: i32 = 4 * FLOAT_BYTES;
pub const QUAD_TEXCOORD_OFFSET: i32 = 2 * FLOAT_BYTES;

/// The answer a build waits for.
#[derive(Clone, Copy, Debug, PartialEq, Eq, Structural)]
pub enum Phase {
    VertexArray,
    VertexBuffer,
    IndexBuffer,
    Shader(Stage),
    Compiled(Stage),
    ShaderLog(Stage),
    Program,
    Linked,
    ProgramLog,
    Attribute(Name),
    Uniform(Name),
}

/// Why a drawable could not be created, with the GPU's diagnostic text.
#[derive(Clone, Debug, PartialEq, Eq)]
pub enum ResourceError {
    CompileFailed(String),
    LinkFailed(String),
}

impl ResourceError {
    /// Whether it is a link failure, and the diagnostic text.
    pub open spec fn view(&self) -> (bool, Seq<char>) {
        match self {
            ResourceError::CompileFailed(s) => (false, s@),
            ResourceError::LinkFailed(s) => (true, s@),
        }
    }

    /// The diagnostic text.
    pub fn message(&self) -> (r: &str)
        ensures
            r@ == self.view().1,
    {
        match self {
            ResourceError::CompileFailed(s) => s.as_str(),
            ResourceError::LinkFailed(s) => s.as_str(),
        }
    }
}

/// A drawable being created.
#[derive(Clone, Copy, Debug, PartialEq, Eq, Structural)]
pub struct Build {
    pub variant: Variant,
    pub phase: Phase,
    pub vao: Option<u32>,
    pub vbuf: Option<u32>,
    pub ibuf: Option<u32>,
    pub vs: Option<u32>,
    pub fs: Option<u32>,
    pub program: Option<u32>,
    pub position: u32,
    pub texcoord: u32,
    pub normal: u32,
    pub projection: Option<u32>,
    pub model: Option<u32>,
    pub sampler: Option<u32>,
}

/// Where a build stands after an answer.
#[derive(Clone, Copy, Debug, PartialEq, Eq, Structural)]
pub enum Step {
    /// Run the commands; the last one asks the question to resume with.
    Pending(Build),
    /// Run the commands; the drawable is ready.
    Ready(Drawable),
}

pub open spec fn shader_text(v: Variant, s: Stage) -> ShaderText {
    match (v, s) {
        (Variant::Mesh, Stage::Vertex) => ShaderText::MeshVertex,
        (Variant::Mesh, Stage::Fragment) => ShaderText::MeshFragment,
        (Variant::Quad, Stage::Vertex) => ShaderText::QuadVertex,
        (Variant::Quad, Stage::Fragment) => ShaderText::QuadFragment,
    }
}

pub open spec fn vertex_geometry(v: Variant) -> Geometry {
    match v {
        Variant::Mesh => Geometry::MeshVertices,
        Variant::Quad => Geometry::QuadVertices,
    }
}

/// The matrix uniform the model transform goes to.
pub open spec fn model_uniform(v: Variant) -> Name {
    match v {
        Variant::Mesh => Name::ModelMatrix,
        Variant::Quad => Name::ViewMatrix,
    }
}

/// The diagnostic text of a log reply, or `default` where the GPU gave none.
pub open spec fn log_or(r: Reply, default: Seq<char>) -> Seq<char> {
    match r {
        Reply::Text(Some(t)) => t@,
        _ => default,
    }
}

fn model_uniform_of(v: Variant) -> (n: Name)
    ensures
        n == model_uniform(v),
{
    match v {
        Variant::Mesh => Name::ModelMatrix,
        Variant::Quad => Name::ViewMatrix,
    }
}

/// The log text of a reply, or `default` where it holds none.
fn log_text(r: Reply, default: &str) -> (t: String)
    ensures
        t@ == log_or(r, default@),
{
    match r {
        Reply::Text(Some(t)) => t,
        _ => default.to_owned(),
    }
}

fn shader_text_of(v: Variant, s: Stage) -> (t: ShaderText)
    ensures
        t == shader_text(v, s),
{
    match (v, s) {
        (Variant::Mesh, Stage::Vertex) => ShaderText::MeshVertex,
        (Variant::Mesh, Stage::Fragment) => ShaderText::MeshFragment,
        (Variant::Quad, Stage::Vertex) => ShaderText::QuadVertex,
        (Variant::Quad, Stage::Fragment) => ShaderText::QuadFragment,
    }
}

impl Build {








    /// The objects created so far are there wherever a later step needs them.
    pub open spec fn wf(self) -> bool {
        &&& (self.variant == Variant::Quad ==> self.phase != Phase::IndexBuffer
            && !(self.phase is Attribute))
        &&& match self.phase {
            Phase::Compiled(Stage::Vertex) | Phase::ShaderLog(Stage::Vertex) => self.vs is Some
                && self.fs is None && self.program is None,
            Phase::Shader(Stage::Fragment) => self.vs is Some && self.fs is None
                && self.program is None,
            Phase::Compiled(Stage::Fragment) | Phase::ShaderLog(Stage::Fragment)
            | Phase::Program => self.vs is Some && self.fs is Some && self.program is None,
            Phase::Linked | Phase::ProgramLog | Phase::Attribute(_) | Phase::Uniform(_) => self.vs
                is Some && self.fs is Some && self.program is Some,
            _ => self.vs is None && self.fs is None && self.program is None,
        }
    }

    /// The build with the answer to its question recorded.
    pub open spec fn absorb(self, r: Reply) -> Build {
        match self.phase {
            Phase::VertexArray => Build { vao: object_of(r), ..self },
            Phase::VertexBuffer => Build { vbuf: object_of(r), ..self },
            Phase::IndexBuffer => Build { ibuf: object_of(r), ..self },
            Phase::Shader(Stage::Vertex) => Build { vs: object_of(r), ..self },
            Phase::Shader(Stage::Fragment) => Build { fs: object_of(r), ..self },
            Phase::Program => Build { program: object_of(r), ..self },
            Phase::Attribute(Name::Position) => Build { position: location_of(r), ..self },
            Phase::Attribute(Name::Texcoord) => Build { texcoord: location_of(r), ..self },
            Phase::Attribute(_) => Build { normal: location_of(r), ..self },
            Phase::Uniform(Name::ProjectionMatrix) => Build { projection: object_of(r), ..self },
            Phase::Uniform(Name::Sampler) => Build { sampler: object_of(r), ..self },
            Phase::Uniform(_) => Build { model: object_of(r), ..self },
            _ => self,
        }
    }

    /// Whether the answer ends the build in failure: an object that could not
    /// be created, or a compile or link status that was not a success (the
    /// failure then lands once the log has been read).
    pub open spec fn fails(self, r: Reply) -> bool {
        match self.phase {
            Phase::Shader(_) | Phase::Program => object_of(r) is None,
            Phase::ShaderLog(_) | Phase::ProgramLog => true,
            _ => false,
        }
    }

    /// Whether the answer is the last one a successful build needs.
    pub open spec fn finishes(self) -> bool {
        self.phase == Phase::Uniform(Name::Sampler)
    }

    /// The question asked next, where the build goes on.
    pub open spec fn next_phase(self, r: Reply) -> Phase {
        match self.phase {
            Phase::VertexArray => Phase::VertexBuffer,
            Phase::VertexBuffer => if self.variant == Variant::Mesh {
                Phase::IndexBuffer
            } else {
                Phase::Shader(Stage::Vertex)
            },
            Phase::IndexBuffer => Phase::Shader(Stage::Vertex),
            Phase::Shader(s) => Phase::Compiled(s),
            Phase::Compiled(s) => if !flag_of(r) {
                Phase::ShaderLog(s)
            } else if s == Stage::Vertex {
                Phase::Shader(Stage::Fragment)
            } else {
                Phase::Program
            },
            Phase::Program => Phase::Linked,
            Phase::Linked => if !flag_of(r) {
                Phase::ProgramLog
            } else if self.variant == Variant::Mesh {
                Phase::Attribute(Name::Position)
            } else {
                Phase::Uniform(Name::ProjectionMatrix)
            },
            Phase::Attribute(Name::Position) => Phase::Attribute(Name::Texcoord),
            Phase::Attribute(Name::Texcoord) => Phase::Attribute(Name::Normal),
            Phase::Attribute(_) => Phase::Uniform(Name::ProjectionMatrix),
            Phase::Uniform(Name::ProjectionMatrix) => Phase::Uniform(model_uniform(self.variant)),
            _ => Phase::Uniform(Name::Sampler),
        }
    }

    /// The state a build that goes on moves to.
    pub open spec fn pending(self, r: Reply) -> Build {
        Build { phase: self.next_phase(r), ..self.absorb(r) }
    }

    /// Deletion of every object held: the program, the shaders, the vertex
    /// array and the buffers.
    pub open spec fn releases(self) -> Seq<Command> {
        let program = match self.program {
            Some(_) => seq![Command::DeleteProgram(self.program)],
            None => seq![],
        };
        let fs = match self.fs {
            Some(h) => seq![Command::DeleteShader(h)],
            None => seq![],
        };
        let vs = match self.vs {
            Some(h) => seq![Command::DeleteShader(h)],
            None => seq![],
        };
        let ibuf = if self.variant == Variant::Mesh {
            seq![Command::DeleteBuffer(self.ibuf)]
        } else {
            seq![]
        };
        program + fs + vs + seq![
            Command::DeleteVertexArray(self.vao),
            Command::DeleteBuffer(self.vbuf),
        ] + ibuf
    }

    /// What a finished build hands over.
    pub open spec fn drawable(self) -> Drawable {
        match self.variant {
            Variant::Mesh => Drawable::Cube(
                Cube {
                    vao: self.vao,
                    program: self.program,
                    pro_mat: self.projection,
                    mod_mat: self.model,
                    sampler: self.sampler,
                },
            ),
            Variant::Quad => Drawable::Quad(
                Quad {
                    pro: self.program,
                    buf: self.vbuf,
                    vao: self.vao,
                    upm: self.projection,
                    uvm: self.model,
                },
            ),
        }
    }

    /// The vertex layout and sampler binding that end a successful build.
    pub open spec fn layout(self) -> Seq<Command> {
        match self.variant {
            Variant::Mesh => seq![
                Command::EnableVertexAttrib(self.position),
                Command::VertexAttribPointer {
                    index: self.position,
                    size: 3,
                    stride: MESH_STRIDE,
                    offset: 0,
                },
                Command::EnableVertexAttrib(self.texcoord),
                Command::VertexAttribPointer {
                    index: self.texcoord,
                    size: 2,
                    stride: MESH_STRIDE,
                    offset: MESH_TEXCOORD_OFFSET,
                },
                Command::EnableVertexAttrib(self.normal),
                Command::VertexAttribPointer {
                    index: self.normal,
                    size: 3,
                    stride: MESH_STRIDE,
                    offset: MESH_NORMAL_OFFSET,
                },
                Command::ActiveTexture(0),
                Command::Uniform1i(self.sampler, 0),
                Command::BindVertexArray(None),
            ],
            Variant::Quad => seq![
                Command::EnableVertexAttrib(0),
                Command::VertexAttribPointer {
                    index: 0,
                    size: 2,
                    stride: QUAD_STRIDE,
                    offset: 0,
                },
                Command::EnableVertexAttrib(1),
                Command::VertexAttribPointer {
                    index: 1,
                    size: 2,
                    stride: QUAD_STRIDE,
                    offset: QUAD_TEXCOORD_OFFSET,
                },
                Command::ActiveTexture(0),
                Command::Uniform1i(self.sampler, 0),
                Command::BindVertexArray(None),
            ],
        }
    }

    /// The commands that move a build that goes on to its next question.
    /// `self` has the answer recorded already.
    pub open spec fn advance(self, r: Reply) -> Seq<Command> {
        let v = self.variant;
        match self.phase {
            Phase::VertexArray => seq![Command::BindVertexArray(self.vao), Command::CreateBuffer],
            Phase::VertexBuffer => seq![
                Command::BindBuffer(BufferTarget::Array, self.vbuf),
                Command::BufferData(BufferTarget::Array, vertex_geometry(v)),
                if v == Variant::Mesh {
                    Command::CreateBuffer
                } else {
                    Command::CreateShader(Stage::Vertex)
                },
            ],
            Phase::IndexBuffer => seq![
                Command::BindBuffer(BufferTarget::ElementArray, self.ibuf),
                Command::BufferData(BufferTarget::ElementArray, Geometry::MeshIndices),
                Command::CreateShader(Stage::Vertex),
            ],
            Phase::Shader(s) => {
                let h = if s == Stage::Vertex {
                    self.vs->Some_0
                } else {
                    self.fs->Some_0
                };
                seq![
                    Command::ShaderSource(h, shader_text(v, s)),
                    Command::CompileShader(h),
                    Command::QueryCompileStatus(h),
                ]
            },
            Phase::Compiled(s) => if !flag_of(r) {
                seq![
                    Command::QueryShaderLog(
                        if s == Stage::Vertex {
                            self.vs->Some_0
                        } else {
                            self.fs->Some_0
                        },
                    ),
                ]
            } else if s == Stage::Vertex {
                seq![Command::CreateShader(Stage::Fragment)]
            } else {
                seq![Command::CreateProgram]
            },
            Phase::Program => {
                let p = self.program->Some_0;
                seq![
                    Command::AttachShader(p, self.vs->Some_0),
                    Command::AttachShader(p, self.fs->Some_0),
                    Command::LinkProgram(p),
                    Command::QueryLinkStatus(p),
                ]
            },
            Phase::Linked => {
                let p = self.program->Some_0;
                if !flag_of(r) {
                    seq![Command::QueryProgramLog(p)]
                } else if v == Variant::Mesh {
                    seq![
                        Command::UseProgram(self.program),
                        Command::QueryAttribLocation(p, Name::Position),
                    ]
                } else {
                    seq![
                        Command::UseProgram(self.program),
                        Command::BindAttribLocation(p, 0, Name::Position),
                        Command::BindAttribLocation(p, 1, Name::Texcoord),
                        Command::QueryUniformLocation(p, Name::ProjectionMatrix),
                    ]
                }
            },
            Phase::Attribute(Name::Position) => seq![
                Command::QueryAttribLocation(self.program->Some_0, Name::Texcoord),
            ],
            Phase::Attribute(Name::Texcoord) => seq![
                Command::QueryAttribLocation(self.program->Some_0, Name::Normal),
            ],
            Phase::Attribute(_) => seq![
                Command::QueryUniformLocation(self.program->Some_0, Name::ProjectionMatrix),
            ],
            Phase::Uniform(Name::ProjectionMatrix) => seq![
                Command::QueryUniformLocation(self.program->Some_0, model_uniform(v)),
            ],
            _ => seq![Command::QueryUniformLocation(self.program->Some_0, Name::Sampler)],
        }
    }

    /// Everything an answer makes the build issue.
    pub open spec fn commands(self, r: Reply) -> Seq<Command> {
        let a = self.absorb(r);
        if self.fails(r) {
            a.releases()
        } else if self.finishes() {
            a.layout()
        } else {
            a.advance(r)
        }
    }

    /// The error a failing answer ends the build with: whether the program
    /// (rather than a shader) failed, and the diagnostic text.
    pub open spec fn error(self, r: Reply) -> (bool, Seq<char>) {
        match self.phase {
            Phase::Shader(_) => (false, "Unable to create shader object"@),
            Phase::ShaderLog(_) => (false, log_or(r, "Unknown error creating shader."@)),
            Phase::Program => (true, "Unable to create shader object"@),
            _ => (true, log_or(r, "Unknown error creating program object."@)),
        }
    }
}

impl Build {
    /// A build that has asked for nothing yet.
    pub open spec fn initial(v: Variant) -> Build {
        Build {
            variant: v,
            phase: Phase::VertexArray,
            vao: None,
            vbuf: None,
            ibuf: None,
            vs: None,
            fs: None,
            program: None,
            position: 0,
            texcoord: 0,
            normal: 0,
            projection: None,
            model: None,
            sampler: None,
        }
    }

    /// Begin creating a drawable of variant `v`: the first question is for a
    /// vertex array.
    pub fn start(v: Variant) -> (r: (Build, Vec<Command>))
        ensures
            r.0 == Build::initial(v),
            r.0.wf(),
            r.0.variant == v,
            r.1@ == seq![Command::CreateVertexArray],
    {
        let b = Build {
            variant: v,
            phase: Phase::VertexArray,
            vao: None,
            vbuf: None,
            ibuf: None,
            vs: None,
            fs: None,
            program: None,
            position: 0,
            texcoord: 0,
            normal: 0,
            projection: None,
            model: None,
            sampler: None,
        };
        (b, vec![Command::CreateVertexArray])
    }

    fn record(&self, r: &Reply) -> (a: Build)
        ensures
            a == self.absorb(*r),
    {
        let mut a = *self;
        match self.phase {
            Phase::VertexArray => a.vao = reply_object(r),
            Phase::VertexBuffer => a.vbuf = reply_object(r),
            Phase::IndexBuffer => a.ibuf = reply_object(r),
            Phase::Shader(Stage::Vertex) => a.vs = reply_object(r),
            Phase::Shader(Stage::Fragment) => a.fs = reply_object(r),
            Phase::Program => a.program = reply_object(r),
            Phase::Attribute(Name::Position) => a.position = reply_location(r),
            Phase::Attribute(Name::Texcoord) => a.texcoord = reply_location(r),
            Phase::Attribute(_) => a.normal = reply_location(r),
            Phase::Uniform(Name::ProjectionMatrix) => a.projection = reply_object(r),
            Phase::Uniform(Name::Sampler) => a.sampler = reply_object(r),
            Phase::Uniform(_) => a.model = reply_object(r),
            _ => {},
        }
        a
    }

    fn release_all(&self) -> (r: Vec<Command>)
        ensures
            r@ == self.releases(),
    {
        let mut r: Vec<Command> = Vec::new();
        if self.program.is_some() {
            r.push(Command::DeleteProgram(self.program));
        }
        if let Some(h) = self.fs {
            r.push(Command::DeleteShader(h));
        }
        if let Some(h) = self.vs {
            r.push(Command::DeleteShader(h));
        }
        r.push(Command::DeleteVertexArray(self.vao));
        r.push(Command::DeleteBuffer(self.vbuf));
        if self.variant == Variant::Mesh {
            r.push(Command::DeleteBuffer(self.ibuf));
        }
        assert(r@ =~= self.releases());
        r
    }

    fn layout_commands(&self) -> (r: Vec<Command>)
        ensures
            r@ == self.layout(),
    {
        match self.variant {
            Variant::Mesh => vec![
                Command::EnableVertexAttrib(self.position),
                Command::VertexAttribPointer {
                    index: self.position,
                    size: 3,
                    stride: MESH_STRIDE,
                    offset: 0,
                },
                Command::EnableVertexAttrib(self.texcoord),
                Command::VertexAttribPointer {
                    index: self.texcoord,
                    size: 2,
                    stride: MESH_STRIDE,
                    offset: MESH_TEXCOORD_OFFSET,
                },
                Command::EnableVertexAttrib(self.normal),
                Command::VertexAttribPointer {
                    index: self.normal,
                    size: 3,
                    stride: MESH_STRIDE,
                    offset: MESH_NORMAL_OFFSET,
                },
                Command::ActiveTexture(0),
                Command::Uniform1i(self.sampler, 0),
                Command::BindVertexArray(None),
            ],
            Variant::Quad => vec![
                Command::EnableVertexAttrib(0),
                Command::VertexAttribPointer {
                    index: 0,
                    size: 2,
                    stride: QUAD_STRIDE,
                    offset: 0,
                },
                Command::EnableVertexAttrib(1),
                Command::VertexAttribPointer {
                    index: 1,
                    size: 2,
                    stride: QUAD_STRIDE,
                    offset: QUAD_TEXCOORD_OFFSET,
                },
                Command::ActiveTexture(0),
                Command::Uniform1i(self.sampler, 0),
                Command::BindVertexArray(None),
            ],
        }
    }

    fn finished(&self) -> (d: Drawable)
        ensures
            d == self.drawable(),
    {
        match self.variant {
            Variant::Mesh => Drawable::Cube(
                Cube {
                    vao: self.vao,
                    program: self.program,
                    pro_mat: self.projection,
                    mod_mat: self.model,
                    sampler: self.sampler,
                },
            ),
            Variant::Quad => Drawable::Quad(
                Quad {
                    pro: self.program,
                    buf: self.vbuf,
                    vao: self.vao,
                    upm: self.projection,
                    uvm: self.model,
                },
            ),
        }
    }
}

impl Build {
    /// Take the GPU's answer to the last question and say what comes next:
    /// the commands to run, and either the state to resume with, the finished
    /// drawable, or the error that ends the build. On an error the commands
    /// release every object that had been created.
    pub fn resume(self, reply: Reply) -> (r: (Result<Step, ResourceError>, Vec<Command>))
        requires
            self.wf(),
        ensures
            r.1@ == self.commands(reply),
            match r.0 {
                Ok(Step::Pending(n)) => !self.fails(reply) && !self.finishes() && n == self.pending(
                    reply,
                ) && n.wf() && n.variant == self.variant,
                Ok(Step::Ready(d)) => !self.fails(reply) && self.finishes() && d == self.absorb(
                    reply,
                ).drawable(),
                Err(e) => self.fails(reply) && e.view() == self.error(reply),
            },
    {
        let a = self.record(&reply);
        let flag = reply_flag(&reply);
        let v = self.variant;
        match self.phase {
            Phase::VertexArray => (
                Ok(Step::Pending(Build { phase: Phase::VertexBuffer, ..a })),
                vec![Command::BindVertexArray(a.vao), Command::CreateBuffer],
            ),
            Phase::VertexBuffer => {
                if v == Variant::Mesh {
                    (
                        Ok(Step::Pending(Build { phase: Phase::IndexBuffer, ..a })),
                        vec![
                            Command::BindBuffer(BufferTarget::Array, a.vbuf),
                            Command::BufferData(BufferTarget::Array, Geometry::MeshVertices),
                            Command::CreateBuffer,
                        ],
                    )
                } else {
                    (
                        Ok(Step::Pending(Build { phase: Phase::Shader(Stage::Vertex), ..a })),
                        vec![
                            Command::BindBuffer(BufferTarget::Array, a.vbuf),
                            Command::BufferData(BufferTarget::Array, Geometry::QuadVertices),
                            Command::CreateShader(Stage::Vertex),
                        ],
                    )
                }
            },
            Phase::IndexBuffer => (
                Ok(Step::Pending(Build { phase: Phase::Shader(Stage::Vertex), ..a })),
                vec![
                    Command::BindBuffer(BufferTarget::ElementArray, a.ibuf),
                    Command::BufferData(BufferTarget::ElementArray, Geometry::MeshIndices),
                    Command::CreateShader(Stage::Vertex),
                ],
            ),
            Phase::Shader(s) => {
                let created = if s == Stage::Vertex {
                    a.vs
                } else {
                    a.fs
                };
                match created {
                    None => {
                        proof {
                            reveal_strlit("Unable to create shader object");
                        }
                        (
                            Err(
                                ResourceError::CompileFailed(
                                    "Unable to create shader object".to_owned(),
                                ),
                            ),
                            a.release_all(),
                        )
                    },
                    Some(h) => (
                        Ok(Step::Pending(Build { phase: Phase::Compiled(s), ..a })),
                        vec![
                            Command::ShaderSource(h, shader_text_of(v, s)),
                            Command::CompileShader(h),
                            Command::QueryCompileStatus(h),
                        ],
                    ),
                }
            },
            Phase::Compiled(s) => {
                if !flag {
                    let h = if s == Stage::Vertex {
                        a.vs.unwrap()
                    } else {
                        a.fs.unwrap()
                    };
                    (
                        Ok(Step::Pending(Build { phase: Phase::ShaderLog(s), ..a })),
                        vec![Command::QueryShaderLog(h)],
                    )
                } else if s == Stage::Vertex {
                    (
                        Ok(Step::Pending(Build { phase: Phase::Shader(Stage::Fragment), ..a })),
                        vec![Command::CreateShader(Stage::Fragment)],
                    )
                } else {
                    (
                        Ok(Step::Pending(Build { phase: Phase::Program, ..a })),
                        vec![Command::CreateProgram],
                    )
                }
            },
            Phase::ShaderLog(_) => {
                proof {
                    reveal_strlit("Unknown error creating shader.");
                }
                let cmds = a.release_all();
                (
                    Err(
                        ResourceError::CompileFailed(
                            log_text(reply, "Unknown error creating shader."),
                        ),
                    ),
                    cmds,
                )
            },
            Phase::Program => match a.program {
                None => {
                    proof {
                        reveal_strlit("Unable to create shader object");
                    }
                    (
                        Err(ResourceError::LinkFailed("Unable to create shader object".to_owned())),
                        a.release_all(),
                    )
                },
                Some(p) => (
                    Ok(Step::Pending(Build { phase: Phase::Linked, ..a })),
                    vec![
                        Command::AttachShader(p, a.vs.unwrap()),
                        Command::AttachShader(p, a.fs.unwrap()),
                        Command::LinkProgram(p),
                        Command::QueryLinkStatus(p),
                    ],
                ),
            },
            Phase::Linked => {
                let p = a.program.unwrap();
                if !flag {
                    (
                        Ok(Step::Pending(Build { phase: Phase::ProgramLog, ..a })),
                        vec![Command::QueryProgramLog(p)],
                    )
                } else if v == Variant::Mesh {
                    (
                        Ok(Step::Pending(Build { phase: Phase::Attribute(Name::Position), ..a })),
                        vec![
                            Command::UseProgram(a.program),
                            Command::QueryAttribLocation(p, Name::Position),
                        ],
                    )
                } else {
                    (
                        Ok(
                            Step::Pending(
                                Build { phase: Phase::Uniform(Name::ProjectionMatrix), ..a },
                            ),
                        ),
                        vec![
                            Command::UseProgram(a.program),
                            Command::BindAttribLocation(p, 0, Name::Position),
                            Command::BindAttribLocation(p, 1, Name::Texcoord),
                            Command::QueryUniformLocation(p, Name::ProjectionMatrix),
                        ],
                    )
                }
            },
            Phase::ProgramLog => {
                proof {
                    reveal_strlit("Unknown error creating program object.");
                }
                let cmds = a.release_all();
                (
                    Err(
                        ResourceError::LinkFailed(
                            log_text(reply, "Unknown error creating program object."),
                        ),
                    ),
                    cmds,
                )
            },
            Phase::Attribute(n) => {
                let p = a.program.unwrap();
                match n {
                    Name::Position => (
                        Ok(Step::Pending(Build { phase: Phase::Attribute(Name::Texcoord), ..a })),
                        vec![Command::QueryAttribLocation(p, Name::Texcoord)],
                    ),
                    Name::Texcoord => (
                        Ok(Step::Pending(Build { phase: Phase::Attribute(Name::Normal), ..a })),
                        vec![Command::QueryAttribLocation(p, Name::Normal)],
                    ),
                    _ => (
                        Ok(
                            Step::Pending(
                                Build { phase: Phase::Uniform(Name::ProjectionMatrix), ..a },
                            ),
                        ),
                        vec![Command::QueryUniformLocation(p, Name::ProjectionMatrix)],
                    ),
                }
            },
            Phase::Uniform(n) => {
                let p = a.program.unwrap();
                match n {
                    Name::ProjectionMatrix => {
                        let m = model_uniform_of(v);
                        (
                            Ok(Step::Pending(Build { phase: Phase::Uniform(m), ..a })),
                            vec![Command::QueryUniformLocation(p, m)],
                        )
                    },
                    Name::Sampler => (Ok(Step::Ready(a.finished())), a.layout_commands()),
                    _ => (
                        Ok(Step::Pending(Build { phase: Phase::Uniform(Name::Sampler), ..a })),
                        vec![Command::QueryUniformLocation(p, Name::Sampler)],
                    ),
                }
            },
        }
    }
}

/// A build that fails leaks nothing: the commands it ends with delete the
/// vertex array, the vertex buffer, the cube's index buffer, every shader and
/// the program it had been handed, including an object handed over by the
/// failing answer itself.
pub proof fn lemma_failure_releases_all(b: Build, reply: Reply)
    requires
        b.wf(),
        b.fails(reply),
    ensures
        ({
            let a = b.absorb(reply);
            let cmds = b.commands(reply);
            &&& cmds.contains(Command::DeleteVertexArray(a.vao))
            &&& cmds.contains(Command::DeleteBuffer(a.vbuf))
            &&& a.variant == Variant::Mesh ==> cmds.contains(Command::DeleteBuffer(a.ibuf))
            &&& a.vs is Some ==> cmds.contains(
                Command::DeleteShader(a.vs->Some_0),
            )
            &&& a.fs is Some ==> cmds.contains(
                Command::DeleteShader(a.fs->Some_0),
            )
            &&& a.program is Some ==> cmds.contains(Command::DeleteProgram(a.program))
        }),
{
    let a = b.absorb(reply);
    let cmds = b.commands(reply);
    let program = match a.program {
        Some(_) => seq![Command::DeleteProgram(a.program)],
        None => seq![],
    };
    let fs = match a.fs {
        Some(h) => seq![Command::DeleteShader(h)],
        None => seq![],
    };
    let vs = match a.vs {
        Some(h) => seq![Command::DeleteShader(h)],
        None => seq![],
    };
    let ibuf = if a.variant == Variant::Mesh {
        seq![Command::DeleteBuffer(a.ibuf)]
    } else {
        seq![]
    };
    let objects = seq![Command::DeleteVertexArray(a.vao), Command::DeleteBuffer(a.vbuf)];
    assert(cmds == program + fs + vs + objects + ibuf);
    let n = (program.len() + fs.len() + vs.len()) as int;
    assert(cmds[n] == Command::DeleteVertexArray(a.vao));
    assert(cmds[n + 1] == Command::DeleteBuffer(a.vbuf));
    if a.variant == Variant::Mesh {
        assert(cmds[n + 2] == Command::DeleteBuffer(a.ibuf));
    }
    if a.program is Some {
        assert(cmds[0] == Command::DeleteProgram(a.program));
    }
    if a.fs is Some {
        assert(cmds[program.len() as int] == Command::DeleteShader(a.fs->Some_0));
    }
    if a.vs is Some {
        assert(cmds[(program.len() + fs.len()) as int] == Command::DeleteShader(a.vs->Some_0));
    }
}

/// While a build goes on it issues no deletion: everything it was handed is
/// still held by the state it moves to.
pub proof fn lemma_pending_keeps_objects(b: Build, reply: Reply)
    requires
        b.wf(),
        !b.fails(reply),
        !b.finishes(),
    ensures
        ({
            let n = b.pending(reply);
            let a = b.absorb(reply);
            &&& n.vao == a.vao
            &&& n.vbuf == a.vbuf
            &&& n.ibuf == a.ibuf
            &&& n.vs == a.vs
            &&& n.fs == a.fs
            &&& n.program == a.program
            &&& forall|i: int|
                0 <= i < b.commands(reply).len() ==> !is_release(#[trigger] b.commands(reply)[i])
        }),
{
}

/// Whether a command deletes an object.
pub open spec fn is_release(c: Command) -> bool {
    c is DeleteVertexArray || c is DeleteBuffer || c is DeleteShader || c is DeleteProgram
}

/// The state a build reaches by going on through `replies`, one at a time.
pub open spec fn after(b: Build, replies: Seq<Reply>) -> Build
    decreases replies.len(),
{
    if replies.len() == 0 {
        b
    } else {
        after(b, replies.drop_last()).pending(replies.last())
    }
}

/// Whether every answer in `replies` lets the build go on.
pub open spec fn goes_on(b: Build, replies: Seq<Reply>) -> bool
    decreases replies.len(),
{
    replies.len() == 0 || {
        let s = after(b, replies.drop_last());
        goes_on(b, replies.drop_last()) && !s.fails(replies.last()) && !s.finishes()
    }
}

/// The phases whose answer hands over an object the build must give back.
pub open spec fn is_creation(p: Phase) -> bool {
    p is VertexArray || p is VertexBuffer || p is IndexBuffer || p is Shader || p is Program
}

/// The object recorded for the answer of creation phase `p`.
pub open spec fn object_at(s: Build, p: Phase) -> Option<u32> {
    match p {
        Phase::VertexArray => s.vao,
        Phase::VertexBuffer => s.vbuf,
        Phase::IndexBuffer => s.ibuf,
        Phase::Shader(Stage::Vertex) => s.vs,
        Phase::Shader(Stage::Fragment) => s.fs,
        _ => s.program,
    }
}

/// The deletion that gives back object `o`, handed over in creation phase `p`.
pub open spec fn release_of(p: Phase, o: Option<u32>) -> Command {
    match p {
        Phase::VertexArray => Command::DeleteVertexArray(o),
        Phase::VertexBuffer | Phase::IndexBuffer => Command::DeleteBuffer(o),
        Phase::Shader(_) => Command::DeleteShader(o->Some_0),
        _ => Command::DeleteProgram(o),
    }
}

/// The order in which a build asks its questions.
pub open spec fn rank(p: Phase) -> int {
    match p {
        Phase::VertexArray => 0,
        Phase::VertexBuffer => 1,
        Phase::IndexBuffer => 2,
        Phase::Shader(Stage::Vertex) => 3,
        Phase::Compiled(Stage::Vertex) => 4,
        Phase::ShaderLog(Stage::Vertex) => 5,
        Phase::Shader(Stage::Fragment) => 6,
        Phase::Compiled(Stage::Fragment) => 7,
        Phase::ShaderLog(Stage::Fragment) => 8,
        Phase::Program => 9,
        Phase::Linked => 10,
        Phase::ProgramLog => 11,
        Phase::Attribute(Name::Position) => 12,
        Phase::Attribute(Name::Texcoord) => 13,
        Phase::Attribute(_) => 14,
        Phase::Uniform(Name::ProjectionMatrix) => 15,
        Phase::Uniform(Name::Sampler) => 17,
        Phase::Uniform(_) => 16,
    }
}

proof fn lemma_step(s: Build, r: Reply)
    requires
        s.wf(),
        !s.fails(r),
        !s.finishes(),
    ensures
        s.pending(r).wf(),
        s.pending(r).variant == s.variant,
        rank(s.pending(r).phase) > rank(s.phase),
        is_creation(s.phase) ==> object_at(s.pending(r), s.phase) == object_of(r),
        forall|p: Phase|
            is_creation(p) && rank(p) < rank(s.phase) ==> object_at(s.pending(r), p)
                == object_at(s, p),
{
}

proof fn lemma_take_drop_last(replies: Seq<Reply>, i: int)
    requires
        0 <= i < replies.len() - 1,
    ensures
        replies.drop_last().take(i) == replies.take(i),
        replies.drop_last()[i] == replies[i],
{
    assert(replies.drop_last().take(i) =~= replies.take(i));
}

proof fn lemma_run_wf(b: Build, replies: Seq<Reply>)
    requires
        b.wf(),
        goes_on(b, replies),
    ensures
        after(b, replies).wf(),
        after(b, replies).variant == b.variant,
    decreases replies.len(),
{
    if replies.len() > 0 {
        lemma_run_wf(b, replies.drop_last());
        lemma_step(after(b, replies.drop_last()), replies.last());
    }
}

/// What the `i`-th answer handed over stays held, and the build has moved
/// past the phase that asked for it.
proof fn lemma_run_keeps(b: Build, replies: Seq<Reply>, i: int)
    requires
        b.wf(),
        goes_on(b, replies),
        0 <= i < replies.len(),
        is_creation(after(b, replies.take(i)).phase),
    ensures
        object_at(after(b, replies), after(b, replies.take(i)).phase) == object_of(replies[i]),
        rank(after(b, replies).phase) > rank(after(b, replies.take(i)).phase),
    decreases replies.len(),
{
    let prev = replies.drop_last();
    lemma_run_wf(b, prev);
    lemma_step(after(b, prev), replies.last());
    if i == replies.len() - 1 {
        assert(prev =~= replies.take(i));
    } else {
        lemma_take_drop_last(replies, i);
        lemma_run_keeps(b, prev, i);
    }
}

/// A build that fails after any number of answers leaks nothing: every object
/// that an earlier answer handed over (a vertex array, a buffer, a shader or
/// the program) is given back by the commands of the failing step.
pub proof fn lemma_failed_build_leaks_nothing(b: Build, replies: Seq<Reply>, last: Reply, i: int)
    requires
        b.wf(),
        goes_on(b, replies),
        after(b, replies).fails(last),
        0 <= i < replies.len(),
        is_creation(after(b, replies.take(i)).phase),
    ensures
        after(b, replies).commands(last).contains(
            release_of(after(b, replies.take(i)).phase, object_of(replies[i])),
        ),
{
    let s = after(b, replies);
    let p = after(b, replies.take(i)).phase;
    lemma_run_wf(b, replies);
    lemma_goes_on_prefix(b, replies, i);
    lemma_run_wf(b, replies.take(i));
    lemma_run_keeps(b, replies, i);
    lemma_failure_releases_all(s, last);
    let a = s.absorb(last);
    assert(object_at(a, p) == object_of(replies[i]));
    if p is Shader || p is Program {
        let q = replies.take(i + 1);
        assert(q.drop_last() =~= replies.take(i));
        assert(q.last() == replies[i]);
        assert(goes_on(b, q)) by {
            lemma_goes_on_prefix(b, replies, i + 1);
        }
    }
}

proof fn lemma_goes_on_prefix(b: Build, replies: Seq<Reply>, k: int)
    requires
        goes_on(b, replies),
        0 <= k <= replies.len(),
    ensures
        goes_on(b, replies.take(k)),
    decreases replies.len(),
{
    if k == replies.len() {
        assert(replies.take(k) =~= replies);
    } else {
        assert(replies.drop_last().take(k) =~= replies.take(k));
        lemma_goes_on_prefix(b, replies.drop_last(), k);
    }
}

} // verus!
