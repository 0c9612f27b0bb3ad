use std::collections::{HashMap, HashSet};

use glrender::command::{
    reply_flag, reply_location, reply_object, Command, MatrixSlot, Name, Reply, Stage, TexSetting,
    Variant,
};
use glrender::creation::{Build, ResourceError, Step};
use glrender::drawable::{Cube, Drawable, Quad};
use glrender::engine::{Engine, EngineState, SURFACE_HEIGHT, SURFACE_WIDTH};
use glrender::texture::Texture;

#[derive(Clone, Copy, Debug, PartialEq, Eq, Hash)]
enum Kind {
    VertexArray,
    Buffer,
    Shader,
    Program,
    Texture,
}

/// A GPU stand-in that hands out handles, answers questions, records every
/// command and keeps track of live objects and texture contents.
struct MockGpu {
    next: u32,
    log: Vec<Command>,
    live: HashSet<(Kind, u32)>,
    stages: HashMap<u32, Stage>,
    fail_compile: Option<Stage>,
    fail_link: bool,
    no_shader_objects: bool,
    diagnostic: Option<String>,
    bound_texture: Option<u32>,
    textures: HashMap<u32, (i32, i32, Vec<u8>)>,
    decoded: (i32, i32, Vec<u8>),
    image_requests: Vec<(Option<u32>, String)>,
}

impl MockGpu {
    fn new() -> MockGpu {
        MockGpu {
            next: 1,
            log: Vec::new(),
            live: HashSet::new(),
            stages: HashMap::new(),
            fail_compile: None,
            fail_link: false,
            no_shader_objects: false,
            diagnostic: None,
            bound_texture: None,
            textures: HashMap::new(),
            decoded: (2, 1, vec![10, 20, 30, 255, 40, 50, 60, 255]),
            image_requests: Vec::new(),
        }
    }

    fn fresh(&mut self, kind: Kind) -> u32 {
        let id = self.next;
        self.next += 1;
        self.live.insert((kind, id));
        id
    }

    fn perform(&mut self, c: &Command) -> Option<Reply> {
        self.log.push(c.clone());
        match c {
            Command::CreateVertexArray => Some(Reply::Object(Some(self.fresh(Kind::VertexArray)))),
            Command::CreateBuffer => Some(Reply::Object(Some(self.fresh(Kind::Buffer)))),
            Command::CreateShader(s) => {
                if self.no_shader_objects {
                    return Some(Reply::Object(None));
                }
                let id = self.fresh(Kind::Shader);
                self.stages.insert(id, *s);
                Some(Reply::Object(Some(id)))
            }
            Command::QueryCompileStatus(h) => {
                Some(Reply::Flag(self.fail_compile != Some(self.stages[h])))
            }
            Command::QueryShaderLog(_) | Command::QueryProgramLog(_) => {
                Some(Reply::Text(self.diagnostic.clone()))
            }
            Command::CreateProgram => Some(Reply::Object(Some(self.fresh(Kind::Program)))),
            Command::QueryLinkStatus(_) => Some(Reply::Flag(!self.fail_link)),
            Command::QueryAttribLocation(_, n) => Some(Reply::Location(match n {
                Name::Position => 0,
                Name::Texcoord => 1,
                _ => 2,
            })),
            Command::QueryUniformLocation(_, n) => Some(Reply::Object(Some(match n {
                Name::ProjectionMatrix => 100,
                Name::ModelMatrix | Name::ViewMatrix => 101,
                _ => 102,
            }))),
            Command::CreateTexture => Some(Reply::Object(Some(self.fresh(Kind::Texture)))),
            Command::DeleteVertexArray(Some(h)) => {
                self.live.remove(&(Kind::VertexArray, *h));
                None
            }
            Command::DeleteBuffer(Some(h)) => {
                self.live.remove(&(Kind::Buffer, *h));
                None
            }
            Command::DeleteShader(h) => {
                self.live.remove(&(Kind::Shader, *h));
                None
            }
            Command::DeleteProgram(Some(h)) => {
                self.live.remove(&(Kind::Program, *h));
                None
            }
            Command::BindTexture(t) => {
                self.bound_texture = *t;
                None
            }
            Command::TexImagePixels { width, height, rgba } => {
                let t = self.bound_texture.expect("a bound texture");
                self.textures.insert(t, (*width, *height, rgba.clone()));
                None
            }
            Command::TexImageDecoded => {
                let t = self.bound_texture.expect("a bound texture");
                self.textures.insert(t, self.decoded.clone());
                None
            }
            Command::LoadImage(t, url) => {
                self.image_requests.push((*t, url.clone()));
                None
            }
            _ => None,
        }
    }

    /// Runs the commands and gives the answer to the last question among them.
    fn run(&mut self, cmds: &[Command]) -> Option<Reply> {
        let mut reply = None;
        for c in cmds {
            reply = self.perform(c);
        }
        reply
    }

    fn count(&self, from: usize, c: &Command) -> usize {
        self.log[from..].iter().filter(|x| *x == c).count()
    }
}

/// Drives a build to its end against the mock.
fn build_with(gpu: &mut MockGpu, start: (Build, Vec<Command>)) -> Result<Drawable, ResourceError> {
    let (mut b, mut cmds) = start;
    loop {
        let reply = gpu.run(&cmds).expect("a question");
        let (step, next) = b.resume(reply);
        match step {
            Ok(Step::Pending(n)) => {
                b = n;
                cmds = next;
            }
            Ok(Step::Ready(d)) => {
                gpu.run(&next);
                return Ok(d);
            }
            Err(e) => {
                gpu.run(&next);
                return Err(e);
            }
        }
    }
}

/// Runs an engine's setup to its end against the mock.
fn set_up(engine: &mut Engine, gpu: &mut MockGpu) -> Result<(), ResourceError> {
    let mut cmds = engine.setup();
    loop {
        let reply = gpu.run(&cmds);
        if !engine.awaits() {
            return Ok(());
        }
        let (next, res) = engine.answer(reply.expect("a question"));
        if let Err(e) = res {
            gpu.run(&next);
            return Err(e);
        }
        cmds = next;
    }
}

fn frame_counts(variant: Variant) {
    let mut gpu = MockGpu::new();
    let mut engine = Engine::create(variant, "cubetexture.png".to_string());
    set_up(&mut engine, &mut gpu).expect("setup succeeds");
    assert!(engine.is_ready());
    let from = gpu.log.len();
    let frame = engine.update();
    gpu.run(&frame);
    let programs: Vec<&Command> =
        gpu.log[from..].iter().filter(|c| matches!(c, Command::UseProgram(_))).collect();
    assert_eq!(programs.len(), 1);
    assert!(matches!(programs[0], Command::UseProgram(Some(_))));
    assert_eq!(gpu.count(from, &Command::Clear), 1);
    let vao_binds = gpu.log[from..]
        .iter()
        .filter(|c| matches!(c, Command::BindVertexArray(Some(_))))
        .count();
    assert_eq!(vao_binds, 1);
    assert_eq!(gpu.count(from, &Command::UniformMatrix(Some(100), MatrixSlot::Projection)), 1);
    assert_eq!(gpu.count(from, &Command::UniformMatrix(Some(101), MatrixSlot::Model)), 1);
    let draws: Vec<&Command> = gpu.log[from..]
        .iter()
        .filter(|c| matches!(c, Command::DrawTriangles(_) | Command::DrawTrianglesIndexed(_)))
        .collect();
    assert_eq!(draws.len(), 1);
    match variant {
        Variant::Mesh => assert_eq!(draws[0], &Command::DrawTrianglesIndexed(36)),
        Variant::Quad => assert_eq!(draws[0], &Command::DrawTriangles(6)),
    }
    assert_eq!(gpu.log[from], Command::Clear);
}

#[test]
fn end_to_end_frame_quad() {
    frame_counts(Variant::Quad);
}

#[test]
fn end_to_end_frame_cube() {
    frame_counts(Variant::Mesh);
}

#[test]
fn setup_configures_surface_first() {
    let mut engine = Engine::create(Variant::Quad, "cubetexture.png".to_string());
    assert!(!engine.is_ready());
    assert!(!engine.awaits());
    assert_eq!(engine.current_state(), EngineState::Uninitialized);
    let cmds = engine.setup();
    assert_eq!(
        cmds,
        vec![
            Command::Viewport { x: 0, y: 0, width: SURFACE_WIDTH, height: SURFACE_HEIGHT },
            Command::ClearColor { r: 0, g: 0, b: 0, a: 255 },
            Command::EnableDepthTest,
            Command::DepthFuncLessEqual,
            Command::CreateVertexArray,
        ]
    );
    assert_eq!((SURFACE_WIDTH, SURFACE_HEIGHT), (360, 480));
    assert!(engine.awaits());
    assert!(!engine.is_ready());
}

#[test]
fn fragment_compile_failure_propagates_without_leaks() {
    for variant in [Variant::Mesh, Variant::Quad] {
        let mut gpu = MockGpu::new();
        gpu.fail_compile = Some(Stage::Fragment);
        gpu.diagnostic = Some("ERROR: 0:4: 'vTexCoord' : undeclared identifier".to_string());
        let mut engine = Engine::create(variant, "cubetexture.png".to_string());
        let err = set_up(&mut engine, &mut gpu).unwrap_err();
        assert_eq!(
            err,
            ResourceError::CompileFailed(
                "ERROR: 0:4: 'vTexCoord' : undeclared identifier".to_string()
            )
        );
        assert_eq!(err.message(), "ERROR: 0:4: 'vTexCoord' : undeclared identifier");
        assert!(gpu.live.is_empty(), "leaked: {:?}", gpu.live);
        assert!(!engine.is_ready());
        assert!(!engine.awaits());
        assert_eq!(engine.current_state(), EngineState::Failed);
        assert!(!gpu.log.contains(&Command::CreateProgram));
    }
}

#[test]
fn vertex_compile_failure_uses_default_message() {
    let mut gpu = MockGpu::new();
    gpu.fail_compile = Some(Stage::Vertex);
    let err = build_with(&mut gpu, Cube::create()).unwrap_err();
    assert_eq!(err, ResourceError::CompileFailed("Unknown error creating shader.".to_string()));
    assert!(gpu.live.is_empty(), "leaked: {:?}", gpu.live);
    assert!(!gpu.log.contains(&Command::CreateShader(Stage::Fragment)));
}

#[test]
fn link_failure_carries_log_and_releases_all() {
    let mut gpu = MockGpu::new();
    gpu.fail_link = true;
    gpu.diagnostic = Some("link: varying mismatch".to_string());
    let err = build_with(&mut gpu, Quad::create()).unwrap_err();
    assert_eq!(err, ResourceError::LinkFailed("link: varying mismatch".to_string()));
    assert!(gpu.live.is_empty(), "leaked: {:?}", gpu.live);
}

#[test]
fn link_failure_without_log() {
    let mut gpu = MockGpu::new();
    gpu.fail_link = true;
    let err = build_with(&mut gpu, Cube::create()).unwrap_err();
    assert_eq!(
        err,
        ResourceError::LinkFailed("Unknown error creating program object.".to_string())
    );
    assert!(gpu.live.is_empty());
}

#[test]
fn missing_shader_object_fails_creation() {
    let mut gpu = MockGpu::new();
    gpu.no_shader_objects = true;
    let err = build_with(&mut gpu, Cube::create()).unwrap_err();
    assert_eq!(err, ResourceError::CompileFailed("Unable to create shader object".to_string()));
    assert!(gpu.live.is_empty());
}

#[test]
fn missing_program_object_fails_creation() {
    let (b, _) = Quad::create();
    let (step, _) = b.resume(Reply::Object(Some(1)));
    let Ok(Step::Pending(b)) = step else { panic!("pending") };
    let (step, _) = b.resume(Reply::Object(Some(2)));
    let Ok(Step::Pending(b)) = step else { panic!("pending") };
    let (step, _) = b.resume(Reply::Object(Some(3)));
    let Ok(Step::Pending(b)) = step else { panic!("pending") };
    let (step, _) = b.resume(Reply::Flag(true));
    let Ok(Step::Pending(b)) = step else { panic!("pending") };
    let (step, _) = b.resume(Reply::Object(Some(4)));
    let Ok(Step::Pending(b)) = step else { panic!("pending") };
    let (step, _) = b.resume(Reply::Flag(true));
    let Ok(Step::Pending(b)) = step else { panic!("pending") };
    let (step, cmds) = b.resume(Reply::Object(None));
    assert_eq!(step, Err(ResourceError::LinkFailed("Unable to create shader object".to_string())));
    assert_eq!(
        cmds,
        vec![
            Command::DeleteShader(4),
            Command::DeleteShader(3),
            Command::DeleteVertexArray(Some(1)),
            Command::DeleteBuffer(Some(2)),
        ]
    );
}

#[test]
fn cube_creation_sequence() {
    let mut gpu = MockGpu::new();
    let d = build_with(&mut gpu, Cube::create()).expect("cube");
    let Drawable::Cube(c) = d else { panic!("a cube") };
    assert_eq!(c.vao, Some(1));
    assert_eq!(c.program, Some(6));
    assert_eq!(c.pro_mat, Some(100));
    assert_eq!(c.mod_mat, Some(101));
    assert_eq!(c.sampler, Some(102));
    assert!(gpu.log.contains(&Command::QueryUniformLocation(6, Name::ModelMatrix)));
    assert!(gpu.log.contains(&Command::VertexAttribPointer {
        index: 2,
        size: 3,
        stride: 32,
        offset: 20
    }));
    assert!(gpu.log.contains(&Command::VertexAttribPointer {
        index: 1,
        size: 2,
        stride: 32,
        offset: 12
    }));
    assert_eq!(gpu.log.last(), Some(&Command::BindVertexArray(None)));
    assert!(gpu.log.contains(&Command::Uniform1i(Some(102), 0)));
}

#[test]
fn quad_creation_sequence() {
    let mut gpu = MockGpu::new();
    let d = build_with(&mut gpu, Quad::create()).expect("quad");
    let Drawable::Quad(q) = d else { panic!("a quad") };
    assert_eq!(q.vao, Some(1));
    assert_eq!(q.buf, Some(2));
    assert_eq!(q.pro, Some(5));
    assert_eq!(q.upm, Some(100));
    assert_eq!(q.uvm, Some(101));
    assert!(gpu.log.contains(&Command::QueryUniformLocation(5, Name::ViewMatrix)));
    assert!(gpu.log.contains(&Command::BindAttribLocation(5, 1, Name::Texcoord)));
    assert!(gpu.log.contains(&Command::VertexAttribPointer {
        index: 1,
        size: 2,
        stride: 16,
        offset: 8
    }));
    assert!(!gpu.log.iter().any(|c| matches!(c, Command::QueryAttribLocation(..))));
}

#[test]
fn texture_placeholder_then_upgrade() {
    let mut gpu = MockGpu::new();
    let mut engine = Engine::create(Variant::Quad, "cubetexture.png".to_string());
    set_up(&mut engine, &mut gpu).expect("setup succeeds");
    assert_eq!(gpu.image_requests.len(), 1);
    let (t, url) = gpu.image_requests[0].clone();
    assert_eq!(url, "cubetexture.png");
    let t = t.expect("a texture object");
    assert_eq!(gpu.textures[&t], (1, 1, vec![0, 0, 255, 255]));

    assert_eq!(engine.current_state(), EngineState::Ready);
    let frame = engine.update();
    assert_eq!(engine.current_state(), EngineState::Running);
    assert!(frame.contains(&Command::BindTexture(Some(t))));
    gpu.run(&frame);
    assert_eq!(gpu.bound_texture, Some(t));

    let upload = engine.on_image_ready();
    assert_eq!(
        upload,
        vec![
            Command::BindTexture(Some(t)),
            Command::TexImageDecoded,
            Command::GenerateMipmap,
            Command::TexParameter(TexSetting::WrapSClampToEdge),
            Command::TexParameter(TexSetting::WrapTClampToEdge),
            Command::TexParameter(TexSetting::MinFilterLinear),
        ]
    );
    gpu.run(&upload);
    assert_eq!(gpu.textures[&t], (2, 1, vec![10, 20, 30, 255, 40, 50, 60, 255]));
    let frame = engine.update();
    assert!(frame.contains(&Command::BindTexture(Some(t))));
}

#[test]
fn texture_on_image_ready_marks_loaded() {
    let mut t = Texture { handle: Some(7), loaded: false };
    let cmds = t.on_image_ready();
    assert_eq!(t, Texture { handle: Some(7), loaded: true });
    assert_eq!(cmds[0], Command::BindTexture(Some(7)));
    assert_eq!(cmds.len(), 6);
}

#[test]
fn load_texture_installs_placeholder() {
    let (t, cmds) = glrender::texture::load_texture(&Reply::Object(Some(9)), "sky.png");
    assert_eq!(t, Texture { handle: Some(9), loaded: false });
    assert_eq!(
        cmds,
        vec![
            Command::BindTexture(Some(9)),
            Command::TexImagePixels { width: 1, height: 1, rgba: vec![0, 0, 255, 255] },
            Command::LoadImage(Some(9), "sky.png".to_string()),
        ]
    );
    assert_eq!(glrender::texture::request_texture(), vec![Command::CreateTexture]);
}

#[test]
fn draw_commands_of_each_variant() {
    let c = Cube { vao: Some(1), program: Some(2), pro_mat: Some(3), mod_mat: Some(4), sampler: None };
    assert_eq!(
        c.draw(Some(9)),
        vec![
            Command::UseProgram(Some(2)),
            Command::BindVertexArray(Some(1)),
            Command::UniformMatrix(Some(4), MatrixSlot::Model),
            Command::UniformMatrix(Some(3), MatrixSlot::Projection),
            Command::BindTexture(Some(9)),
            Command::DrawTrianglesIndexed(36),
        ]
    );
    let q = Quad { pro: Some(5), buf: Some(6), vao: Some(7), upm: Some(8), uvm: None };
    assert_eq!(
        Drawable::Quad(q).draw(None),
        vec![
            Command::UseProgram(Some(5)),
            Command::BindVertexArray(Some(7)),
            Command::UniformMatrix(Some(8), MatrixSlot::Projection),
            Command::UniformMatrix(None, MatrixSlot::Model),
            Command::BindTexture(None),
            Command::DrawTriangles(6),
            Command::BindVertexArray(None),
        ]
    );
}

#[test]
fn release_gives_back_owned_objects() {
    let c = Cube { vao: Some(1), program: Some(2), pro_mat: None, mod_mat: None, sampler: None };
    assert_eq!(
        c.release(),
        vec![Command::DeleteProgram(Some(2)), Command::DeleteVertexArray(Some(1))]
    );
    let q = Quad { pro: Some(5), buf: Some(6), vao: Some(7), upm: None, uvm: None };
    assert_eq!(
        Drawable::Quad(q).release(),
        vec![
            Command::DeleteProgram(Some(5)),
            Command::DeleteVertexArray(Some(7)),
            Command::DeleteBuffer(Some(6)),
        ]
    );
}

#[test]
fn successful_build_releases_cleanly_afterwards() {
    let mut gpu = MockGpu::new();
    let d = build_with(&mut gpu, Quad::create()).expect("quad");
    gpu.run(&d.release());
    assert!(!gpu.live.iter().any(|(k, _)| matches!(k, Kind::Program | Kind::VertexArray)));
    assert!(!gpu.live.iter().any(|(k, _)| *k == Kind::Buffer));
}

#[test]
fn names_read_as_shader_identifiers() {
    assert_eq!(Name::Position.text(), "position");
    assert_eq!(Name::Texcoord.text(), "texcoord");
    assert_eq!(Name::Normal.text(), "normal");
    assert_eq!(Name::ProjectionMatrix.text(), "upm");
    assert_eq!(Name::ModelMatrix.text(), "umm");
    assert_eq!(Name::ViewMatrix.text(), "uvm");
    assert_eq!(Name::Sampler.text(), "uSampler");
}

#[test]
fn unexpected_replies_read_as_failure() {
    assert_eq!(reply_flag(&Reply::Object(Some(1))), false);
    assert_eq!(reply_flag(&Reply::Flag(true)), true);
    assert_eq!(reply_object(&Reply::Flag(true)), None);
    assert_eq!(reply_object(&Reply::Object(Some(4))), Some(4));
    assert_eq!(reply_location(&Reply::Text(None)), u32::MAX);
    assert_eq!(reply_location(&Reply::Location(3)), 3);
}
