//! The frame driver: sets the scene up through a sequence of GPU round trips,
//! then turns each tick into a clear and a draw.
use vstd::prelude::*;
use crate::command::{object_of, Command, Reply, Variant};
use crate::creation::{Build, ResourceError, Step};
use crate::drawable::Drawable;
use crate::texture::{
    image_upload, is_image_request, is_placeholder_upload, load_texture, request_texture, Texture,
};

verus! {

/// The fixed size of the drawing surface, in pixels.
pub const SURFACE_WIDTH: i32 = 360;
pub const SURFACE_HEIGHT: i32 = 480;

/// Where the frame driver stands.
#[derive(Clone, Copy, Debug, PartialEq, Eq, Structural)]
pub enum EngineState {
    Uninitialized,
    /// Setting up: the drawable is being created.
    Creating(Build),
    /// Setting up: the drawable exists, the texture object is asked for.
    Texturing,
    /// Set up; no frame drawn yet.
    Ready,
    /// At least one frame drawn.
    Running,
    /// Setting up failed; the driver draws nothing.
    Failed,
}

/// The frame driver's own state. The projection and model matrices live
/// with whoever runs it, and go to the GPU through `Command::UniformMatrix`.
pub struct Engine {
    variant: Variant,
    url: String,
    state: EngineState,
    drawable: Option<Drawable>,
    texture: Option<Texture>,
}

/// The fixed surface configuration: viewport, black clear color and a
/// less-or-equal depth test.
pub open spec fn surface_setup() -> Seq<Command> {
    seq![
        Command::Viewport { x: 0, y: 0, width: SURFACE_WIDTH, height: SURFACE_HEIGHT },
        Command::ClearColor { r: 0, g: 0, b: 0, a: 255 },
        Command::EnableDepthTest,
        Command::DepthFuncLessEqual,
    ]
}

impl Engine {
    pub closed spec fn variant(self) -> Variant {
        self.variant
    }

    pub closed spec fn url(self) -> Seq<char> {
        self.url@
    }

    pub closed spec fn state(self) -> EngineState {
        self.state
    }

    pub closed spec fn drawable(self) -> Option<Drawable> {
        self.drawable
    }

    pub closed spec fn texture(self) -> Option<Texture> {
        self.texture
    }

    /// What each state needs to hold.
    pub closed spec fn wf(self) -> bool {
        match self.state {
            EngineState::Uninitialized => self.drawable is None && self.texture is None,
            EngineState::Creating(b) => b.wf() && b.variant == self.variant
                && self.drawable is None && self.texture is None,
            EngineState::Texturing => self.drawable is Some && self.texture is None,
            EngineState::Ready | EngineState::Running => self.drawable is Some
                && self.texture is Some,
            EngineState::Failed => self.drawable is None && self.texture is None,
        }
    }

    /// Whether the driver is waiting for the answer to a question.
    pub open spec fn awaits_spec(self) -> bool {
        self.state() is Creating || self.state() is Texturing
    }

    /// Whether the driver can draw frames.
    pub open spec fn is_ready_spec(self) -> bool {
        self.state() is Ready || self.state() is Running
    }

    /// A driver that will show a drawable of variant `variant`, textured with
    /// the image at `url`.
    pub fn create(variant: Variant, url: String) -> (r: Engine)
        ensures
            r.wf(),
            r.variant() == variant,
            r.url() == url@,
            r.state() == EngineState::Uninitialized,
    {
        Engine { variant, url, state: EngineState::Uninitialized, drawable: None, texture: None }
    }

    pub fn current_state(&self) -> (r: EngineState)
        ensures
            r == self.state(),
    {
        self.state
    }

    pub fn awaits(&self) -> (r: bool)
        ensures
            r == self.awaits_spec(),
    {
        match self.state {
            EngineState::Creating(_) | EngineState::Texturing => true,
            _ => false,
        }
    }

    pub fn is_ready(&self) -> (r: bool)
        ensures
            r == self.is_ready_spec(),
    {
        match self.state {
            EngineState::Ready | EngineState::Running => true,
            _ => false,
        }
    }

    /// Configure the surface and begin creating the drawable. The commands
    /// end in a question; answer it with `answer`.
    pub fn setup(&mut self) -> (r: Vec<Command>)
        requires
            old(self).wf(),
            old(self).state() == EngineState::Uninitialized,
        ensures
            final(self).wf(),
            final(self).variant() == old(self).variant(),
            final(self).url() == old(self).url(),
            final(self).state() == EngineState::Creating(Build::initial(old(self).variant())),
            final(self).drawable() is None,
            final(self).texture() is None,
            r@ == surface_setup() + seq![Command::CreateVertexArray],
    {
        let (b, first) = Build::start(self.variant);
        self.state = EngineState::Creating(b);
        let mut r = vec![
            Command::Viewport { x: 0, y: 0, width: SURFACE_WIDTH, height: SURFACE_HEIGHT },
            Command::ClearColor { r: 0, g: 0, b: 0, a: 255 },
            Command::EnableDepthTest,
            Command::DepthFuncLessEqual,
        ];
        let mut first = first;
        r.append(&mut first);
        r
    }
}

impl Engine {
    /// Take the GPU's answer to the driver's last question. While the
    /// drawable is being created the answer goes to its build; once it
    /// exists a texture object is asked for, and the answer to that installs
    /// the placeholder, asks for the image and makes the driver ready. A
    /// failed creation is fatal: its error comes back, together with the
    /// commands that release what had been created.
    pub fn answer(&mut self, reply: Reply) -> (r: (Vec<Command>, Result<(), ResourceError>))
        requires
            old(self).wf(),
            old(self).awaits_spec(),
        ensures
            final(self).wf(),
            final(self).variant() == old(self).variant(),
            final(self).url() == old(self).url(),
            match old(self).state() {
                EngineState::Creating(b) => if b.fails(reply) {
                    &&& final(self).state() == EngineState::Failed
                    &&& r.1 is Err
                    &&& r.1->Err_0.view() == b.error(reply)
                    &&& r.0@ == b.commands(reply)
                } else if !b.finishes() {
                    &&& final(self).state() == EngineState::Creating(b.pending(reply))
                    &&& r.1 is Ok
                    &&& r.0@ == b.commands(reply)
                } else {
                    &&& final(self).state() == EngineState::Texturing
                    &&& final(self).drawable() == Some(b.absorb(reply).drawable())
                    &&& r.1 is Ok
                    &&& r.0@ == b.commands(reply) + seq![Command::CreateTexture]
                },
                _ => {
                    let t = object_of(reply);
                    &&& final(self).state() == EngineState::Ready
                    &&& final(self).drawable() == old(self).drawable()
                    &&& final(self).texture() == Some(Texture { handle: t, loaded: false })
                    &&& r.1 is Ok
                    &&& r.0@.len() == 3
                    &&& r.0@[0] == Command::BindTexture(t)
                    &&& is_placeholder_upload(r.0@[1])
                    &&& is_image_request(r.0@[2], t, old(self).url())
                },
            },
    {
        match self.state {
            EngineState::Creating(b) => {
                let (step, cmds) = b.resume(reply);
                match step {
                    Ok(Step::Pending(n)) => {
                        self.state = EngineState::Creating(n);
                        (cmds, Ok(()))
                    },
                    Ok(Step::Ready(d)) => {
                        self.drawable = Some(d);
                        self.state = EngineState::Texturing;
                        let mut cmds = cmds;
                        let mut ask = request_texture();
                        cmds.append(&mut ask);
                        (cmds, Ok(()))
                    },
                    Err(e) => {
                        self.state = EngineState::Failed;
                        (cmds, Err(e))
                    },
                }
            },
            _ => {
                let (t, cmds) = load_texture(&reply, self.url.as_str());
                self.texture = Some(t);
                self.state = EngineState::Ready;
                (cmds, Ok(()))
            },
        }
    }

    /// One tick: clear the color and depth buffers, then draw the drawable
    /// with the texture.
    pub fn update(&mut self) -> (r: Vec<Command>)
        requires
            old(self).wf(),
            old(self).is_ready_spec(),
        ensures
            final(self).wf(),
            final(self).variant() == old(self).variant(),
            final(self).url() == old(self).url(),
            final(self).state() == EngineState::Running,
            final(self).drawable() == old(self).drawable(),
            final(self).texture() == old(self).texture(),
            r@ == seq![Command::Clear] + old(self).drawable()->Some_0.draw_spec(
                old(self).texture()->Some_0.handle,
            ),
    {
        self.state = EngineState::Running;
        let d = self.drawable.unwrap();
        let t = self.texture.unwrap();
        let mut r = vec![Command::Clear];
        let mut draw = d.draw(t.handle);
        r.append(&mut draw);
        r
    }

    /// The host has decoded the texture's image: the texture object takes it
    /// in place, and every later frame draws with it.
    pub fn on_image_ready(&mut self) -> (r: Vec<Command>)
        requires
            old(self).wf(),
            old(self).is_ready_spec(),
        ensures
            final(self).wf(),
            final(self).variant() == old(self).variant(),
            final(self).url() == old(self).url(),
            final(self).state() == old(self).state(),
            final(self).drawable() == old(self).drawable(),
            final(self).texture() == Some(
                Texture { handle: old(self).texture()->Some_0.handle, loaded: true },
            ),
            r@ == image_upload(old(self).texture()->Some_0.handle),
    {
        let mut t = self.texture.unwrap();
        let r = t.on_image_ready();
        self.texture = Some(t);
        r
    }
}

} // verus!
