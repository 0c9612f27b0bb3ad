//! The one texture of a scene: usable at once through a 1x1 placeholder, and
//! filled with the real image once the host has decoded it.
use vstd::prelude::*;
use crate::command::{object_of, reply_object, Command, Reply, TexSetting};

verus! {

/// The placeholder's single RGBA pixel: opaque blue.
pub open spec fn placeholder_pixel() -> Seq<u8> {
    seq![0u8, 0u8, 255u8, 255u8]
}

/// A texture object, and whether the real image has reached it (until then
/// it holds the placeholder).
#[derive(Clone, Copy, Debug, PartialEq, Eq, Structural)]
pub struct Texture {
    pub handle: Option<u32>,
    pub loaded: bool,
}

/// The question that starts loading a texture: a new texture object.
pub fn request_texture() -> (r: Vec<Command>)
    ensures
        r@ == seq![Command::CreateTexture],
{
    vec![Command::CreateTexture]
}

/// Whether `c` uploads the 1x1 placeholder pixel.
pub open spec fn is_placeholder_upload(c: Command) -> bool {
    match c {
        Command::TexImagePixels { width, height, rgba } => width == 1 && height == 1 && rgba@
            == placeholder_pixel(),
        _ => false,
    }
}

/// Whether `c` asks the host to decode the image at `url` for texture `t`.
pub open spec fn is_image_request(c: Command, t: Option<u32>, url: Seq<char>) -> bool {
    match c {
        Command::LoadImage(h, u) => h == t && u@ == url,
        _ => false,
    }
}

/// Given the new texture object, bind it, fill it with the placeholder so it
/// can be drawn with at once, and ask for the image at `url`.
pub fn load_texture(reply: &Reply, url: &str) -> (r: (Texture, Vec<Command>))
    ensures
        r.0 == (Texture { handle: object_of(*reply), loaded: false }),
        r.1@.len() == 3,
        r.1@[0] == Command::BindTexture(object_of(*reply)),
        is_placeholder_upload(r.1@[1]),
        is_image_request(r.1@[2], object_of(*reply), url@),
{
    let t = reply_object(reply);
    let pixel: Vec<u8> = vec![0u8, 0u8, 255u8, 255u8];
    assert(pixel@ =~= placeholder_pixel());
    let cmds = vec![
        Command::BindTexture(t),
        Command::TexImagePixels { width: 1, height: 1, rgba: pixel },
        Command::LoadImage(t, url.to_owned()),
    ];
    (Texture { handle: t, loaded: false }, cmds)
}

/// The uploads that follow a decoded image: the image itself, its mipmaps,
/// edge clamping and linear minification.
pub open spec fn image_upload(t: Option<u32>) -> Seq<Command> {
    seq![
        Command::BindTexture(t),
        Command::TexImageDecoded,
        Command::GenerateMipmap,
        Command::TexParameter(TexSetting::WrapSClampToEdge),
        Command::TexParameter(TexSetting::WrapTClampToEdge),
        Command::TexParameter(TexSetting::MinFilterLinear),
    ]
}

impl Texture {
    /// The host has decoded the image: upload it into the same texture
    /// object, which from now on holds it.
    pub fn on_image_ready(&mut self) -> (r: Vec<Command>)
        ensures
            *final(self) == (Texture { handle: old(self).handle, loaded: true }),
            r@ == image_upload(old(self).handle),
    {
        self.loaded = true;
        vec![
            Command::BindTexture(self.handle),
            Command::TexImageDecoded,
            Command::GenerateMipmap,
            Command::TexParameter(TexSetting::WrapSClampToEdge),
            Command::TexParameter(TexSetting::WrapTClampToEdge),
            Command::TexParameter(TexSetting::MinFilterLinear),
        ]
    }
}

} // verus!
