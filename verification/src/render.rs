//! Render-side data the engine hands to the GPU backend: texture ids, RGBA8
//! texture data with its size invariant, clear colours, the per-frame render
//! context and the renderer's errors.
use vstd::prelude::*;
use crate::text::{append_str, decimal_text, owned, push_decimal, chars_of, eq_ascii_lowercase, eq_ignore_ascii_case};

verus! {

/// Identifies a texture uploaded to the renderer.
#[derive(Debug, Clone, Copy, PartialEq, Eq, Hash, Structural)]
pub struct TextureId(u64);

impl View for TextureId {
    type V = u64;

    closed spec fn view(&self) -> u64 {
        self.0
    }
}

impl TextureId {
    pub fn new(raw: u64) -> (id: Self)
        ensures
            id@ == raw,
    {
        TextureId(raw)
    }

    pub fn raw(self) -> (raw: u64)
        ensures
            raw == self@,
    {
        self.0
    }
}

/// Errors of the renderer.
#[derive(Debug, Clone, PartialEq, Eq)]
pub enum RenderError {
    SurfaceCreation(String),
    AdapterUnavailable,
    DeviceRequest(String),
    NoSurfaceFormat,
    InvalidTextureData { id: TextureId, reason: String },
    MissingTexture(TextureId),
    SurfaceTimeout,
    SurfaceOutdated,
    SurfaceLost,
    SurfaceOutOfMemory,
}

/// The text of a render error.
pub open spec fn render_error_text(e: RenderError) -> Seq<char> {
    match e {
        RenderError::SurfaceCreation(m) => "failed to create render surface: "@ + m@,
        RenderError::AdapterUnavailable => "no compatible GPU adapter was found"@,
        RenderError::DeviceRequest(m) => "failed to request GPU device: "@ + m@,
        RenderError::NoSurfaceFormat => "surface did not report a supported texture format"@,
        RenderError::InvalidTextureData { id, reason } => "invalid texture data for texture "@
            + decimal_text(id@ as nat) + ": "@ + reason@,
        RenderError::MissingTexture(id) => "sprite referenced unknown texture "@ + decimal_text(
            id@ as nat,
        ),
        RenderError::SurfaceTimeout => "timed out while acquiring the next surface texture"@,
        RenderError::SurfaceOutdated => "surface became outdated and needs reconfiguration"@,
        RenderError::SurfaceLost => "surface was lost and needs reconfiguration"@,
        RenderError::SurfaceOutOfMemory => "renderer ran out of GPU memory"@,
    }
}

impl RenderError {
    /// The text shown for this error.
    pub fn message(&self) -> (s: String)
        ensures
            s@ == render_error_text(*self),
    {
        match self {
            RenderError::SurfaceCreation(m) => {
                let mut s = owned("failed to create render surface: ");
                append_str(&mut s, m.as_str());
                s
            },
            RenderError::AdapterUnavailable => owned("no compatible GPU adapter was found"),
            RenderError::DeviceRequest(m) => {
                let mut s = owned("failed to request GPU device: ");
                append_str(&mut s, m.as_str());
                s
            },
            RenderError::NoSurfaceFormat => owned(
                "surface did not report a supported texture format",
            ),
            RenderError::InvalidTextureData { id, reason } => {
                let mut s = owned("invalid texture data for texture ");
                push_decimal(&mut s, id.raw());
                append_str(&mut s, ": ");
                append_str(&mut s, reason.as_str());
                s
            },
            RenderError::MissingTexture(id) => {
                let mut s = owned("sprite referenced unknown texture ");
                push_decimal(&mut s, id.raw());
                s
            },
            RenderError::SurfaceTimeout => owned(
                "timed out while acquiring the next surface texture",
            ),
            RenderError::SurfaceOutdated => owned(
                "surface became outdated and needs reconfiguration",
            ),
            RenderError::SurfaceLost => owned("surface was lost and needs reconfiguration"),
            RenderError::SurfaceOutOfMemory => owned("renderer ran out of GPU memory"),
        }
    }
}

/// The reason given for a texture with a zero dimension.
pub open spec fn empty_texture_reason() -> Seq<char> {
    "texture width and height must be greater than zero"@
}

/// The reason given for pixel data of the wrong length.
pub open spec fn length_mismatch_reason() -> Seq<char> {
    "RGBA8 pixel data must hold width * height * 4 bytes"@
}

/// Whether `len` bytes are exactly the RGBA8 pixels of a non-empty
/// `width` x `height` image.
pub open spec fn rgba8_shape(width: u32, height: u32, len: int) -> bool {
    width > 0 && height > 0 && len == width * height * 4
}

/// What checking RGBA8 data for texture `id` gives: the data when its length
/// fits a non-empty `width` x `height` image, otherwise an
/// `InvalidTextureData` error for `id` saying which check failed.
pub open spec fn rgba8_result(
    id: TextureId,
    width: u32,
    height: u32,
    pixels: Seq<u8>,
    r: Result<TextureData, RenderError>,
) -> bool {
    if rgba8_shape(width, height, pixels.len() as int) {
        r matches Ok(t) && t.spec_id() == id && t.spec_width() == width && t.spec_height()
            == height && t.spec_pixels() == pixels && t.wf()
    } else if width == 0 || height == 0 {
        r matches Err(RenderError::InvalidTextureData { id: e, reason }) && e == id && reason@
            == empty_texture_reason()
    } else {
        r matches Err(RenderError::InvalidTextureData { id: e, reason }) && e == id && reason@
            == length_mismatch_reason()
    }
}

/// RGBA8 pixel data of one texture, four bytes per pixel, row by row.
#[derive(Debug, PartialEq, Eq)]
pub struct TextureData {
    id: TextureId,
    width: u32,
    height: u32,
    pixels: Vec<u8>,
}

impl TextureData {
    pub closed spec fn spec_id(&self) -> TextureId {
        self.id
    }

    pub closed spec fn spec_width(&self) -> u32 {
        self.width
    }

    pub closed spec fn spec_height(&self) -> u32 {
        self.height
    }

    pub closed spec fn spec_pixels(&self) -> Seq<u8> {
        self.pixels@
    }

    /// The pixel data fits the texture's size.
    pub open spec fn wf(&self) -> bool {
        rgba8_shape(self.spec_width(), self.spec_height(), self.spec_pixels().len() as int)
    }

    /// Texture data for `id`, checked against its size (see `rgba8_result`).
    pub fn rgba8(id: TextureId, width: u32, height: u32, pixels: Vec<u8>) -> (r: Result<
        Self,
        RenderError,
    >)
        ensures
            rgba8_result(id, width, height, pixels@, r),
    {
        if width == 0 || height == 0 {
            return Err(
                RenderError::InvalidTextureData {
                    id,
                    reason: owned("texture width and height must be greater than zero"),
                },
            );
        }
        let len = pixels.len() as u64;
        let matches = match (width as u64).checked_mul(height as u64) {
            Some(area) => match area.checked_mul(4) {
                Some(expected) => expected == len,
                None => false,
            },
            None => false,
        };
        if !matches {
            return Err(
                RenderError::InvalidTextureData {
                    id,
                    reason: owned("RGBA8 pixel data must hold width * height * 4 bytes"),
                },
            );
        }
        Ok(TextureData { id, width, height, pixels })
    }

    pub fn id(&self) -> (id: TextureId)
        ensures
            id == self.spec_id(),
    {
        self.id
    }

    pub fn width(&self) -> (w: u32)
        ensures
            w == self.spec_width(),
    {
        self.width
    }

    pub fn height(&self) -> (h: u32)
        ensures
            h == self.spec_height(),
    {
        self.height
    }

    pub fn pixels_rgba8(&self) -> (p: &[u8])
        ensures
            p@ == self.spec_pixels(),
    {
        self.pixels.as_slice()
    }

    /// An equal copy of this texture data.
    pub fn duplicate(&self) -> (t: Self)
        ensures
            t.spec_id() == self.spec_id(),
            t.spec_width() == self.spec_width(),
            t.spec_height() == self.spec_height(),
            t.spec_pixels() == self.spec_pixels(),
    {
        let mut pixels: Vec<u8> = Vec::new();
        let mut i: usize = 0;
        while i < self.pixels.len()
            invariant
                i <= self.pixels@.len(),
                pixels@ == self.pixels@.subrange(0, i as int),
            decreases self.pixels@.len() - i,
        {
            pixels.push(self.pixels[i]);
            i = i + 1;
            assert(pixels@ =~= self.pixels@.subrange(0, i as int));
        }
        assert(pixels@ =~= self.pixels@);
        TextureData { id: self.id, width: self.width, height: self.height, pixels }
    }
}

/// What asking the window's surface for its next texture gave.
#[derive(Debug, Clone, Copy, PartialEq, Eq, Structural)]
pub enum SurfaceAcquire {
    Acquired,
    Lost,
    Outdated,
    Timeout,
    OutOfMemory,
}

/// What the renderer does with a frame once it asked for the surface
/// texture.
#[derive(Debug, Clone, Copy, PartialEq, Eq, Structural)]
pub enum FramePlan {
    /// Draw the frame's sprites and present it.
    Draw,
    /// Configure the surface again; the frame draws nothing and succeeds.
    Reconfigure,
    /// Draw nothing; the frame succeeds.
    Skip,
}

/// A lost or outdated surface is configured again, a timeout skips the
/// frame, and running out of memory fails it; these frames draw nothing.
pub fn surface_plan(acquired: SurfaceAcquire) -> (r: Result<FramePlan, RenderError>)
    ensures
        r == match acquired {
            SurfaceAcquire::Acquired => Ok::<FramePlan, RenderError>(FramePlan::Draw),
            SurfaceAcquire::Lost | SurfaceAcquire::Outdated => Ok(FramePlan::Reconfigure),
            SurfaceAcquire::Timeout => Ok(FramePlan::Skip),
            SurfaceAcquire::OutOfMemory => Err(RenderError::SurfaceOutOfMemory),
        },
{
    match acquired {
        SurfaceAcquire::Acquired => Ok(FramePlan::Draw),
        SurfaceAcquire::Lost | SurfaceAcquire::Outdated => Ok(FramePlan::Reconfigure),
        SurfaceAcquire::Timeout => Ok(FramePlan::Skip),
        SurfaceAcquire::OutOfMemory => Err(RenderError::SurfaceOutOfMemory),
    }
}

/// Whether `id` is one of `known`.
fn texture_known(known: &Vec<TextureId>, id: TextureId) -> (r: bool)
    ensures
        r == known@.contains(id),
{
    let mut i: usize = 0;
    while i < known.len()
        invariant
            i <= known@.len(),
            forall|j: int| 0 <= j < i ==> known@[j] != id,
        decreases known@.len() - i,
    {
        if known[i] == id {
            return true;
        }
        i = i + 1;
    }
    false
}

/// Checks that the renderer holds the texture of every sprite it is to
/// draw, in order: the first sprite whose texture it does not hold fails
/// the frame with `MissingTexture`.
pub fn check_sprite_textures(known: &Vec<TextureId>, sprites: &Vec<TextureId>) -> (r: Result<
    (),
    RenderError,
>)
    ensures
        r is Ok <==> forall|i: int| 0 <= i < sprites@.len() ==> known@.contains(#[trigger] sprites@[i]),
        r matches Err(e) ==> exists|i: int|
            0 <= i < sprites@.len() && !known@.contains(#[trigger] sprites@[i]) && (forall|j: int|
                0 <= j < i ==> known@.contains(sprites@[j])) && e == RenderError::MissingTexture(
                sprites@[i],
            ),
{
    let mut i: usize = 0;
    while i < sprites.len()
        invariant
            i <= sprites@.len(),
            forall|j: int| 0 <= j < i ==> known@.contains(#[trigger] sprites@[j]),
        decreases sprites@.len() - i,
    {
        let id = sprites[i];
        if !texture_known(known, id) {
            return Err(RenderError::MissingTexture(id));
        }
        i = i + 1;
    }
    Ok(())
}

/// A loaded texture: its id and its pixel data.
#[derive(Debug)]
pub struct Texture {
    id: TextureId,
    data: TextureData,
}

impl Texture {
    pub closed spec fn spec_id(&self) -> TextureId {
        self.id
    }

    pub closed spec fn spec_data(&self) -> TextureData {
        self.data
    }

    /// A texture for data carrying the same id.
    pub fn new(data: TextureData) -> (t: Self)
        ensures
            t.spec_id() == data.spec_id(),
            t.spec_data() == data,
    {
        Texture { id: data.id(), data }
    }

    pub fn id(&self) -> (id: TextureId)
        ensures
            id == self.spec_id(),
    {
        self.id
    }

    pub fn data(&self) -> (d: &TextureData)
        ensures
            *d == self.spec_data(),
    {
        &self.data
    }
}

/// The colour the frame is cleared to, one byte per channel.
#[derive(Debug, Clone, Copy, PartialEq, Eq, Structural)]
pub struct ClearColor {
    pub r: u8,
    pub g: u8,
    pub b: u8,
    pub a: u8,
}

/// Opaque black.
pub open spec fn black_spec() -> ClearColor {
    ClearColor { r: 0, g: 0, b: 0, a: 255 }
}

/// Opaque cornflower blue.
pub open spec fn cornflower_spec() -> ClearColor {
    ClearColor { r: 100, g: 149, b: 237, a: 255 }
}

impl ClearColor {
    pub fn black() -> (c: Self)
        ensures
            c == black_spec(),
    {
        ClearColor { r: 0, g: 0, b: 0, a: 255 }
    }

    pub fn cornflower() -> (c: Self)
        ensures
            c == cornflower_spec(),
    {
        ClearColor { r: 100, g: 149, b: 237, a: 255 }
    }
}

/// The colour a configured name stands for, compared without regard to ASCII
/// case: `black`, and `cornflower` or `cornflowerblue`.
pub open spec fn clear_color_named(name: Seq<char>) -> Option<ClearColor> {
    if eq_ascii_lowercase(name, "black"@) {
        Some(black_spec())
    } else if eq_ascii_lowercase(name, "cornflower"@) || eq_ascii_lowercase(
        name,
        "cornflowerblue"@,
    ) {
        Some(cornflower_spec())
    } else {
        None
    }
}

/// Parses a configured clear colour name (see `clear_color_named`).
pub fn parse_clear_color(value: &str) -> (r: Option<ClearColor>)
    ensures
        r == clear_color_named(value@),
{
    let v = chars_of(value);
    if eq_ignore_ascii_case(&v, &chars_of("black")) {
        Some(ClearColor::black())
    } else if eq_ignore_ascii_case(&v, &chars_of("cornflower")) || eq_ignore_ascii_case(
        &v,
        &chars_of("cornflowerblue"),
    ) {
        Some(ClearColor::cornflower())
    } else {
        None
    }
}

/// What a frame draws: the clear colour, the camera, the textures it uses
/// and the sprites, in submission order. The camera and sprite types are the
/// renderer's own.
pub struct RenderContext<C, S> {
    clear_color: ClearColor,
    camera: C,
    textures: Vec<TextureData>,
    sprites: Vec<S>,
}

/// The identifying parts of texture data.
pub open spec fn texture_parts(t: TextureData) -> (TextureId, u32, u32, Seq<u8>) {
    (t.spec_id(), t.spec_width(), t.spec_height(), t.spec_pixels())
}

impl<C, S> RenderContext<C, S> {
    pub closed spec fn spec_clear_color(&self) -> ClearColor {
        self.clear_color
    }

    pub closed spec fn spec_camera(&self) -> C {
        self.camera
    }

    pub closed spec fn spec_textures(&self) -> Seq<(TextureId, u32, u32, Seq<u8>)> {
        self.textures@.map_values(|t: TextureData| texture_parts(t))
    }

    pub closed spec fn spec_sprites(&self) -> Seq<S> {
        self.sprites@
    }

    /// An empty frame with the given clear colour and camera.
    pub fn new(clear_color: ClearColor, camera: C) -> (ctx: Self)
        ensures
            ctx.spec_clear_color() == clear_color,
            ctx.spec_camera() == camera,
            ctx.spec_textures() == Seq::<(TextureId, u32, u32, Seq<u8>)>::empty(),
            ctx.spec_sprites() == Seq::<S>::empty(),
    {
        let ctx = RenderContext { clear_color, camera, textures: Vec::new(), sprites: Vec::new() };
        assert(ctx.spec_textures() =~= Seq::<(TextureId, u32, u32, Seq<u8>)>::empty());
        ctx
    }

    /// Drops the textures and sprites of the previous frame.
    pub fn reset(&mut self)
        ensures
            final(self).spec_clear_color() == old(self).spec_clear_color(),
            final(self).spec_camera() == old(self).spec_camera(),
            final(self).spec_textures() == Seq::<(TextureId, u32, u32, Seq<u8>)>::empty(),
            final(self).spec_sprites() == Seq::<S>::empty(),
    {
        self.textures.clear();
        self.sprites.clear();
        assert(self.spec_textures() =~= Seq::<(TextureId, u32, u32, Seq<u8>)>::empty());
    }

    pub fn clear(&mut self, color: ClearColor)
        ensures
            final(self).spec_clear_color() == color,
            final(self).spec_camera() == old(self).spec_camera(),
            final(self).spec_textures() == old(self).spec_textures(),
            final(self).spec_sprites() == old(self).spec_sprites(),
    {
        self.clear_color = color;
    }

    pub fn camera(&mut self, camera: C)
        ensures
            final(self).spec_clear_color() == old(self).spec_clear_color(),
            final(self).spec_camera() == camera,
            final(self).spec_textures() == old(self).spec_textures(),
            final(self).spec_sprites() == old(self).spec_sprites(),
    {
        self.camera = camera;
    }

    /// Adds a copy of the texture's data to the frame.
    pub fn texture(&mut self, texture: &Texture)
        ensures
            final(self).spec_clear_color() == old(self).spec_clear_color(),
            final(self).spec_camera() == old(self).spec_camera(),
            final(self).spec_textures() == old(self).spec_textures().push(
                texture_parts(texture.spec_data()),
            ),
            final(self).spec_sprites() == old(self).spec_sprites(),
    {
        let copy = texture.data().duplicate();
        self.textures.push(copy);
        assert(self.spec_textures() =~= old(self).spec_textures().push(
            texture_parts(texture.spec_data()),
        ));
    }

    /// Adds a sprite to the frame.
    pub fn sprite(&mut self, sprite: S)
        ensures
            final(self).spec_clear_color() == old(self).spec_clear_color(),
            final(self).spec_camera() == old(self).spec_camera(),
            final(self).spec_textures() == old(self).spec_textures(),
            final(self).spec_sprites() == old(self).spec_sprites().push(sprite),
    {
        self.sprites.push(sprite);
    }

    pub fn clear_color(&self) -> (c: ClearColor)
        ensures
            c == self.spec_clear_color(),
    {
        self.clear_color
    }

    pub fn camera_ref(&self) -> (c: &C)
        ensures
            *c == self.spec_camera(),
    {
        &self.camera
    }

    pub fn textures(&self) -> (t: &[TextureData])
        ensures
            t@.map_values(|d: TextureData| texture_parts(d)) == self.spec_textures(),
    {
        self.textures.as_slice()
    }

    pub fn sprites(&self) -> (s: &[S])
        ensures
            s@ == self.spec_sprites(),
    {
        self.sprites.as_slice()
    }
}

} // verus!
