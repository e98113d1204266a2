//! The game-facing layer: errors a game sees, asset and resource loading
//! through virtual paths, and the application configuration.
use vstd::prelude::*;
use crate::asset_path::{
    asset_components, asset_error_text, components, is_absolute_asset, is_absolute_text, join_path,
    normalized_text, AssetError,
    AssetPath, AssetRoot,
};
use crate::assets::{AssetHandle, AssetLoader, ImageData};
use crate::audio::{audio_error_text, AudioError, AudioSystem, SoundAsset};
use crate::dialogue::{CharacterData, DialogueData};
use crate::engine::{engine_error_text, EngineError};
use crate::paths::{
    diagnostic_text, ensure_asset_scheme, parse_virtual, path_error_text, rejects_as,
    resolved_under, PathDiagnosticError, PathDiagnosticKind, PathError, ProjectPaths,
    VirtualPath, VirtualScheme,
};
use crate::render::{
    render_error_text, rgba8_result, RenderError, Texture, TextureData, TextureId,
};

verus! {

/// Errors a game sees from the engine's game-facing calls.
#[derive(Debug, Clone, PartialEq, Eq)]
pub enum GameError {
    Path(PathError),
    Asset(AssetError),
    Diagnostic(PathDiagnosticError),
    Render(RenderError),
    Engine(EngineError),
    Audio(AudioError),
    Message(String),
}

/// The text of a game error.
pub open spec fn game_error_text(e: GameError) -> Seq<char> {
    match e {
        GameError::Path(p) => path_error_text(p),
        GameError::Asset(a) => asset_error_text(a),
        GameError::Diagnostic(d) => diagnostic_text(d),
        GameError::Render(r) => render_error_text(r),
        GameError::Engine(g) => engine_error_text(g),
        GameError::Audio(a) => audio_error_text(a),
        GameError::Message(m) => m@,
    }
}

impl GameError {
    /// The text shown for this error.
    pub fn message(&self) -> (s: String)
        ensures
            s@ == game_error_text(*self),
    {
        match self {
            GameError::Path(p) => p.message(),
            GameError::Asset(a) => a.message(),
            GameError::Diagnostic(d) => d.message(),
            GameError::Render(r) => r.message(),
            GameError::Engine(g) => g.message(),
            GameError::Audio(a) => a.message(),
            GameError::Message(m) => m.clone(),
        }
    }
}

/// Result type of the game-facing calls.
pub type GameResult<T> = Result<T, GameError>;

/// The asset path a requested name stands for: `asset://` or scheme-less
/// names whose relative part is not absolute and has no `..` component, in
/// normal form.
pub open spec fn asset_request(requested: Seq<char>) -> Option<Seq<char>> {
    match parse_virtual(requested) {
        Some((s, rel)) => if (s == VirtualScheme::Asset || s == VirtualScheme::Relative)
            && !is_absolute_asset(rel) && !asset_components(rel).contains(seq!['.', '.']) {
            Some(normalized_text(rel))
        } else {
            None
        },
        None => None,
    }
}

/// The asset path for a requested name (see `asset_request`); refused names
/// give the path error `rejects_as` describes.
pub fn asset_path_for(requested: &str) -> (r: Result<AssetPath, GameError>)
    ensures
        match asset_request(requested@) {
            Some(p) => r matches Ok(ap) && ap@ == p,
            None => r matches Err(GameError::Path(e)) && rejects_as(
                requested@,
                VirtualScheme::Asset,
                e,
            ),
        },
{
    let virtual_path = match VirtualPath::parse(requested) {
        Ok(v) => v,
        Err(e) => return Err(GameError::Path(e)),
    };
    match ensure_asset_scheme(&virtual_path) {
        Ok(()) => {},
        Err(e) => return Err(GameError::Path(e)),
    }
    match AssetPath::new(virtual_path.relative_path()) {
        Ok(p) => Ok(p),
        Err(e) => Err(GameError::Path(PathError::Asset(e))),
    }
}

/// The game's access to textures and sounds under the asset root.
pub struct Assets {
    loader: AssetLoader,
    next_texture_id: u64,
}

/// What loading a texture for `requested` gives when the image loaded from
/// disk was `loaded` and the next texture id was `next`.
pub open spec fn texture_result(
    root: Seq<char>,
    requested: Seq<char>,
    next: u64,
    loaded: Result<ImageData, AssetError>,
    r: Result<Texture, GameError>,
) -> bool {
    match asset_request(requested) {
        None => r matches Err(GameError::Path(e)) && rejects_as(
            requested,
            VirtualScheme::Asset,
            e,
        ),
        Some(p) => match loaded {
            Err(e) => r matches Err(GameError::Diagnostic(d)) && d.kind
                == PathDiagnosticKind::Asset && d.requested@ == requested && d.resolved@
                == join_path(root, p) && d.root@ == root && d.cause@ == asset_error_text(e),
            Ok(image) => match r {
                Ok(t) => t.spec_id()@ == next && rgba8_result(
                    t.spec_id(),
                    image.spec_width(),
                    image.spec_height(),
                    image.spec_pixels(),
                    Ok(t.spec_data()),
                ),
                Err(GameError::Render(e)) => exists|id: TextureId|
                    id@ == next && #[trigger] rgba8_result(
                        id,
                        image.spec_width(),
                        image.spec_height(),
                        image.spec_pixels(),
                        Err(e),
                    ),
                _ => false,
            },
        },
    }
}

impl Assets {
    pub closed spec fn spec_root(&self) -> AssetRoot {
        self.loader.spec_root()
    }

    /// The id the next loaded texture receives.
    pub closed spec fn spec_next_texture_id(&self) -> u64 {
        self.next_texture_id
    }

    pub fn new(root: AssetRoot) -> (assets: Self)
        ensures
            assets.spec_root() == root,
            assets.spec_next_texture_id() == 1,
    {
        Assets { loader: AssetLoader::new(root), next_texture_id: 1 }
    }

    pub fn root(&self) -> (r: &AssetRoot)
        ensures
            *r == self.spec_root(),
    {
        self.loader.root()
    }

    /// The id the next loaded texture receives.
    pub fn next_texture_id(&self) -> (id: u64)
        ensures
            id == self.spec_next_texture_id(),
    {
        self.next_texture_id
    }

    /// The loader that reads images from under the root.
    pub fn loader(&self) -> (l: &AssetLoader)
        ensures
            l.spec_root() == self.spec_root(),
    {
        &self.loader
    }

    /// Turns the image loaded for `requested` into a texture with the next
    /// id (see `texture_result`). Names that are not asset paths are refused
    /// before any id is used; a failed load is reported with the requested
    /// name, the resolved path and the root; every loaded image uses up an
    /// id, also when its data is rejected.
    pub fn load_texture(&mut self, requested: &str, loaded: Result<ImageData, AssetError>) -> (r:
        GameResult<Texture>)
        requires
            old(self).spec_next_texture_id() < u64::MAX,
        ensures
            final(self).spec_root() == old(self).spec_root(),
            texture_result(
                old(self).spec_root()@,
                requested@,
                old(self).spec_next_texture_id(),
                loaded,
                r,
            ),
            final(self).spec_next_texture_id() == if asset_request(requested@) is Some
                && loaded is Ok {
                (old(self).spec_next_texture_id() + 1) as u64
            } else {
                old(self).spec_next_texture_id()
            },
    {
        let path = match asset_path_for(requested) {
            Ok(p) => p,
            Err(e) => return Err(e),
        };
        let image = match loaded {
            Ok(image) => image,
            Err(error) => {
                let resolved = self.loader.root().resolve(&path);
                let d = PathDiagnosticError::asset(
                    crate::text::owned(requested),
                    resolved,
                    self.loader.root().path(),
                    error.message(),
                );
                return Err(GameError::Diagnostic(d));
            },
        };
        let texture_id = TextureId::new(self.next_texture_id);
        self.next_texture_id = self.next_texture_id + 1;
        let pixels = copy_bytes(image.pixels_rgba8());
        match TextureData::rgba8(texture_id, image.width(), image.height(), pixels) {
            Ok(data) => Ok(Texture::new(data)),
            Err(e) => {
                assert(rgba8_result(
                    texture_id,
                    image.spec_width(),
                    image.spec_height(),
                    image.spec_pixels(),
                    Err(e),
                ));
                Err(GameError::Render(e))
            },
        }
    }

    /// The same as `load_texture`.
    pub fn texture(&mut self, requested: &str, loaded: Result<ImageData, AssetError>) -> (r:
        GameResult<Texture>)
        requires
            old(self).spec_next_texture_id() < u64::MAX,
        ensures
            final(self).spec_root() == old(self).spec_root(),
            texture_result(
                old(self).spec_root()@,
                requested@,
                old(self).spec_next_texture_id(),
                loaded,
                r,
            ),
            final(self).spec_next_texture_id() == if asset_request(requested@) is Some
                && loaded is Ok {
                (old(self).spec_next_texture_id() + 1) as u64
            } else {
                old(self).spec_next_texture_id()
            },
    {
        self.load_texture(requested, loaded)
    }

    /// Registers the sound named by `requested` with the audio system, given
    /// the file it resolved to and the backend's report on loading it. Names
    /// that are not asset paths are refused and leave the audio system as it
    /// was; failures of the audio system are reported with the requested
    /// name, the resolved path and the root.
    pub fn sound(
        &self,
        audio: &mut AudioSystem,
        requested: &str,
        resolved: Result<String, AssetError>,
        backend_load: Result<(), AudioError>,
    ) -> (r: GameResult<AssetHandle<SoundAsset>>)
        requires
            old(audio).wf(),
            old(audio).spec_next_id() < u64::MAX,
        ensures
            final(audio).wf(),
            final(audio).spec_backend_available() == old(audio).spec_backend_available(),
            final(audio).spec_backend_error() == old(audio).spec_backend_error(),
            old(audio).loaded().subset_of(final(audio).loaded()),
            r matches Ok(h) ==> final(audio).loaded().contains(h@),
            match asset_request(requested@) {
                None => r matches Err(GameError::Path(e)) && rejects_as(
                    requested@,
                    VirtualScheme::Asset,
                    e,
                ) && final(audio).spec_next_id() == old(audio).spec_next_id() && final(audio).loaded() == old(audio).loaded(),
                Some(p) => {
                    let failure = match resolved {
                        Err(e) => Some(asset_error_text(e)),
                        Ok(_) => if old(audio).spec_backend_available() && backend_load is Err {
                            Some(audio_error_text(backend_load->Err_0))
                        } else {
                            None
                        },
                    };
                    &&& final(audio).spec_next_id() == if resolved is Ok {
                        (old(audio).spec_next_id() + 1) as u64
                    } else {
                        old(audio).spec_next_id()
                    }
                    &&& match failure {
                        Some(cause) => (r matches Err(GameError::Diagnostic(d)) && d.kind
                            == PathDiagnosticKind::Asset && d.requested@ == requested@
                            && d.resolved@ == join_path(self.spec_root()@, p) && d.root@
                            == self.spec_root()@ && d.cause@ == cause) && final(audio).loaded()
                            == old(audio).loaded(),
                        None => (r matches Ok(h) && h@ == old(audio).spec_next_id()) && final(audio).loaded() == old(audio).loaded().insert(old(audio).spec_next_id()),
                    }
                },
            },
    {
        let path = match asset_path_for(requested) {
            Ok(p) => p,
            Err(e) => return Err(e),
        };
        let resolved_path = self.loader.root().resolve(&path);
        match audio.load_sound(resolved, backend_load) {
            Ok(handle) => Ok(handle),
            Err(error) => {
                let d = PathDiagnosticError::asset(
                    crate::text::owned(requested),
                    resolved_path,
                    self.loader.root().path(),
                    error.message(),
                );
                Err(GameError::Diagnostic(d))
            },
        }
    }
}

/// A copy of the bytes.
fn copy_bytes(b: &[u8]) -> (v: Vec<u8>)
    ensures
        v@ == b@,
{
    let mut v: Vec<u8> = Vec::new();
    let mut i: usize = 0;
    while i < b.len()
        invariant
            i <= b@.len(),
            v@ == b@.subrange(0, i as int),
        decreases b@.len() - i,
    {
        v.push(b[i]);
        i = i + 1;
        assert(v@ =~= b@.subrange(0, i as int));
    }
    assert(v@ =~= b@);
    v
}

/// What loading a resource for `requested` gives when reading and parsing
/// the resolved file produced `loaded` (its value, or the text of the
/// failure).
pub open spec fn resource_result<T>(
    root: Seq<char>,
    requested: Seq<char>,
    loaded: Result<T, String>,
    r: Result<T, GameError>,
) -> bool {
    match resolved_under(root, requested, VirtualScheme::Resource) {
        None => r matches Err(GameError::Path(e)) && rejects_as(
            requested,
            VirtualScheme::Resource,
            e,
        ),
        Some(p) => match loaded {
            Ok(v) => r == Ok::<T, GameError>(v),
            Err(cause) => r matches Err(GameError::Diagnostic(d)) && d.kind
                == PathDiagnosticKind::Resource && d.requested@ == requested && d.resolved@ == p
                && d.root@ == root && d.cause@ == cause@,
        },
    }
}

/// Read access to the project's data files under the resource root.
#[derive(Debug, Clone)]
pub struct Resources {
    paths: ProjectPaths,
}

impl Resources {
    pub closed spec fn spec_paths(&self) -> ProjectPaths {
        self.paths
    }

    pub fn new(paths: ProjectPaths) -> (r: Self)
        ensures
            r.spec_paths() == paths,
    {
        Resources { paths }
    }

    /// The file a `res://` name is read from.
    pub fn resource_file(&self, requested: &str) -> (r: GameResult<String>)
        ensures
            match resolved_under(self.spec_paths().resource_root@, requested@, VirtualScheme::Resource) {
                Some(p) => r matches Ok(q) && q@ == p,
                None => r matches Err(GameError::Path(e)) && rejects_as(
                    requested@,
                    VirtualScheme::Resource,
                    e,
                ),
            },
    {
        match self.paths.resolve_resource(requested) {
            Ok(p) => Ok(p),
            Err(e) => Err(GameError::Path(e)),
        }
    }

    /// Finishes loading the resource `requested` from what reading and
    /// parsing its file gave (see `resource_result`).
    pub fn load<T>(&self, requested: &str, loaded: Result<T, String>) -> (r: GameResult<T>)
        ensures
            resource_result(self.spec_paths().resource_root@, requested@, loaded, r),
    {
        let resolved = match self.resource_file(requested) {
            Ok(p) => p,
            Err(e) => return Err(e),
        };
        match loaded {
            Ok(v) => Ok(v),
            Err(cause) => Err(
                GameError::Diagnostic(
                    PathDiagnosticError::resource(
                        crate::text::owned(requested),
                        resolved,
                        self.paths.resource_root.as_str(),
                        cause,
                    ),
                ),
            ),
        }
    }

    /// Finishes loading a character definition (see `load`).
    pub fn character(&self, requested: &str, loaded: Result<CharacterData, String>) -> (r:
        GameResult<CharacterData>)
        ensures
            resource_result(self.spec_paths().resource_root@, requested@, loaded, r),
    {
        self.load(requested, loaded)
    }

    /// Finishes loading a dialogue (see `load`).
    pub fn dialogue(&self, requested: &str, loaded: Result<DialogueData, String>) -> (r:
        GameResult<DialogueData>)
        ensures
            resource_result(self.spec_paths().resource_root@, requested@, loaded, r),
    {
        self.load(requested, loaded)
    }
}

} // verus!
