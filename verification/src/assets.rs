//! Typed asset handles, decoded images and the disk asset loader.
use vstd::prelude::*;
use std::marker::PhantomData;
use crate::asset_path::{
    canonical_asset_path, join_path, map_io_error, map_io_error_spec, resolved_file,
    AssetError, AssetPath, AssetRoot, FileProbe, IoErrorKind,
};

verus! {

/// A handle naming a loaded asset of kind `T` by a stable id.
#[derive(Debug)]
pub struct AssetHandle<T> {
    id: u64,
    _asset: PhantomData<T>,
}

impl<T> View for AssetHandle<T> {
    type V = u64;

    closed spec fn view(&self) -> u64 {
        self.id
    }
}

impl<T> Clone for AssetHandle<T> {
    fn clone(&self) -> (h: Self)
        ensures
            h@ == self@,
    {
        AssetHandle { id: self.id, _asset: PhantomData }
    }
}

impl<T> Copy for AssetHandle<T> {

}

impl<T> PartialEq for AssetHandle<T> {
    fn eq(&self, other: &Self) -> (r: bool) {
        self.id == other.id
    }
}

impl<T> vstd::std_specs::cmp::PartialEqSpecImpl for AssetHandle<T> {
    open spec fn obeys_eq_spec() -> bool {
        true
    }

    open spec fn eq_spec(&self, other: &Self) -> bool {
        self@ == other@
    }
}

impl<T> Eq for AssetHandle<T> {

}

impl<T> AssetHandle<T> {
    pub fn from_id(id: u64) -> (h: Self)
        ensures
            h@ == id,
    {
        AssetHandle { id, _asset: PhantomData }
    }

    pub fn id(self) -> (id: u64)
        ensures
            id == self@,
    {
        self.id
    }
}

/// The asset kind of images.
#[derive(Debug, Clone, Copy, PartialEq, Eq)]
pub struct ImageAsset;

/// A decoded image in 8-bit RGBA.
#[derive(Debug, Clone, PartialEq, Eq)]
pub struct ImageData {
    width: u32,
    height: u32,
    pixels_rgba8: Vec<u8>,
}

impl ImageData {
    pub closed spec fn spec_width(&self) -> u32 {
        self.width
    }

    pub closed spec fn spec_height(&self) -> u32 {
        self.height
    }

    pub closed spec fn spec_pixels(&self) -> Seq<u8> {
        self.pixels_rgba8@
    }

    /// Every pixel has its four bytes: decoded images always have this shape.
    pub open spec fn wf(&self) -> bool {
        self.spec_pixels().len() == self.spec_width() * self.spec_height() * 4
    }

    pub fn width(&self) -> (w: u32)
        ensures
            w == self.spec_width(),
    {
        self.width
    }

    pub fn height(&self) -> (h: u32)
        ensures
            h == self.spec_height(),
    {
        self.height
    }

    pub fn pixels_rgba8(&self) -> (p: &[u8])
        ensures
            p@ == self.spec_pixels(),
    {
        self.pixels_rgba8.as_slice()
    }
}

/// The image that `image::load_from_memory` decodes from `bytes`, converted to
/// RGBA8: its width, height and raw pixel bytes; `None` when decoding fails.
pub uninterp spec fn decoded_rgba8(bytes: Seq<u8>) -> Option<(u32, u32, Seq<u8>)>;

/// Calls `image::load_from_memory` on the bytes and converts a decoded image
/// with `into_rgba8`, reporting width, height and `into_raw` bytes. The
/// contract names the result: which formats decode and what pixels come
/// out is the `image` crate's own behaviour. It states one fact more: an
/// RGBA8 buffer holds four bytes for each of its `width * height` pixels
/// (the decoder's buffer is sized `width * height * 4`, and a conversion
/// builds a buffer of that size).
#[verifier::external_body]
fn decode_rgba8(bytes: &[u8]) -> (r: Option<(u32, u32, Vec<u8>)>)
    ensures
        match (r, decoded_rgba8(bytes@)) {
            (Some((w, h, p)), Some((sw, sh, sp))) => w == sw && h == sh && p@ == sp,
            (None, None) => true,
            _ => false,
        },
        r matches Some((w, h, p)) ==> p@.len() == w * h * 4,
{
    match image::load_from_memory(bytes) {
        Ok(image) => {
            let rgba = image.into_rgba8();
            Some((rgba.width(), rgba.height(), rgba.into_raw()))
        },
        Err(_) => None,
    }
}

/// Decodes the bytes read from `path`; undecodable bytes are `ImageDecode(path)`.
pub fn decode_image(path: &str, bytes: &[u8]) -> (r: Result<ImageData, AssetError>)
    ensures
        match decoded_rgba8(bytes@) {
            Some((w, h, p)) => r matches Ok(image) && image.spec_width() == w
                && image.spec_height() == h && image.spec_pixels() == p && image.wf(),
            None => r matches Err(AssetError::ImageDecode(p)) && p@ == path@,
        },
{
    match decode_rgba8(bytes) {
        Some((width, height, pixels_rgba8)) => Ok(ImageData { width, height, pixels_rgba8 }),
        None => Err(AssetError::ImageDecode(crate::text::owned(path))),
    }
}

/// Loads images from under one approved asset root.
#[derive(Debug, Clone)]
pub struct AssetLoader {
    root: AssetRoot,
}

impl AssetLoader {
    pub closed spec fn spec_root(&self) -> AssetRoot {
        self.root
    }

    pub fn new(root: AssetRoot) -> (loader: Self)
        ensures
            loader.spec_root() == root,
    {
        AssetLoader { root }
    }

    pub fn root(&self) -> (r: &AssetRoot)
        ensures
            *r == self.spec_root(),
    {
        &self.root
    }

    /// The file an asset path loads from: the root joined with the path,
    /// checked against what the host learned about that file.
    pub fn resolve_existing_path(&self, asset_path: &AssetPath, probe: FileProbe) -> (r: Result<
        String,
        AssetError,
    >)
        ensures
            resolved_file(self.spec_root()@, join_path(self.spec_root()@, asset_path@), probe, r),
    {
        let joined = self.root.resolve(asset_path);
        canonical_asset_path(self.root.path(), joined, probe)
    }

    /// Finishes loading an image from `disk_path`: a read failure is mapped by
    /// kind, otherwise the bytes are decoded.
    pub fn load_image(&self, disk_path: String, read: Result<Vec<u8>, IoErrorKind>) -> (r: Result<
        ImageData,
        AssetError,
    >)
        ensures
            match read {
                Err(kind) => r == Err::<ImageData, AssetError>(map_io_error_spec(disk_path, kind)),
                Ok(bytes) => match decoded_rgba8(bytes@) {
                    Some((w, h, p)) => r matches Ok(image) && image.spec_width() == w
                        && image.spec_height() == h && image.spec_pixels() == p && image.wf(),
                    None => r matches Err(AssetError::ImageDecode(p)) && p@ == disk_path@,
                },
            },
    {
        match read {
            Err(kind) => Err(map_io_error(disk_path, kind)),
            Ok(bytes) => decode_image(disk_path.as_str(), bytes.as_slice()),
        }
    }
}

} // verus!
