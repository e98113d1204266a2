//! Virtual path schemes (`asset://`, `res://`, `user://`), the project's
//! three roots, and the diagnostics shown when a path cannot be loaded.
use vstd::prelude::*;
use crate::asset_path::{
    asset_components, asset_error_text, join_path, join_paths, normalized_text, components,
    is_absolute_asset, is_absolute_text,
    AssetError, AssetPath,
};
use crate::text::{
    append_str, chars_from, chars_of, contains_chars, contains_text, has_prefix, owned,
    starts_with_chars, string_from_chars,
};

verus! {

/// How a requested path names its root.
#[derive(Debug, Clone, Copy, PartialEq, Eq, Structural)]
pub enum VirtualScheme {
    Asset,
    Resource,
    User,
    Relative,
}

/// Errors of virtual path handling.
#[derive(Debug, Clone, PartialEq, Eq)]
pub enum PathError {
    /// A `scheme://` other than the three known ones.
    UnsupportedScheme { requested: String },
    /// A `res://` path where an asset was expected.
    AssetSchemeExpected { requested: String, relative: String },
    /// A `user://` path where an asset was expected.
    UserPathAsAsset { requested: String },
    /// An `asset://` path where a resource was expected.
    ResourceSchemeExpected { requested: String, relative: String },
    /// A `user://` path where a resource was expected.
    UserPathAsResource { requested: String },
    /// A resource path without `res://`.
    ResourceSchemeMissing { requested: String },
    /// A user data path without `user://`.
    UserSchemeMissing { requested: String },
    /// The relative part is not an acceptable asset path.
    Asset(AssetError),
}

/// A requested path split into its scheme and the path under the scheme's root.
#[derive(Debug, Clone, PartialEq, Eq)]
pub struct VirtualPath {
    pub scheme: VirtualScheme,
    pub relative_path: String,
    pub requested: String,
}

/// The scheme and relative part `VirtualPath::parse` finds in `s`, or `None`
/// for an unknown `scheme://`.
pub open spec fn parse_virtual(s: Seq<char>) -> Option<(VirtualScheme, Seq<char>)> {
    if has_prefix(s, "asset://"@) {
        Some((VirtualScheme::Asset, s.subrange("asset://"@.len() as int, s.len() as int)))
    } else if has_prefix(s, "res://"@) {
        Some((VirtualScheme::Resource, s.subrange("res://"@.len() as int, s.len() as int)))
    } else if has_prefix(s, "user://"@) {
        Some((VirtualScheme::User, s.subrange("user://"@.len() as int, s.len() as int)))
    } else if contains_text(s, "://"@) {
        None
    } else {
        Some((VirtualScheme::Relative, s))
    }
}

fn strip_scheme(chars: &Vec<char>, prefix: &str) -> (r: Option<String>)
    ensures
        match r {
            Some(rest) => has_prefix(chars@, prefix@) && rest@ == chars@.subrange(
                prefix@.len() as int,
                chars@.len() as int,
            ),
            None => !has_prefix(chars@, prefix@),
        },
{
    let p = chars_of(prefix);
    if starts_with_chars(chars, &p) {
        let rest = chars_from(chars, p.len());
        Some(string_from_chars(&rest))
    } else {
        None
    }
}

impl VirtualPath {
    /// Splits `requested` into scheme and relative part; a path naming an
    /// unknown `scheme://` is refused.
    pub fn parse(requested: &str) -> (r: Result<Self, PathError>)
        ensures
            match parse_virtual(requested@) {
                Some((scheme, rel)) => r matches Ok(p) && p.scheme == scheme && p.relative_path@
                    == rel && p.requested@ == requested@,
                None => r matches Err(PathError::UnsupportedScheme { requested: q }) && q@
                    == requested@,
            },
    {
        let chars = chars_of(requested);
        if let Some(rest) = strip_scheme(&chars, "asset://") {
            return Ok(
                VirtualPath {
                    scheme: VirtualScheme::Asset,
                    relative_path: rest,
                    requested: owned(requested),
                },
            );
        }
        if let Some(rest) = strip_scheme(&chars, "res://") {
            return Ok(
                VirtualPath {
                    scheme: VirtualScheme::Resource,
                    relative_path: rest,
                    requested: owned(requested),
                },
            );
        }
        if let Some(rest) = strip_scheme(&chars, "user://") {
            return Ok(
                VirtualPath {
                    scheme: VirtualScheme::User,
                    relative_path: rest,
                    requested: owned(requested),
                },
            );
        }
        if contains_chars(&chars, &chars_of("://")) {
            return Err(PathError::UnsupportedScheme { requested: owned(requested) });
        }
        Ok(
            VirtualPath {
                scheme: VirtualScheme::Relative,
                relative_path: owned(requested),
                requested: owned(requested),
            },
        )
    }

    pub fn relative_path(&self) -> (s: &str)
        ensures
            s@ == self.relative_path@,
    {
        self.relative_path.as_str()
    }
}

/// Assets may be named with `asset://` or without a scheme.
pub fn ensure_asset_scheme(path: &VirtualPath) -> (r: Result<(), PathError>)
    ensures
        match path.scheme {
            VirtualScheme::Asset | VirtualScheme::Relative => r is Ok,
            VirtualScheme::Resource => r matches Err(
                PathError::AssetSchemeExpected { requested, relative },
            ) && requested@ == path.requested@ && relative@ == path.relative_path@,
            VirtualScheme::User => r matches Err(PathError::UserPathAsAsset { requested })
                && requested@ == path.requested@,
        },
{
    match path.scheme {
        VirtualScheme::Asset | VirtualScheme::Relative => Ok(()),
        VirtualScheme::Resource => Err(
            PathError::AssetSchemeExpected {
                requested: path.requested.clone(),
                relative: path.relative_path.clone(),
            },
        ),
        VirtualScheme::User => Err(PathError::UserPathAsAsset { requested: path.requested.clone() }),
    }
}

/// Resources must be named with `res://`.
pub fn ensure_resource_scheme(path: &VirtualPath) -> (r: Result<(), PathError>)
    ensures
        match path.scheme {
            VirtualScheme::Resource => r is Ok,
            VirtualScheme::Asset => r matches Err(
                PathError::ResourceSchemeExpected { requested, relative },
            ) && requested@ == path.requested@ && relative@ == path.relative_path@,
            VirtualScheme::User => r matches Err(PathError::UserPathAsResource { requested })
                && requested@ == path.requested@,
            VirtualScheme::Relative => r matches Err(PathError::ResourceSchemeMissing { requested })
                && requested@ == path.requested@,
        },
{
    match path.scheme {
        VirtualScheme::Resource => Ok(()),
        VirtualScheme::Asset => Err(
            PathError::ResourceSchemeExpected {
                requested: path.requested.clone(),
                relative: path.relative_path.clone(),
            },
        ),
        VirtualScheme::User => Err(
            PathError::UserPathAsResource { requested: path.requested.clone() },
        ),
        VirtualScheme::Relative => Err(
            PathError::ResourceSchemeMissing { requested: path.requested.clone() },
        ),
    }
}

/// The path a requested name resolves to under `root` when it uses `scheme`:
/// `None` when the scheme does not match or the relative part is rejected.
pub open spec fn resolved_under(root: Seq<char>, requested: Seq<char>, scheme: VirtualScheme) -> Option<
    Seq<char>,
> {
    match parse_virtual(requested) {
        Some((s, rel)) => if (s == scheme || (scheme == VirtualScheme::Asset && s
            == VirtualScheme::Relative)) && !is_absolute_asset(rel) && !asset_components(rel).contains(
            seq!['.', '.'],
        ) {
            Some(join_path(root, normalized_text(rel)))
        } else {
            None
        },
        None => None,
    }
}

/// The asset, resource and user data roots of a project.
#[derive(Debug, Clone, PartialEq, Eq)]
pub struct ProjectPaths {
    pub asset_root: String,
    pub resource_root: String,
    pub user_root: String,
}

/// The normalised asset path for a relative part, with rejections carried as
/// path errors.
fn asset_path_of(relative: &str) -> (r: Result<AssetPath, PathError>)
    ensures
        is_absolute_asset(relative@) ==> (r matches Err(
            PathError::Asset(AssetError::AbsolutePathRejected(p)),
        ) && p@ == relative@),
        !is_absolute_asset(relative@) && asset_components(relative@).contains(seq!['.', '.']) ==> (r matches Err(
            PathError::Asset(AssetError::PathTraversalRejected(p)),
        ) && p@ == relative@),
        !is_absolute_asset(relative@) && !asset_components(relative@).contains(seq!['.', '.']) ==> (r matches Ok(
            p,
        ) && p@ == normalized_text(relative@)),
{
    match AssetPath::new(relative) {
        Ok(p) => Ok(p),
        Err(e) => Err(PathError::Asset(e)),
    }
}

/// Whether `e` is the error with which a relative part is rejected as an
/// asset path.
pub open spec fn relative_rejection(rel: Seq<char>, e: PathError) -> bool {
    if is_absolute_asset(rel) {
        e matches PathError::Asset(AssetError::AbsolutePathRejected(p)) && p@ == rel
    } else if asset_components(rel).contains(seq!['.', '.']) {
        e matches PathError::Asset(AssetError::PathTraversalRejected(p)) && p@ == rel
    } else {
        false
    }
}

/// Whether `e` is the error with which `requested` is refused where a path
/// of scheme `wanted` is expected (assets also accept scheme-less paths).
pub open spec fn rejects_as(requested: Seq<char>, wanted: VirtualScheme, e: PathError) -> bool {
    match parse_virtual(requested) {
        None => e matches PathError::UnsupportedScheme { requested: q } && q@ == requested,
        Some((s, rel)) => match wanted {
            VirtualScheme::Asset => match s {
                VirtualScheme::Resource => e matches PathError::AssetSchemeExpected {
                    requested: q,
                    relative: r,
                } && q@ == requested && r@ == rel,
                VirtualScheme::User => e matches PathError::UserPathAsAsset { requested: q } && q@
                    == requested,
                _ => relative_rejection(rel, e),
            },
            VirtualScheme::Resource => match s {
                VirtualScheme::Asset => e matches PathError::ResourceSchemeExpected {
                    requested: q,
                    relative: r,
                } && q@ == requested && r@ == rel,
                VirtualScheme::User => e matches PathError::UserPathAsResource { requested: q }
                    && q@ == requested,
                VirtualScheme::Relative => e matches PathError::ResourceSchemeMissing {
                    requested: q,
                } && q@ == requested,
                VirtualScheme::Resource => relative_rejection(rel, e),
            },
            VirtualScheme::User => if s == VirtualScheme::User {
                relative_rejection(rel, e)
            } else {
                e matches PathError::UserSchemeMissing { requested: q } && q@ == requested
            },
            VirtualScheme::Relative => false,
        },
    }
}

impl ProjectPaths {
    pub fn new(asset_root: String, resource_root: String, user_root: String) -> (paths: Self)
        ensures
            paths.asset_root == asset_root,
            paths.resource_root == resource_root,
            paths.user_root == user_root,
    {
        ProjectPaths { asset_root, resource_root, user_root }
    }

    /// A `res://` path resolved under the resource root.
    pub fn resolve_resource(&self, requested: &str) -> (r: Result<String, PathError>)
        ensures
            match resolved_under(self.resource_root@, requested@, VirtualScheme::Resource) {
                Some(p) => r matches Ok(q) && q@ == p,
                None => r matches Err(e) && rejects_as(requested@, VirtualScheme::Resource, e),
            },
    {
        let virtual_path = VirtualPath::parse(requested)?;
        ensure_resource_scheme(&virtual_path)?;
        let asset_path = asset_path_of(virtual_path.relative_path())?;
        Ok(join_paths(self.resource_root.as_str(), asset_path.as_path()))
    }

    /// An `asset://` (or scheme-less) path resolved under the asset root.
    pub fn resolve_asset(&self, requested: &str) -> (r: Result<String, PathError>)
        ensures
            match resolved_under(self.asset_root@, requested@, VirtualScheme::Asset) {
                Some(p) => r matches Ok(q) && q@ == p,
                None => r matches Err(e) && rejects_as(requested@, VirtualScheme::Asset, e),
            },
    {
        let virtual_path = VirtualPath::parse(requested)?;
        ensure_asset_scheme(&virtual_path)?;
        let asset_path = asset_path_of(virtual_path.relative_path())?;
        Ok(join_paths(self.asset_root.as_str(), asset_path.as_path()))
    }

    /// A `user://` path resolved under the user data root.
    pub fn resolve_user(&self, requested: &str) -> (r: Result<String, PathError>)
        ensures
            match resolved_under(self.user_root@, requested@, VirtualScheme::User) {
                Some(p) => r matches Ok(q) && q@ == p,
                None => r matches Err(e) && rejects_as(requested@, VirtualScheme::User, e),
            },
    {
        let virtual_path = VirtualPath::parse(requested)?;
        if virtual_path.scheme != VirtualScheme::User {
            return Err(PathError::UserSchemeMissing { requested: virtual_path.requested });
        }
        let asset_path = asset_path_of(virtual_path.relative_path())?;
        Ok(join_paths(self.user_root.as_str(), asset_path.as_path()))
    }

    pub fn user_root(&self) -> (s: &str)
        ensures
            s@ == self.user_root@,
    {
        self.user_root.as_str()
    }
}

/// The text of a path error.
pub open spec fn path_error_text(e: PathError) -> Seq<char> {
    match e {
        PathError::UnsupportedScheme { requested } => "unsupported virtual path scheme in "@
            + requested@ + "; expected asset://, res://, or user://"@,
        PathError::AssetSchemeExpected { requested, relative } => "possible wrong scheme: you used "@
            + requested@ + ". Sprites, audio, video, and fonts are assets. Try asset://"@
            + relative@,
        PathError::UserPathAsAsset { requested } =>
            "user:// paths are reserved for writable user data and cannot be loaded as assets: "@
            + requested@,
        PathError::ResourceSchemeExpected { requested, relative } =>
            "possible wrong scheme: you used "@ + requested@
            + ". Configuration, scenes, prefabs, and data files are resources. Try res://"@
            + relative@,
        PathError::UserPathAsResource { requested } =>
            "user:// paths are reserved for writable user data and cannot be loaded as resources: "@
            + requested@,
        PathError::ResourceSchemeMissing { requested } =>
            "resource paths must use res:// so they resolve under [resources].root: "@ + requested@,
        PathError::UserSchemeMissing { requested } =>
            "user data paths must use user:// so they resolve under the user data root: "@
            + requested@,
        PathError::Asset(e) => asset_error_text(e),
    }
}

/// `a`, then `b`.
fn joined2(a: &str, b: &str) -> (s: String)
    ensures
        s@ == a@ + b@,
{
    let mut s = owned(a);
    append_str(&mut s, b);
    s
}

/// `a`, then `b`, then `c`.
fn joined3(a: &str, b: &str, c: &str) -> (s: String)
    ensures
        s@ == a@ + b@ + c@,
{
    let mut s = owned(a);
    append_str(&mut s, b);
    append_str(&mut s, c);
    s
}

impl PathError {
    /// The text shown for this error.
    pub fn message(&self) -> (s: String)
        ensures
            s@ == path_error_text(*self),
    {
        match self {
            PathError::UnsupportedScheme { requested } => joined3(
                "unsupported virtual path scheme in ",
                requested.as_str(),
                "; expected asset://, res://, or user://",
            ),
            PathError::AssetSchemeExpected { requested, relative } => {
                let mut s = joined3(
                    "possible wrong scheme: you used ",
                    requested.as_str(),
                    ". Sprites, audio, video, and fonts are assets. Try asset://",
                );
                append_str(&mut s, relative.as_str());
                s
            },
            PathError::UserPathAsAsset { requested } => joined2(
                "user:// paths are reserved for writable user data and cannot be loaded as assets: ",
                requested.as_str(),
            ),
            PathError::ResourceSchemeExpected { requested, relative } => {
                let mut s = joined3(
                    "possible wrong scheme: you used ",
                    requested.as_str(),
                    ". Configuration, scenes, prefabs, and data files are resources. Try res://",
                );
                append_str(&mut s, relative.as_str());
                s
            },
            PathError::UserPathAsResource { requested } => joined2(
                "user:// paths are reserved for writable user data and cannot be loaded as resources: ",
                requested.as_str(),
            ),
            PathError::ResourceSchemeMissing { requested } => joined2(
                "resource paths must use res:// so they resolve under [resources].root: ",
                requested.as_str(),
            ),
            PathError::UserSchemeMissing { requested } => joined2(
                "user data paths must use user:// so they resolve under the user data root: ",
                requested.as_str(),
            ),
            PathError::Asset(e) => e.message(),
        }
    }
}

/// Whether a failed load concerned an asset or a resource.
#[derive(Debug, Clone, Copy, PartialEq, Eq, Structural)]
pub enum PathDiagnosticKind {
    Asset,
    Resource,
}

/// A load failure reported with the requested path, where it resolved to,
/// the configured root and the text of the underlying cause.
#[derive(Debug, Clone, PartialEq, Eq)]
pub struct PathDiagnosticError {
    pub kind: PathDiagnosticKind,
    pub requested: String,
    pub resolved: String,
    pub root: String,
    pub cause: String,
}

/// The label, root label and the two scheme hints of a diagnostic.
pub open spec fn diagnostic_labels(kind: PathDiagnosticKind) -> (Seq<char>, Seq<char>, Seq<char>, Seq<char>) {
    match kind {
        PathDiagnosticKind::Asset => (
            "Asset"@,
            "Configured asset root"@,
            "Use asset:// for images, audio, video, and fonts."@,
            "Use res:// for resources/configuration/scene files."@,
        ),
        PathDiagnosticKind::Resource => (
            "Resource"@,
            "Configured resource root"@,
            "Use res:// for resources/configuration/scene files."@,
            "Use asset:// for images, audio, video, and fonts."@,
        ),
    }
}

/// The text of a diagnostic.
pub open spec fn diagnostic_text(d: PathDiagnosticError) -> Seq<char> {
    let (label, root_label, hint, other_hint) = diagnostic_labels(d.kind);
    label + " not found or could not be loaded: "@ + d.requested@ + "\n\nResolved path:\n  "@
        + d.resolved@ + "\n\n"@ + root_label + ":\n  "@ + d.root@
        + "\n\nSuggestions:\n  - Check if the file exists.\n  - Check Seishin.toml root configuration.\n  - "@
        + hint + "\n  - "@ + other_hint + "\n\nCause: "@ + d.cause@
}

impl PathDiagnosticError {
    /// A failed asset load.
    pub fn asset(requested: String, resolved: String, root: &str, cause: String) -> (d: Self)
        ensures
            d.kind == PathDiagnosticKind::Asset,
            d.requested == requested,
            d.resolved == resolved,
            d.root@ == root@,
            d.cause == cause,
    {
        PathDiagnosticError {
            kind: PathDiagnosticKind::Asset,
            requested,
            resolved,
            root: owned(root),
            cause,
        }
    }

    /// A failed resource load.
    pub fn resource(requested: String, resolved: String, root: &str, cause: String) -> (d: Self)
        ensures
            d.kind == PathDiagnosticKind::Resource,
            d.requested == requested,
            d.resolved == resolved,
            d.root@ == root@,
            d.cause == cause,
    {
        PathDiagnosticError {
            kind: PathDiagnosticKind::Resource,
            requested,
            resolved,
            root: owned(root),
            cause,
        }
    }

    /// The text shown for this diagnostic.
    pub fn message(&self) -> (s: String)
        ensures
            s@ == diagnostic_text(*self),
    {
        let (label, root_label, hint, other_hint) = match self.kind {
            PathDiagnosticKind::Asset => (
                "Asset",
                "Configured asset root",
                "Use asset:// for images, audio, video, and fonts.",
                "Use res:// for resources/configuration/scene files.",
            ),
            PathDiagnosticKind::Resource => (
                "Resource",
                "Configured resource root",
                "Use res:// for resources/configuration/scene files.",
                "Use asset:// for images, audio, video, and fonts.",
            ),
        };
        let mut s = owned(label);
        append_str(&mut s, " not found or could not be loaded: ");
        append_str(&mut s, self.requested.as_str());
        append_str(&mut s, "\n\nResolved path:\n  ");
        append_str(&mut s, self.resolved.as_str());
        append_str(&mut s, "\n\n");
        append_str(&mut s, root_label);
        append_str(&mut s, ":\n  ");
        append_str(&mut s, self.root.as_str());
        append_str(
            &mut s,
            "\n\nSuggestions:\n  - Check if the file exists.\n  - Check Seishin.toml root configuration.\n  - ",
        );
        append_str(&mut s, hint);
        append_str(&mut s, "\n  - ");
        append_str(&mut s, other_hint);
        append_str(&mut s, "\n\nCause: ");
        append_str(&mut s, self.cause.as_str());
        s
    }
}

} // verus!
