//! Platform decisions around project discovery and file access: which
//! `Seishin.toml` a run uses, whether the main scene exists, and the
//! in-memory file caches web builds read from.
use vstd::prelude::*;
use crate::asset_path::{
    forward_slashes, join_path, join_paths, replace_backslashes, AssetError, IoErrorKind,
};
use crate::input::string_views;
use crate::paths::{
    rejects_as, resolved_under, PathDiagnosticError, PathDiagnosticKind, ProjectPaths,
    VirtualScheme,
};
use crate::project::{GameError, GameResult};
use crate::store::NamedStore;
use crate::text::{chars_of, copy_string, owned, string_from_chars, trim_chars, trimmed_text};

verus! {

/// The project file name looked for in each directory.
pub open spec fn project_file_name() -> Seq<char> {
    "Seishin.toml"@
}

/// The candidate project file in directory `dir`.
pub fn project_candidate(dir: &str) -> (p: String)
    ensures
        p@ == join_path(dir@, project_file_name()),
{
    join_paths(dir, "Seishin.toml")
}

/// The candidates that are files, in order.
pub open spec fn files_among(c: Seq<(String, bool)>) -> Seq<Seq<char>>
    decreases c.len(),
{
    if c.len() == 0 {
        Seq::empty()
    } else if c.last().1 {
        files_among(c.drop_last()).push(c.last().0@)
    } else {
        files_among(c.drop_last())
    }
}

/// The text of the error when no project file is found.
pub open spec fn no_project_message() -> Seq<char> {
    "Seishin.toml not found. Expected a Seishin.toml file in the current directory, a parent directory, or exactly one examples/* project."@
}

/// The text of the error when several example projects are found.
pub open spec fn several_projects_message() -> Seq<char> {
    "multiple Seishin.toml files found; use App::from_project(path)"@
}

/// The candidates of `c` that are files.
fn files_in(c: &Vec<(String, bool)>) -> (r: Vec<String>)
    ensures
        string_views(r@) == files_among(c@),
{
    let mut r: Vec<String> = Vec::new();
    let mut i: usize = 0;
    while i < c.len()
        invariant
            i <= c@.len(),
            string_views(r@) == files_among(c@.take(i as int)),
        decreases c@.len() - i,
    {
        proof {
            assert(c@.take(i + 1).drop_last() =~= c@.take(i as int));
            assert(c@.take(i + 1).last() == c@[i as int]);
        }
        if c[i].1 {
            let ghost before = r@;
            r.push(copy_string(&c[i].0));
            assert(string_views(r@) =~= string_views(before).push(c@[i as int].0@));
        }
        i = i + 1;
    }
    assert(c@.take(c@.len() as int) =~= c@);
    r
}

/// Picks the project file: the first of the candidates in the current
/// directory and its ancestors (nearest first) that is a file; failing
/// that, the one candidate among the example projects that is a file. No
/// candidate, or several example candidates, is an error.
pub fn discover_project_file(ancestors: &Vec<(String, bool)>, examples: &Vec<(String, bool)>) -> (r:
    GameResult<String>)
    ensures
        files_among(ancestors@).len() > 0 ==> (r matches Ok(p) && p@ == files_among(ancestors@)[0]),
        files_among(ancestors@).len() == 0 && files_among(examples@).len() == 1 ==> (r matches Ok(
            p,
        ) && p@ == files_among(examples@)[0]),
        files_among(ancestors@).len() == 0 && files_among(examples@).len() == 0 ==> (r matches Err(
            GameError::Message(m),
        ) && m@ == no_project_message()),
        files_among(ancestors@).len() == 0 && files_among(examples@).len() > 1 ==> (r matches Err(
            GameError::Message(m),
        ) && m@ == several_projects_message()),
{
    let near = files_in(ancestors);
    if near.len() > 0 {
        assert(string_views(near@)[0] == near@[0]@);
        return Ok(copy_string(&near[0]));
    }
    let found = files_in(examples);
    if found.len() == 1 {
        assert(string_views(found@)[0] == found@[0]@);
        Ok(copy_string(&found[0]))
    } else if found.len() == 0 {
        Err(
            GameError::Message(
                owned(
                    "Seishin.toml not found. Expected a Seishin.toml file in the current directory, a parent directory, or exactly one examples/* project.",
                ),
            ),
        )
    } else {
        Err(
            GameError::Message(
                owned("multiple Seishin.toml files found; use App::from_project(path)"),
            ),
        )
    }
}

/// The cause reported for a missing main scene.
pub open spec fn missing_scene_cause() -> Seq<char> {
    "main scene file not found"@
}

/// Checks the configured main scene: it must be a `res://` path that
/// resolves under the resource root, and the resolved path must be a file
/// (`resolved_is_file`, which the host reports for the resolved path).
pub fn validate_main_scene(main_scene: &str, paths: &ProjectPaths, resolved_is_file: bool) -> (r:
    GameResult<()>)
    ensures
        match resolved_under(paths.resource_root@, main_scene@, VirtualScheme::Resource) {
            None => r matches Err(GameError::Path(e)) && rejects_as(
                main_scene@,
                VirtualScheme::Resource,
                e,
            ),
            Some(p) => if resolved_is_file {
                r is Ok
            } else {
                r matches Err(GameError::Diagnostic(d)) && d.kind == PathDiagnosticKind::Resource
                    && d.requested@ == main_scene@ && d.resolved@ == p && d.root@
                    == paths.resource_root@ && d.cause@ == missing_scene_cause()
            },
        },
{
    let resolved = match paths.resolve_resource(main_scene) {
        Ok(p) => p,
        Err(e) => return Err(GameError::Path(e)),
    };
    if !resolved_is_file {
        return Err(
            GameError::Diagnostic(
                PathDiagnosticError::resource(
                    owned(main_scene),
                    resolved,
                    paths.resource_root.as_str(),
                    owned("main scene file not found"),
                ),
            ),
        );
    }
    Ok(())
}

/// A path that is a file is readable; anything else is not found.
pub fn ensure_readable_file(is_file: bool) -> (r: Result<(), IoErrorKind>)
    ensures
        is_file ==> r is Ok,
        !is_file ==> r == Err::<(), IoErrorKind>(IoErrorKind::NotFound),
{
    if is_file {
        Ok(())
    } else {
        Err(IoErrorKind::NotFound)
    }
}

/// The cache key of a path: its text with `/` separators.
pub fn web_path(path: &str) -> (k: String)
    ensures
        k@ == forward_slashes(path@),
{
    string_from_chars(&replace_backslashes(&chars_of(path)))
}

/// Files preloaded for a web build, by path. A path stored twice keeps the
/// later contents.
pub type WebCache<V> = NamedStore<V>;

impl NamedStore<String> {
    /// The text preloaded for `path`; a path that was not preloaded is not
    /// found.
    pub fn read_to_string(&self, path: &str) -> (r: Result<String, IoErrorKind>)
        ensures
            match self.lookup(forward_slashes(path@)) {
                Some(text) => r matches Ok(t) && t@ == text@,
                None => r == Err::<String, IoErrorKind>(IoErrorKind::NotFound),
            },
    {
        let key = web_path(path);
        match self.get(key.as_str()) {
            Some(text) => Ok(copy_string(text)),
            None => Err(IoErrorKind::NotFound),
        }
    }
}

impl NamedStore<Vec<u8>> {
    /// The bytes preloaded for `path`; a path that was not preloaded is
    /// `NotFound(path)`.
    pub fn read_bytes(&self, path: &str) -> (r: Result<Vec<u8>, AssetError>)
        ensures
            match self.lookup(forward_slashes(path@)) {
                Some(bytes) => r matches Ok(b) && b@ == bytes@,
                None => r matches Err(AssetError::NotFound(p)) && p@ == path@,
            },
    {
        let key = web_path(path);
        match self.get(key.as_str()) {
            Some(bytes) => {
                let mut out: Vec<u8> = Vec::new();
                let mut i: usize = 0;
                while i < bytes.len()
                    invariant
                        i <= bytes@.len(),
                        out@ == bytes@.subrange(0, i as int),
                    decreases bytes@.len() - i,
                {
                    out.push(bytes[i]);
                    i = i + 1;
                    assert(out@ =~= bytes@.subrange(0, i as int));
                }
                assert(out@ =~= bytes@);
                Ok(out)
            },
            None => Err(AssetError::NotFound(owned(path))),
        }
    }
}

/// The HTTP status of a finished web request, 0 when it has none.
pub open spec fn status_code(status: Option<u16>) -> int {
    match status {
        Some(c) => c as int,
        None => 0,
    }
}

/// What the status of a web request for `path` says: 404 is
/// `NotFound(path)`, another status outside 200..300 an `Other` I/O error
/// for `path`, and a status in 200..300 is no error.
pub open spec fn status_checked(path: Seq<char>, status: Option<u16>, r: Result<(), AssetError>) -> bool {
    if status_code(status) == 404 {
        r matches Err(AssetError::NotFound(p)) && p@ == path
    } else if !(200 <= status_code(status) < 300) {
        r matches Err(AssetError::Io { path: p, kind }) && p@ == path && kind == IoErrorKind::Other
    } else {
        r is Ok
    }
}

/// Checks the status of a finished web request for `path` (see
/// `status_checked`).
pub fn web_status(path: &str, status: Option<u16>) -> (r: Result<(), AssetError>)
    ensures
        status_checked(path@, status, r),
{
    let code: u16 = match status {
        Some(c) => c,
        None => 0,
    };
    if code == 404 {
        Err(AssetError::NotFound(owned(path)))
    } else if !(200 <= code && code < 300) {
        Err(AssetError::Io { path: owned(path), kind: IoErrorKind::Other })
    } else {
        Ok(())
    }
}

/// The bytes a response read as `x-user-defined` text stands for: the low
/// byte of each UTF-16 code unit.
pub open spec fn low_bytes(units: Seq<u16>) -> Seq<u8> {
    Seq::new(units.len(), |i: int| (units[i] & 0xff) as u8)
}

/// The bytes of a file requested from the web as text: after the status
/// check (see `status_checked`), a response text that could not be read
/// is an `Other` I/O error, a missing one an `UnexpectedEof` error, and
/// otherwise each code unit gives its low byte.
pub fn web_text_bytes(path: &str, status: Option<u16>, text: Result<Option<Vec<u16>>, ()>) -> (r:
    Result<Vec<u8>, AssetError>)
    ensures
        status_checked(path@, status, Ok(())) ==> match text {
            Err(_) => r matches Err(AssetError::Io { path: p, kind }) && p@ == path@ && kind
                == IoErrorKind::Other,
            Ok(None) => r matches Err(AssetError::Io { path: p, kind }) && p@ == path@ && kind
                == IoErrorKind::UnexpectedEof,
            Ok(Some(units)) => r matches Ok(b) && b@ == low_bytes(units@),
        },
        !status_checked(path@, status, Ok(())) ==> (r matches Err(e) && status_checked(
            path@,
            status,
            Err(e),
        )),
{
    match web_status(path, status) {
        Err(e) => return Err(e),
        Ok(()) => {},
    }
    let units = match text {
        Err(()) => return Err(AssetError::Io { path: owned(path), kind: IoErrorKind::Other }),
        Ok(None) => {
            return Err(AssetError::Io { path: owned(path), kind: IoErrorKind::UnexpectedEof })
        },
        Ok(Some(units)) => units,
    };
    let mut out: Vec<u8> = Vec::new();
    let mut i: usize = 0;
    while i < units.len()
        invariant
            i <= units@.len(),
            out@ == low_bytes(units@).take(i as int),
        decreases units@.len() - i,
    {
        let unit: u16 = units[i];
        out.push((unit & 0xff) as u8);
        i = i + 1;
        assert(out@ =~= low_bytes(units@).take(i as int));
    }
    assert(out@ =~= low_bytes(units@));
    Ok(out)
}

/// The bytes of a file requested from the web as an array buffer: after
/// the status check (see `status_checked`), a response that could not be
/// read is an `Other` I/O error, and otherwise its bytes are the file's.
pub fn web_buffer_bytes(path: &str, status: Option<u16>, body: Result<Vec<u8>, ()>) -> (r: Result<
    Vec<u8>,
    AssetError,
>)
    ensures
        status_checked(path@, status, Ok(())) ==> match body {
            Err(_) => r matches Err(AssetError::Io { path: p, kind }) && p@ == path@ && kind
                == IoErrorKind::Other,
            Ok(bytes) => r == Ok::<Vec<u8>, AssetError>(bytes),
        },
        !status_checked(path@, status, Ok(())) ==> (r matches Err(e) && status_checked(
            path@,
            status,
            Err(e),
        )),
{
    match web_status(path, status) {
        Err(e) => return Err(e),
        Ok(()) => {},
    }
    match body {
        Err(()) => Err(AssetError::Io { path: owned(path), kind: IoErrorKind::Other }),
        Ok(bytes) => Ok(bytes),
    }
}

/// The lines of `s`, split at each `\n`; never empty.
pub open spec fn text_lines(s: Seq<char>) -> Seq<Seq<char>>
    decreases s.len(),
{
    if s.len() == 0 {
        seq![Seq::<char>::empty()]
    } else {
        let prev = text_lines(s.drop_last());
        if s.last() == '\n' {
            prev.push(Seq::<char>::empty())
        } else {
            prev.update(prev.len() - 1, prev.last().push(s.last()))
        }
    }
}

/// The entries of an asset manifest: its lines trimmed, empty ones left out.
pub open spec fn manifest_entries(lines: Seq<Seq<char>>) -> Seq<Seq<char>>
    decreases lines.len(),
{
    if lines.len() == 0 {
        Seq::empty()
    } else {
        let kept = manifest_entries(lines.drop_last());
        if trimmed_text(lines.last()).len() > 0 {
            kept.push(trimmed_text(lines.last()))
        } else {
            kept
        }
    }
}

/// The asset paths a web asset manifest lists, one per non-blank line.
pub fn manifest_asset_paths(manifest: &str) -> (r: Vec<String>)
    ensures
        string_views(r@) == manifest_entries(text_lines(manifest@)),
{
    let v = chars_of(manifest);
    let mut out: Vec<String> = Vec::new();
    let mut current: Vec<char> = Vec::new();
    let mut k: usize = 0;
    proof {
        assert(v@.take(0) =~= Seq::<char>::empty());
        assert(text_lines(v@.take(0)).drop_last() =~= Seq::<Seq<char>>::empty());
    }
    while k < v.len()
        invariant
            k <= v@.len(),
            v@ == manifest@,
            text_lines(v@.take(k as int)).len() >= 1,
            text_lines(v@.take(k as int)).last() == current@,
            manifest_entries(text_lines(v@.take(k as int)).drop_last()) == string_views(out@),
        decreases v@.len() - k,
    {
        let c = v[k];
        let ghost prev = text_lines(v@.take(k as int));
        proof {
            assert(v@.take(k + 1).drop_last() =~= v@.take(k as int));
            assert(v@.take(k + 1).last() == c);
        }
        if c == '\n' {
            let t = trim_chars(&current);
            if t.len() > 0 {
                let ghost before = out@;
                out.push(string_from_chars(&t));
                assert(string_views(out@) =~= string_views(before).push(t@));
            }
            proof {
                assert(text_lines(v@.take(k + 1)) == prev.push(Seq::<char>::empty()));
                assert(prev.push(Seq::<char>::empty()).drop_last() =~= prev);
                assert(prev.drop_last().push(prev.last()) =~= prev);
            }
            current = Vec::new();
        } else {
            current.push(c);
            proof {
                let next = prev.update(prev.len() - 1, prev.last().push(c));
                assert(text_lines(v@.take(k + 1)) == next);
                assert(next.drop_last() =~= prev.drop_last());
            }
        }
        k = k + 1;
    }
    let t = trim_chars(&current);
    proof {
        assert(v@.take(v@.len() as int) =~= v@);
        let lines = text_lines(v@);
        assert(lines.drop_last().push(lines.last()) =~= lines);
    }
    if t.len() > 0 {
        let ghost before = out@;
        out.push(string_from_chars(&t));
        assert(string_views(out@) =~= string_views(before).push(t@));
    }
    out
}

} // verus!
