//! Asset paths: normalisation of requested paths, the approved asset root and
//! the component-wise containment check that keeps resolved files under it.
//!
//! Paths follow the Unix rules of `std::path`: `/` separates components, a
//! leading `/` makes a path absolute, empty and `.` components are skipped and
//! `..` names the parent directory.
use vstd::prelude::*;
use crate::text::{append_str, chars_of, owned, string_from_chars};

verus! {

/// The kind of an I/O failure while touching an asset file.
#[derive(Debug, Clone, Copy, PartialEq, Eq, Structural)]
pub enum IoErrorKind {
    NotFound,
    PermissionDenied,
    InvalidData,
    UnexpectedEof,
    Other,
}

/// Errors of asset path handling and asset loading.
#[derive(Debug, Clone, PartialEq, Eq)]
pub enum AssetError {
    InvalidAssetRoot(String),
    AbsolutePathRejected(String),
    PathTraversalRejected(String),
    NotFound(String),
    PathOutsideRoot(String),
    Io { path: String, kind: IoErrorKind },
    ImageDecode(String),
}

/// The `/`-separated pieces of `s`, empty pieces included; never empty.
pub open spec fn segments(s: Seq<char>) -> Seq<Seq<char>>
    decreases s.len(),
{
    if s.len() == 0 {
        seq![Seq::<char>::empty()]
    } else {
        let prev = segments(s.drop_last());
        if s.last() == '/' {
            prev.push(Seq::<char>::empty())
        } else if prev.len() == 0 {
            seq![seq![s.last()]]
        } else {
            prev.update(prev.len() - 1, prev.last().push(s.last()))
        }
    }
}

/// A piece that names a directory entry: neither empty nor `.`.
pub open spec fn is_normal_piece(seg: Seq<char>) -> bool {
    seg.len() > 0 && seg != seq!['.']
}

/// The parent-directory piece `..`.
pub open spec fn is_parent_piece(seg: Seq<char>) -> bool {
    seg == seq!['.', '.']
}

/// The pieces of `segs` that name directory entries, in order.
pub open spec fn normal_pieces(segs: Seq<Seq<char>>) -> Seq<Seq<char>>
    decreases segs.len(),
{
    if segs.len() == 0 {
        Seq::empty()
    } else {
        let kept = normal_pieces(segs.drop_last());
        if is_normal_piece(segs.last()) {
            kept.push(segs.last())
        } else {
            kept
        }
    }
}

/// The directory-entry components of a path.
pub open spec fn components(s: Seq<char>) -> Seq<Seq<char>> {
    normal_pieces(segments(s))
}

/// `parts` joined with `/` between neighbours.
pub open spec fn join_pieces(parts: Seq<Seq<char>>) -> Seq<char>
    decreases parts.len(),
{
    if parts.len() == 0 {
        Seq::empty()
    } else if parts.len() == 1 {
        parts[0]
    } else {
        join_pieces(parts.drop_last()) + seq!['/'] + parts.last()
    }
}

/// Every `\` replaced by `/`.
pub open spec fn forward_slashes(s: Seq<char>) -> Seq<char> {
    s.map_values(|c: char| if c == '\\' { '/' } else { c })
}

/// A path with a root: it starts with `/`.
pub open spec fn is_absolute_text(s: Seq<char>) -> bool {
    s.len() > 0 && s[0] == '/'
}

/// The directory-entry components of an asset path, with `\\` taken as a
/// separator like `/`.
pub open spec fn asset_components(raw: Seq<char>) -> Seq<Seq<char>> {
    components(forward_slashes(raw))
}

/// An asset path with a root: it starts with `/` or `\\`.
pub open spec fn is_absolute_asset(raw: Seq<char>) -> bool {
    is_absolute_text(forward_slashes(raw))
}

/// The normal form of an accepted asset path: its components joined by `/`,
/// or `.` when nothing is left.
pub open spec fn normalized_text(raw: Seq<char>) -> Seq<char> {
    if asset_components(raw).len() == 0 {
        seq!['.']
    } else {
        join_pieces(asset_components(raw))
    }
}

/// The components `std::path::Path::components` yields: a root marker `/` for
/// absolute paths, a `.` marker for a relative path that starts with `.`, then
/// the named entries (`..` included).
pub open spec fn std_components(s: Seq<char>) -> Seq<Seq<char>> {
    if is_absolute_text(s) {
        seq![seq!['/']] + components(s)
    } else if segments(s)[0] == seq!['.'] {
        seq![seq!['.']] + components(s)
    } else {
        components(s)
    }
}

/// `Path::starts_with`: the components of `base` are a prefix of those of `path`.
pub open spec fn path_starts_with(path: Seq<char>, base: Seq<char>) -> bool {
    std_components(base).is_prefix_of(std_components(path))
}

/// `PathBuf::join` on Unix: an absolute `rel` replaces `base`; otherwise a `/`
/// is put between them unless `base` is empty or already ends with one.
pub open spec fn join_path(base: Seq<char>, rel: Seq<char>) -> Seq<char> {
    if is_absolute_text(rel) {
        rel
    } else if base.len() == 0 || base.last() == '/' {
        base + rel
    } else {
        base + seq!['/'] + rel
    }
}

/// The characters held by each vector of `v`.
pub open spec fn texts(v: Seq<Vec<char>>) -> Seq<Seq<char>> {
    v.map_values(|x: Vec<char>| x@)
}

proof fn lemma_segments_nonempty(s: Seq<char>)
    ensures
        segments(s).len() >= 1,
    decreases s.len(),
{
    if s.len() > 0 {
        lemma_segments_nonempty(s.drop_last());
    }
}

proof fn lemma_normal_pieces_push(segs: Seq<Seq<char>>, seg: Seq<char>)
    ensures
        normal_pieces(segs.push(seg)) == (if is_normal_piece(seg) {
            normal_pieces(segs).push(seg)
        } else {
            normal_pieces(segs)
        }),
{
    assert(segs.push(seg).drop_last() =~= segs);
}

proof fn lemma_join_push(parts: Seq<Seq<char>>, last: Seq<char>)
    ensures
        join_pieces(parts.push(last)) == (if parts.len() == 0 {
            last
        } else {
            join_pieces(parts) + seq!['/'] + last
        }),
{
    assert(parts.push(last).drop_last() =~= parts);
    if parts.len() == 0 {
        assert(parts.push(last)[0] == last);
    }
}

/// A copy of a character vector.
pub fn clone_chars(v: &Vec<char>) -> (r: Vec<char>)
    ensures
        r@ == v@,
{
    let mut r: Vec<char> = Vec::new();
    let mut i: usize = 0;
    while i < v.len()
        invariant
            i <= v.len(),
            r@ == v@.subrange(0, i as int),
        decreases v.len() - i,
    {
        r.push(v[i]);
        i = i + 1;
        assert(r@ =~= v@.subrange(0, i as int));
    }
    assert(v@.subrange(0, v.len() as int) =~= v@);
    r
}

/// Splits `s` at every `/`.
pub fn split_segments(s: &Vec<char>) -> (r: Vec<Vec<char>>)
    ensures
        texts(r@) == segments(s@),
{
    let mut done: Vec<Vec<char>> = Vec::new();
    let mut cur: Vec<char> = Vec::new();
    let mut i: usize = 0;
    while i < s.len()
        invariant
            i <= s.len(),
            texts(done@).push(cur@) == segments(s@.take(i as int)),
        decreases s.len() - i,
    {
        let c = s[i];
        let ghost prefix = s@.take(i as int);
        proof {
            assert(s@.take(i + 1).drop_last() =~= prefix);
            assert(s@.take(i + 1).last() == c);
            lemma_segments_nonempty(prefix);
        }
        if c == '/' {
            let ghost before = texts(done@);
            let finished = cur;
            done.push(finished);
            cur = Vec::new();
            proof {
                assert(texts(done@) =~= before.push(finished@));
                assert(texts(done@).push(cur@) =~= segments(s@.take(i + 1)));
            }
        } else {
            let ghost before = cur@;
            cur.push(c);
            proof {
                let prev = segments(prefix);
                assert(prev.len() >= 1);
                assert(texts(done@).push(cur@) =~= prev.update(prev.len() - 1, prev.last().push(c)));
            }
        }
        i = i + 1;
    }
    let ghost before = texts(done@);
    let last = cur;
    done.push(last);
    proof {
        assert(texts(done@) =~= before.push(last@));
        assert(s@.take(s@.len() as int) =~= s@);
    }
    done
}

/// Whether `seg` is `..`.
pub fn is_parent(seg: &Vec<char>) -> (r: bool)
    ensures
        r == is_parent_piece(seg@),
{
    let r = seg.len() == 2 && seg[0] == '.' && seg[1] == '.';
    proof {
        if seg@.len() == 2 && seg@[0] == '.' && seg@[1] == '.' {
            assert(seg@ =~= seq!['.', '.']);
        }
    }
    r
}

/// Whether `seg` names a directory entry (neither empty nor `.`).
pub fn is_normal(seg: &Vec<char>) -> (r: bool)
    ensures
        r == is_normal_piece(seg@),
{
    let dot = seg.len() == 1 && seg[0] == '.';
    proof {
        if seg@.len() == 1 && seg@[0] == '.' {
            assert(seg@ =~= seq!['.']);
        }
    }
    seg.len() > 0 && !dot
}

/// The directory-entry components of `s`.
pub fn path_components(s: &Vec<char>) -> (r: Vec<Vec<char>>)
    ensures
        texts(r@) == components(s@),
{
    let segs = split_segments(s);
    let mut kept: Vec<Vec<char>> = Vec::new();
    let mut i: usize = 0;
    while i < segs.len()
        invariant
            i <= segs.len(),
            texts(segs@) == segments(s@),
            texts(kept@) == normal_pieces(texts(segs@).take(i as int)),
        decreases segs.len() - i,
    {
        let ghost before = texts(kept@);
        proof {
            assert(texts(segs@).take(i + 1) =~= texts(segs@).take(i as int).push(segs@[i as int]@));
            lemma_normal_pieces_push(texts(segs@).take(i as int), segs@[i as int]@);
        }
        if is_normal(&segs[i]) {
            let piece = clone_chars(&segs[i]);
            kept.push(piece);
            assert(texts(kept@) =~= before.push(piece@));
        }
        i = i + 1;
    }
    assert(texts(segs@).take(segs@.len() as int) =~= texts(segs@));
    kept
}

/// Whether some component is `..`.
pub fn has_parent_component(parts: &Vec<Vec<char>>) -> (r: bool)
    ensures
        r == exists|i: int| 0 <= i < parts@.len() && is_parent_piece(#[trigger] texts(parts@)[i]),
{
    let mut i: usize = 0;
    while i < parts.len()
        invariant
            i <= parts.len(),
            forall|j: int| 0 <= j < i ==> !is_parent_piece(#[trigger] texts(parts@)[j]),
        decreases parts.len() - i,
    {
        if is_parent(&parts[i]) {
            assert(is_parent_piece(texts(parts@)[i as int]));
            return true;
        }
        i = i + 1;
    }
    false
}

/// The components joined with `/`.
pub fn join_with_slash(parts: &Vec<Vec<char>>) -> (r: Vec<char>)
    ensures
        r@ == join_pieces(texts(parts@)),
{
    let mut out: Vec<char> = Vec::new();
    let mut i: usize = 0;
    while i < parts.len()
        invariant
            i <= parts.len(),
            out@ == join_pieces(texts(parts@).take(i as int)),
        decreases parts.len() - i,
    {
        proof {
            assert(texts(parts@).take(i + 1) =~= texts(parts@).take(i as int).push(
                parts@[i as int]@,
            ));
            lemma_join_push(texts(parts@).take(i as int), parts@[i as int]@);
        }
        if i > 0 {
            out.push('/');
        }
        let part = &parts[i];
        let ghost before = out@;
        let mut j: usize = 0;
        while j < part.len()
            invariant
                j <= part.len(),
                out@ == before + part@.subrange(0, j as int),
            decreases part.len() - j,
        {
            out.push(part[j]);
            j = j + 1;
            assert(out@ =~= before + part@.subrange(0, j as int));
        }
        proof {
            assert(part@.subrange(0, part@.len() as int) =~= part@);
            if i == 0 {
                assert(before =~= Seq::<char>::empty());
                assert(out@ =~= part@);
            }
        }
        i = i + 1;
    }
    assert(texts(parts@).take(parts@.len() as int) =~= texts(parts@));
    out
}

/// `s` with every `\` replaced by `/`.
pub fn replace_backslashes(s: &Vec<char>) -> (r: Vec<char>)
    ensures
        r@ == forward_slashes(s@),
{
    let mut r: Vec<char> = Vec::new();
    let mut i: usize = 0;
    while i < s.len()
        invariant
            i <= s.len(),
            r@ == forward_slashes(s@.subrange(0, i as int)),
        decreases s.len() - i,
    {
        let c = s[i];
        if c == '\\' {
            r.push('/');
        } else {
            r.push(c);
        }
        i = i + 1;
        assert(r@ =~= forward_slashes(s@.subrange(0, i as int)));
    }
    assert(s@.subrange(0, s@.len() as int) =~= s@);
    r
}

/// A normalised asset path relative to an asset root.
#[derive(Debug, Clone, PartialEq, Eq, Hash)]
pub struct AssetPath(String);

impl View for AssetPath {
    type V = Seq<char>;

    closed spec fn view(&self) -> Seq<char> {
        self.0@
    }
}

impl AssetPath {
    /// Accepts a relative path without `..` components and returns its normal
    /// form; `\\` separates components like `/`. Absolute paths and
    /// parent-directory traversal are rejected with the requested text, so an
    /// accepted path is relative and has no `..` component.
    pub fn new(raw: &str) -> (r: Result<Self, AssetError>)
        ensures
            is_absolute_asset(raw@) ==> (r matches Err(AssetError::AbsolutePathRejected(p))
                && p@ == raw@),
            !is_absolute_asset(raw@) && asset_components(raw@).contains(seq!['.', '.']) ==> (r matches Err(
                AssetError::PathTraversalRejected(p),
            ) && p@ == raw@),
            !is_absolute_asset(raw@) && !asset_components(raw@).contains(seq!['.', '.']) ==> (r matches Ok(
                path,
            ) && path@ == normalized_text(raw@)),
            r matches Ok(p) ==> !is_absolute_text(p@) && !components(p@).contains(seq!['.', '.']),
    {
        let chars = chars_of(raw);
        let fwd = replace_backslashes(&chars);
        if fwd.len() > 0 && fwd[0] == '/' {
            return Err(AssetError::AbsolutePathRejected(string_from_chars(&chars)));
        }
        let parts = path_components(&fwd);
        if has_parent_component(&parts) {
            proof {
                let i = choose|i: int|
                    0 <= i < parts@.len() && is_parent_piece(#[trigger] texts(parts@)[i]);
                assert(asset_components(raw@)[i] == seq!['.', '.']);
            }
            return Err(AssetError::PathTraversalRejected(string_from_chars(&chars)));
        }
        proof {
            if asset_components(raw@).contains(seq!['.', '.']) {
                let i = choose|i: int|
                    0 <= i < asset_components(raw@).len() && asset_components(raw@)[i] == seq![
                        '.',
                        '.',
                    ];
                assert(is_parent_piece(texts(parts@)[i]));
            }
            crate::laws::law_accepted_asset_path_stays_under_root(Seq::empty(), raw@);
        }
        if parts.len() == 0 {
            let mut dot: Vec<char> = Vec::new();
            dot.push('.');
            assert(dot@ =~= seq!['.']);
            return Ok(AssetPath(string_from_chars(&dot)));
        }
        let joined = join_with_slash(&parts);
        Ok(AssetPath(string_from_chars(&joined)))
    }

    pub fn as_str(&self) -> (s: &str)
        ensures
            s@ == self@,
    {
        self.0.as_str()
    }

    /// The path text, for joining onto a root.
    pub fn as_path(&self) -> (s: &str)
        ensures
            s@ == self@,
    {
        self.0.as_str()
    }
}

/// `base` joined with `rel` as `PathBuf::join` does on Unix.
pub fn join_paths(base: &str, rel: &str) -> (r: String)
    ensures
        r@ == join_path(base@, rel@),
{
    let b = chars_of(base);
    let rl = chars_of(rel);
    if rl.len() > 0 && rl[0] == '/' {
        return string_from_chars(&rl);
    }
    let mut out = clone_chars(&b);
    if b.len() > 0 && b[b.len() - 1] != '/' {
        out.push('/');
    }
    let ghost before = out@;
    let mut i: usize = 0;
    while i < rl.len()
        invariant
            i <= rl.len(),
            out@ == before + rl@.subrange(0, i as int),
        decreases rl.len() - i,
    {
        out.push(rl[i]);
        i = i + 1;
        assert(out@ =~= before + rl@.subrange(0, i as int));
    }
    assert(rl@.subrange(0, rl@.len() as int) =~= rl@);
    proof {
        if b@.len() == 0 || b@.last() == '/' {
            assert(before =~= b@);
        } else {
            assert(before =~= b@ + seq!['/']);
        }
    }
    string_from_chars(&out)
}

/// The components `Path::components` yields for `s` (see `std_components`).
pub fn std_path_components(s: &Vec<char>) -> (r: Vec<Vec<char>>)
    ensures
        texts(r@) == std_components(s@),
{
    let comps = path_components(s);
    let mut r: Vec<Vec<char>> = Vec::new();
    let absolute = s.len() > 0 && s[0] == '/';
    let segs = split_segments(s);
    proof {
        lemma_segments_nonempty(s@);
    }
    let leading_dot = !absolute && segs[0].len() == 1 && segs[0][0] == '.';
    proof {
        if segs@[0]@.len() == 1 && segs@[0]@[0] == '.' {
            assert(segs@[0]@ =~= seq!['.']);
        }
        assert(texts(segs@)[0] == segs@[0]@);
    }
    if absolute {
        let mut root: Vec<char> = Vec::new();
        root.push('/');
        r.push(root);
    } else if leading_dot {
        let mut dot: Vec<char> = Vec::new();
        dot.push('.');
        r.push(dot);
    }
    let ghost head = texts(r@);
    let mut i: usize = 0;
    while i < comps.len()
        invariant
            i <= comps.len(),
            texts(comps@) == components(s@),
            texts(r@) == head + texts(comps@).take(i as int),
        decreases comps.len() - i,
    {
        let piece = clone_chars(&comps[i]);
        let ghost before = texts(r@);
        r.push(piece);
        assert(texts(r@) =~= before.push(piece@));
        assert(texts(comps@).take(i + 1) =~= texts(comps@).take(i as int).push(comps@[i as int]@));
        i = i + 1;
    }
    proof {
        assert(texts(comps@).take(comps@.len() as int) =~= texts(comps@));
        if absolute {
            assert(head =~= seq![seq!['/']]);
        } else if leading_dot {
            assert(head =~= seq![seq!['.']]);
        } else {
            assert(head =~= Seq::<Seq<char>>::empty());
        }
        assert(texts(r@) =~= std_components(s@));
    }
    r
}

/// `Path::starts_with`: whether `base`'s components begin `path`'s.
pub fn starts_with_path(path: &str, base: &str) -> (r: bool)
    ensures
        r == path_starts_with(path@, base@),
{
    let pc = std_path_components(&chars_of(path));
    let bc = std_path_components(&chars_of(base));
    if bc.len() > pc.len() {
        return false;
    }
    let mut i: usize = 0;
    while i < bc.len()
        invariant
            bc.len() <= pc.len(),
            i <= bc.len(),
            texts(pc@) == std_components(path@),
            texts(bc@) == std_components(base@),
            forall|j: int| 0 <= j < i ==> texts(bc@)[j] == texts(pc@)[j],
        decreases bc.len() - i,
    {
        if !crate::text::chars_eq(&bc[i], &pc[i]) {
            assert(texts(bc@)[i as int] != texts(pc@)[i as int]);
            assert(texts(pc@).subrange(0, texts(bc@).len() as int)[i as int] == texts(pc@)[i as int]);
            return false;
        }
        i = i + 1;
    }
    assert(texts(bc@) =~= texts(pc@).subrange(0, texts(bc@).len() as int));
    true
}

/// The approved directory every asset resolves under.
#[derive(Debug, Clone, PartialEq, Eq)]
pub struct AssetRoot {
    path: String,
}

impl View for AssetRoot {
    type V = Seq<char>;

    closed spec fn view(&self) -> Seq<char> {
        self.path@
    }
}

/// What the host learned when canonicalising a configured asset root.
#[derive(Debug, Clone, PartialEq, Eq)]
pub enum RootProbe {
    /// The path could not be canonicalised.
    Unresolvable,
    /// The canonical path, and whether it names a directory.
    Canonical { path: String, is_dir: bool },
    /// The platform keeps the configured path as it is (web exports).
    Verbatim,
}

/// The root directory for `path`: its canonical form when that names a
/// directory, `InvalidAssetRoot` otherwise.
pub fn asset_root(path: &str, probe: RootProbe) -> (r: Result<String, AssetError>)
    ensures
        match probe {
            RootProbe::Unresolvable => r matches Err(AssetError::InvalidAssetRoot(p)) && p@ == path@,
            RootProbe::Canonical { path: c, is_dir } => if is_dir {
                r matches Ok(p) && p@ == c@
            } else {
                r matches Err(AssetError::InvalidAssetRoot(p)) && p@ == c@
            },
            RootProbe::Verbatim => r matches Ok(p) && p@ == path@,
        },
{
    match probe {
        RootProbe::Unresolvable => Err(AssetError::InvalidAssetRoot(crate::text::owned(path))),
        RootProbe::Canonical { path: canonical, is_dir } => {
            if is_dir {
                Ok(canonical)
            } else {
                Err(AssetError::InvalidAssetRoot(canonical))
            }
        },
        RootProbe::Verbatim => Ok(crate::text::owned(path)),
    }
}

impl AssetRoot {
    /// The asset root for a configured path, as `asset_root` decides it.
    pub fn new(path: &str, probe: RootProbe) -> (r: Result<Self, AssetError>)
        ensures
            match probe {
                RootProbe::Unresolvable => r matches Err(AssetError::InvalidAssetRoot(p)) && p@
                    == path@,
                RootProbe::Canonical { path: c, is_dir } => if is_dir {
                    r matches Ok(root) && root@ == c@
                } else {
                    r matches Err(AssetError::InvalidAssetRoot(p)) && p@ == c@
                },
                RootProbe::Verbatim => r matches Ok(root) && root@ == path@,
            },
    {
        match asset_root(path, probe) {
            Ok(p) => Ok(AssetRoot { path: p }),
            Err(e) => Err(e),
        }
    }

    pub fn path(&self) -> (p: &str)
        ensures
            p@ == self@,
    {
        self.path.as_str()
    }

    /// The root joined with the asset path.
    pub fn resolve(&self, asset_path: &AssetPath) -> (p: String)
        ensures
            p@ == join_path(self@, asset_path@),
    {
        join_paths(self.path.as_str(), asset_path.as_path())
    }
}

/// An I/O failure on `path`: `NotFound` for a missing file, `Io` otherwise.
pub fn map_io_error(path: String, kind: IoErrorKind) -> (e: AssetError)
    ensures
        kind == IoErrorKind::NotFound ==> e == AssetError::NotFound(path),
        kind != IoErrorKind::NotFound ==> e == (AssetError::Io { path, kind }),
{
    match kind {
        IoErrorKind::NotFound => AssetError::NotFound(path),
        kind => AssetError::Io { path, kind },
    }
}

/// What the host learned about a joined asset file path.
#[derive(Debug, Clone, PartialEq, Eq)]
pub enum FileProbe {
    /// Nothing exists at the path.
    Missing,
    /// The path exists and canonicalises to this path.
    Canonical(String),
    /// The path exists but canonicalising it failed.
    Unreadable(IoErrorKind),
    /// The platform serves paths as they are (web exports).
    Verbatim,
}

/// What resolving the file at `joined` under `root` gives, given what the host
/// learned about it: missing files are `NotFound`, canonicalisation failures
/// are mapped by kind, a canonical path outside the root is `PathOutsideRoot`
/// and one inside it is the result.
pub open spec fn resolved_file(
    root: Seq<char>,
    joined: Seq<char>,
    probe: FileProbe,
    r: Result<String, AssetError>,
) -> bool {
    match probe {
        FileProbe::Missing => r matches Err(AssetError::NotFound(p)) && p@ == joined,
        FileProbe::Unreadable(kind) => r matches Err(e) && (match e {
            AssetError::NotFound(p) => kind == IoErrorKind::NotFound && p@ == joined,
            AssetError::Io { path: p, kind: k } => kind != IoErrorKind::NotFound && k == kind
                && p@ == joined,
            _ => false,
        }),
        FileProbe::Canonical(c) => if path_starts_with(c@, root) {
            r == Ok::<String, AssetError>(c)
        } else {
            r == Err::<String, AssetError>(AssetError::PathOutsideRoot(c))
        },
        FileProbe::Verbatim => r matches Ok(p) && p@ == joined,
    }
}

/// Resolves the file at `joined` under `root` (see `resolved_file`).
pub fn canonical_asset_path(root: &str, joined: String, probe: FileProbe) -> (r: Result<
    String,
    AssetError,
>)
    ensures
        resolved_file(root@, joined@, probe, r),
{
    match probe {
        FileProbe::Missing => Err(AssetError::NotFound(joined)),
        FileProbe::Unreadable(kind) => Err(map_io_error(joined, kind)),
        FileProbe::Canonical(canonical) => {
            if starts_with_path(canonical.as_str(), root) {
                Ok(canonical)
            } else {
                Err(AssetError::PathOutsideRoot(canonical))
            }
        },
        FileProbe::Verbatim => Ok(joined),
    }
}

/// The error `map_io_error` gives.
pub open spec fn map_io_error_spec(path: String, kind: IoErrorKind) -> AssetError {
    if kind == IoErrorKind::NotFound {
        AssetError::NotFound(path)
    } else {
        AssetError::Io { path, kind }
    }
}

/// How `std::io::ErrorKind` displays each kind.
pub open spec fn io_kind_text(kind: IoErrorKind) -> Seq<char> {
    match kind {
        IoErrorKind::NotFound => "entity not found"@,
        IoErrorKind::PermissionDenied => "permission denied"@,
        IoErrorKind::InvalidData => "invalid data"@,
        IoErrorKind::UnexpectedEof => "unexpected end of file"@,
        IoErrorKind::Other => "other error"@,
    }
}

/// The text of an asset error.
pub open spec fn asset_error_text(e: AssetError) -> Seq<char> {
    match e {
        AssetError::InvalidAssetRoot(p) => "invalid asset root: "@ + p@,
        AssetError::AbsolutePathRejected(p) => "absolute asset paths are not allowed: "@ + p@,
        AssetError::PathTraversalRejected(p) => "asset path traversal is not allowed: "@ + p@,
        AssetError::NotFound(p) => "asset file was not found: "@ + p@,
        AssetError::PathOutsideRoot(p) => "resolved asset path escaped the approved root: "@ + p@,
        AssetError::Io { path, kind } => "failed to access asset file "@ + path@ + ": "@
            + io_kind_text(kind),
        AssetError::ImageDecode(p) => "failed to decode image: "@ + p@,
    }
}

/// The display text of an I/O error kind.
pub fn io_kind_message(kind: IoErrorKind) -> (s: String)
    ensures
        s@ == io_kind_text(kind),
{
    match kind {
        IoErrorKind::NotFound => owned("entity not found"),
        IoErrorKind::PermissionDenied => owned("permission denied"),
        IoErrorKind::InvalidData => owned("invalid data"),
        IoErrorKind::UnexpectedEof => owned("unexpected end of file"),
        IoErrorKind::Other => owned("other error"),
    }
}

/// `prefix` followed by `rest`.
pub fn prefixed(prefix: &str, rest: &str) -> (s: String)
    ensures
        s@ == prefix@ + rest@,
{
    let mut s = owned(prefix);
    append_str(&mut s, rest);
    s
}

impl AssetError {
    /// The text shown for this error.
    pub fn message(&self) -> (s: String)
        ensures
            s@ == asset_error_text(*self),
    {
        match self {
            AssetError::InvalidAssetRoot(p) => prefixed("invalid asset root: ", p.as_str()),
            AssetError::AbsolutePathRejected(p) => prefixed(
                "absolute asset paths are not allowed: ",
                p.as_str(),
            ),
            AssetError::PathTraversalRejected(p) => prefixed(
                "asset path traversal is not allowed: ",
                p.as_str(),
            ),
            AssetError::NotFound(p) => prefixed("asset file was not found: ", p.as_str()),
            AssetError::PathOutsideRoot(p) => prefixed(
                "resolved asset path escaped the approved root: ",
                p.as_str(),
            ),
            AssetError::Io { path, kind } => {
                let mut s = prefixed("failed to access asset file ", path.as_str());
                append_str(&mut s, ": ");
                let k = io_kind_message(*kind);
                append_str(&mut s, k.as_str());
                s
            },
            AssetError::ImageDecode(p) => prefixed("failed to decode image: ", p.as_str()),
        }
    }
}

} // verus!
