//! Scene entities: the registry of custom component types, and the
//! blueprint an entity is assembled from (a prefab, overridden by its scene
//! entry), with the checks made before it is spawned.
use vstd::prelude::*;
use crate::paths::{
    rejects_as, resolved_under, PathDiagnosticError, PathDiagnosticKind, ProjectPaths,
    VirtualScheme,
};
use crate::project::{GameError, GameResult};
use crate::store::NamedStore;
use crate::text::{append_str, copy_string, is_blank, is_blank_text, owned, str_eq};
use crate::world::{texts_of, EntityRecord};

verus! {

/// The text of the error for a blank component type name.
pub open spec fn blank_component_message() -> Seq<char> {
    "component registration name must not be empty"@
}

/// The text of the error for a component type nobody registered.
pub open spec fn unknown_component_message(kind_name: Seq<char>) -> Seq<char> {
    "unknown component type '"@ + kind_name + "'"@
}

/// The factories of the custom component types a game registered, by type
/// name. Registering a name again replaces its factory.
pub struct ComponentRegistry<F> {
    factories: NamedStore<F>,
}

impl<F> ComponentRegistry<F> {
    /// The factory registered for `kind_name`.
    pub closed spec fn lookup(&self, kind_name: Seq<char>) -> Option<F> {
        self.factories.lookup(kind_name)
    }

    /// No types registered.
    pub fn new() -> (r: Self)
        ensures
            forall|name: Seq<char>| #[trigger] r.lookup(name) is None,
    {
        ComponentRegistry { factories: NamedStore::new() }
    }

    /// Registers `factory` under `kind_name`; a blank name is refused and
    /// changes nothing.
    pub fn register(&mut self, kind_name: &str, factory: F) -> (r: GameResult<()>)
        ensures
            is_blank_text(kind_name@) ==> (r matches Err(GameError::Message(m)) && m@
                == blank_component_message()) && forall|name: Seq<char>|
                #[trigger] final(self).lookup(name) == old(self).lookup(name),
            !is_blank_text(kind_name@) ==> r is Ok && final(self).lookup(kind_name@) == Some(
                factory,
            ) && forall|name: Seq<char>|
                name != kind_name@ ==> #[trigger] final(self).lookup(name) == old(self).lookup(
                    name,
                ),
    {
        if is_blank(kind_name) {
            return Err(GameError::Message(owned("component registration name must not be empty")));
        }
        self.factories.insert(owned(kind_name), factory);
        Ok(())
    }

    /// Whether a factory is registered under `kind_name`.
    pub fn contains(&self, kind_name: &str) -> (r: bool)
        ensures
            r == self.lookup(kind_name@) is Some,
    {
        self.factories.contains(kind_name)
    }

    /// The factory registered under `kind_name`.
    pub fn factory(&self, kind_name: &str) -> (r: GameResult<&F>)
        ensures
            match self.lookup(kind_name@) {
                Some(f) => r matches Ok(g) && *g == f,
                None => r matches Err(GameError::Message(m)) && m@ == unknown_component_message(
                    kind_name@,
                ),
            },
    {
        match self.factories.get(kind_name) {
            Some(f) => Ok(f),
            None => {
                let mut m = owned("unknown component type '");
                append_str(&mut m, kind_name);
                append_str(&mut m, "'");
                Err(GameError::Message(m))
            },
        }
    }
}

/// `s` without its entries named `name`, in order.
pub open spec fn without_name<V>(s: Seq<(String, V)>, name: Seq<char>) -> Seq<(String, V)>
    decreases s.len(),
{
    if s.len() == 0 {
        s
    } else {
        let kept = without_name(s.drop_last(), name);
        if s.last().0@ == name {
            kept
        } else {
            kept.push(s.last())
        }
    }
}

/// `base` with each entry of `added` put in turn: an entry replaces the
/// entries of the same name and goes last.
pub open spec fn put_all<V>(base: Seq<(String, V)>, added: Seq<(String, V)>) -> Seq<(String, V)>
    decreases added.len(),
{
    if added.len() == 0 {
        base
    } else {
        without_name(put_all(base, added.drop_last()), added.last().0@).push(added.last())
    }
}

/// Removes the entries named `name`, then appends `(name, value)`.
fn put_named<V>(v: &mut Vec<(String, V)>, name: String, value: V)
    ensures
        final(v)@ == without_name(old(v)@, name@).push((name, value)),
{
    let ghost orig = v@;
    let ghost mut p: int = 0;
    let mut i: usize = 0;
    proof {
        assert(orig.take(0) =~= Seq::<(String, V)>::empty());
        assert(v@.take(0) =~= Seq::<(String, V)>::empty());
        assert(v@.skip(0) =~= orig.skip(0));
    }
    while i < v.len()
        invariant
            0 <= p <= orig.len(),
            i <= v@.len(),
            v@.take(i as int) == without_name(orig.take(p), name@),
            v@.skip(i as int) == orig.skip(p),
        decreases v@.len() - i,
    {
        proof {
            assert(v@.skip(i as int).len() > 0);
            assert(orig.skip(p).len() > 0);
            assert(p < orig.len());
            assert(v@.skip(i as int)[0] == v@[i as int]);
            assert(orig.skip(p)[0] == orig[p]);
            assert(orig.take(p + 1).drop_last() =~= orig.take(p));
            assert(orig.take(p + 1).last() == orig[p]);
        }
        if str_eq(v[i].0.as_str(), name.as_str()) {
            let ghost before = v@;
            let _ = v.remove(i);
            proof {
                assert(v@.take(i as int) =~= before.take(i as int));
                assert(v@.skip(i as int) =~= before.skip(i + 1));
                assert(before.skip(i + 1) =~= before.skip(i as int).skip(1));
                assert(orig.skip(p + 1) =~= orig.skip(p).skip(1));
                p = p + 1;
            }
        } else {
            proof {
                assert(v@.take(i + 1) =~= v@.take(i as int).push(v@[i as int]));
                assert(v@.skip(i + 1) =~= v@.skip(i as int).skip(1));
                assert(orig.skip(p + 1) =~= orig.skip(p).skip(1));
                p = p + 1;
            }
            i = i + 1;
        }
    }
    proof {
        assert(v@.take(i as int) =~= v@);
        assert(orig.skip(p).len() == 0);
        assert(orig.take(p) =~= orig);
    }
    v.push((name, value));
}

/// Puts each entry of `added` into `base` in turn (see `put_all`).
fn put_each<V>(base: &mut Vec<(String, V)>, added: Vec<(String, V)>)
    ensures
        final(base)@ == put_all(old(base)@, added@),
{
    let ghost all = added@;
    let ghost start = base@;
    let mut rest = added;
    let mut i: usize = 0;
    assert(all.take(0) =~= Seq::<(String, V)>::empty());
    assert(rest@ =~= all.skip(0));
    let n = rest.len();
    assert(all.len() == n);
    while rest.len() > 0
        invariant
            i <= all.len(),
            all.len() <= usize::MAX,
            rest@ == all.skip(i as int),
            base@ == put_all(start, all.take(i as int)),
        decreases rest@.len(),
    {
        let ghost r0 = rest@;
        let (name, value) = rest.remove(0);
        proof {
            assert(r0[0] == all[i as int]);
            assert(all.take(i + 1).drop_last() =~= all.take(i as int));
            assert(all.take(i + 1).last() == all[i as int]);
            assert(rest@ =~= all.skip(i + 1));
        }
        put_named(base, name, value);
        i = i + 1;
    }
    assert(all.take(i as int) =~= all);
}

/// What a scene entry says about an entity besides its placement and
/// sprite: a name, tags, data references and custom components (type name
/// and configuration).
pub struct SceneEntityConfig<C> {
    pub name: Option<String>,
    pub tags: Option<Vec<String>>,
    pub data: Option<Vec<(String, String)>>,
    pub components: Vec<(String, C)>,
}

/// One component table of a prefab, as the host read it: its key, the text
/// under `value` (read by `name`), the texts under `values` (read by
/// `tags`), the text under `type` (read by custom components) and the
/// whole table as configuration.
pub struct PrefabComponent<C> {
    pub key: String,
    pub value: Option<String>,
    pub values: Option<Vec<String>>,
    pub kind: Option<String>,
    pub config: C,
}

/// The keys the engine reads itself; the host reads `transform` and `sprite`.
pub open spec fn builtin_component(key: Seq<char>) -> bool {
    key == "name"@ || key == "tags"@ || key == "transform"@ || key == "sprite"@
}

/// The name a prefab gives: the `value` of its last `name` table.
pub open spec fn prefab_name<C>(entries: Seq<PrefabComponent<C>>) -> Option<String>
    decreases entries.len(),
{
    if entries.len() == 0 {
        None
    } else if entries.last().key@ == "name"@ {
        entries.last().value
    } else {
        prefab_name(entries.drop_last())
    }
}

/// The tags a prefab gives: the `values` of its last `tags` table.
pub open spec fn prefab_tags<C>(entries: Seq<PrefabComponent<C>>) -> Option<Vec<String>>
    decreases entries.len(),
{
    if entries.len() == 0 {
        None
    } else if entries.last().key@ == "tags"@ {
        entries.last().values
    } else {
        prefab_tags(entries.drop_last())
    }
}

/// The custom components of a prefab, in order: each table under another
/// key that names a `type`, with its configuration.
pub open spec fn prefab_custom<C>(entries: Seq<PrefabComponent<C>>) -> Seq<(String, C)>
    decreases entries.len(),
{
    if entries.len() == 0 {
        Seq::empty()
    } else {
        let kept = prefab_custom(entries.drop_last());
        let e = entries.last();
        if !builtin_component(e.key@) && e.kind is Some {
            kept.push((e.kind->0, e.config))
        } else {
            kept
        }
    }
}

/// An entity as assembled from its prefab and scene entry, before it is
/// spawned. Data references and components are kept one per name.
pub struct EntityBlueprint<C> {
    pub name: Option<String>,
    pub tags: Option<Vec<String>>,
    pub data_refs: Vec<(String, String)>,
    pub components: Vec<(String, C)>,
}

/// The text of the error for an entity component nobody registered.
pub open spec fn unregistered_component_message(kind_name: Seq<char>, entity: Option<String>) -> Seq<
    char,
> {
    let shown = match entity {
        Some(n) => n@,
        None => "<unnamed>"@,
    };
    "unknown component type '"@ + kind_name + "' while loading entity '"@ + shown
        + "'; register it with ctx.components().register::<T>(\""@ + kind_name
        + "\") before ctx.load_main_scene()"@
}

/// The cause reported for a data reference that is not a file.
pub open spec fn missing_data_cause() -> Seq<char> {
    "data resource not found"@
}

/// Whether the data reference at `i` passes: its value resolves as a
/// resource and names a file.
pub open spec fn data_ref_ok(
    root: Seq<char>,
    refs: Seq<(String, String)>,
    is_file: Seq<bool>,
    i: int,
) -> bool {
    resolved_under(root, refs[i].1@, VirtualScheme::Resource) is Some && is_file[i]
}

impl<C> EntityBlueprint<C> {
    /// A blueprint from a prefab's name, tags and components (all optional).
    pub fn new(name: Option<String>, tags: Option<Vec<String>>, components: Vec<(String, C)>) -> (b:
        Self)
        ensures
            b.name == name,
            b.tags == tags,
            b.data_refs@.len() == 0,
            b.components@ == put_all(Seq::<(String, C)>::empty(), components@),
    {
        let mut unique: Vec<(String, C)> = Vec::new();
        put_each(&mut unique, components);
        EntityBlueprint { name, tags, data_refs: Vec::new(), components: unique }
    }

    /// The blueprint a prefab describes: its name and tags come from its
    /// `name` and `tags` tables, and every other table that names a `type`
    /// becomes a custom component, in order; `transform` and `sprite` are
    /// the host's to read.
    pub fn from_prefab(components: Vec<PrefabComponent<C>>) -> (b: Self)
        ensures
            b.name == prefab_name(components@),
            b.tags == prefab_tags(components@),
            b.data_refs@.len() == 0,
            b.components@ == prefab_custom(components@),
    {
        let ghost all = components@;
        let mut rest = components;
        let n = rest.len();
        let mut name: Option<String> = None;
        let mut tags: Option<Vec<String>> = None;
        let mut custom: Vec<(String, C)> = Vec::new();
        let mut i: usize = 0;
        assert(all.take(0) =~= Seq::<PrefabComponent<C>>::empty());
        assert(rest@ =~= all.skip(0));
        while rest.len() > 0
            invariant
                i <= all.len(),
                all.len() == n,
                rest@ == all.skip(i as int),
                name == prefab_name(all.take(i as int)),
                tags == prefab_tags(all.take(i as int)),
                custom@ == prefab_custom(all.take(i as int)),
            decreases rest@.len(),
        {
            let ghost r0 = rest@;
            let entry = rest.remove(0);
            proof {
                assert(r0[0] == all[i as int]);
                assert(all.take(i + 1).drop_last() =~= all.take(i as int));
                assert(all.take(i + 1).last() == all[i as int]);
                assert(rest@ =~= all.skip(i + 1));
            }
            let PrefabComponent { key, value, values, kind, config } = entry;
            let k = key.as_str();
            proof {
                reveal_strlit("name");
                reveal_strlit("tags");
                reveal_strlit("transform");
                reveal_strlit("sprite");
                assert("name"@[0] != "tags"@[0]);
                assert("name"@ != "tags"@);
            }
            if str_eq(k, "name") {
                name = value;
            } else if str_eq(k, "tags") {
                tags = values;
            } else if str_eq(k, "transform") || str_eq(k, "sprite") {
            } else {
                match kind {
                    Some(kind_name) => custom.push((kind_name, config)),
                    None => {},
                }
            }
            i = i + 1;
        }
        assert(all.take(i as int) =~= all);
        EntityBlueprint { name, tags, data_refs: Vec::new(), components: custom }
    }

    /// Applies a scene entry on top of the prefab: a given name or tag list
    /// replaces the prefab's, data references and components are added,
    /// replacing those of the same name.
    pub fn apply_scene(&mut self, scene: SceneEntityConfig<C>)
        ensures
            final(self).name == match scene.name {
                Some(n) => Some(n),
                None => old(self).name,
            },
            final(self).tags == match scene.tags {
                Some(t) => Some(t),
                None => old(self).tags,
            },
            final(self).data_refs@ == match scene.data {
                Some(d) => put_all(old(self).data_refs@, d@),
                None => old(self).data_refs@,
            },
            final(self).components@ == put_all(old(self).components@, scene.components@),
    {
        let SceneEntityConfig { name, tags, data, components } = scene;
        if let Some(n) = name {
            self.name = Some(n);
        }
        if let Some(t) = tags {
            self.tags = Some(t);
        }
        if let Some(d) = data {
            put_each(&mut self.data_refs, d);
        }
        put_each(&mut self.components, components);
    }

    /// Checks that every component type is registered; the first that is
    /// not is reported with the entity's name.
    pub fn validate_custom_components<F>(&self, registry: &ComponentRegistry<F>) -> (r: GameResult<
        (),
    >)
        ensures
            r is Ok <==> forall|i: int|
                0 <= i < self.components@.len() ==> #[trigger] registry.lookup(
                    self.components@[i].0@,
                ) is Some,
            r matches Err(e) ==> exists|i: int|
                0 <= i < self.components@.len() && registry.lookup(
                    #[trigger] self.components@[i].0@,
                ) is None && (forall|j: int|
                    0 <= j < i ==> registry.lookup(#[trigger] self.components@[j].0@) is Some)
                    && (e matches GameError::Message(m) && m@ == unregistered_component_message(
                    self.components@[i].0@,
                    self.name,
                )),
    {
        let mut i: usize = 0;
        while i < self.components.len()
            invariant
                i <= self.components@.len(),
                forall|j: int|
                    0 <= j < i ==> registry.lookup(#[trigger] self.components@[j].0@) is Some,
            decreases self.components@.len() - i,
        {
            let kind_name = self.components[i].0.as_str();
            if !registry.contains(kind_name) {
                let mut m = owned("unknown component type '");
                append_str(&mut m, kind_name);
                append_str(&mut m, "' while loading entity '");
                match &self.name {
                    Some(n) => append_str(&mut m, n.as_str()),
                    None => append_str(&mut m, "<unnamed>"),
                }
                append_str(&mut m, "'; register it with ctx.components().register::<T>(\"");
                append_str(&mut m, kind_name);
                append_str(&mut m, "\") before ctx.load_main_scene()");
                return Err(GameError::Message(m));
            }
            i = i + 1;
        }
        Ok(())
    }

    /// Checks the data references in order: each value must resolve as a
    /// `res://` resource, and the resolved path must be a file
    /// (`is_file[i]`, reported by the host for the `i`-th reference). The
    /// first that fails is reported.
    pub fn validate_data_refs(&self, paths: &ProjectPaths, is_file: &Vec<bool>) -> (r: GameResult<()>)
        requires
            is_file@.len() == self.data_refs@.len(),
        ensures
            r is Ok <==> forall|i: int|
                0 <= i < self.data_refs@.len() ==> #[trigger] data_ref_ok(
                    paths.resource_root@,
                    self.data_refs@,
                    is_file@,
                    i,
                ),
            r matches Err(e) ==> exists|i: int|
                0 <= i < self.data_refs@.len() && !#[trigger] data_ref_ok(
                    paths.resource_root@,
                    self.data_refs@,
                    is_file@,
                    i,
                ) && (forall|j: int|
                    0 <= j < i ==> data_ref_ok(
                        paths.resource_root@,
                        self.data_refs@,
                        is_file@,
                        j,
                    )) && (match resolved_under(
                    paths.resource_root@,
                    self.data_refs@[i].1@,
                    VirtualScheme::Resource,
                ) {
                    None => e matches GameError::Path(p) && rejects_as(
                        self.data_refs@[i].1@,
                        VirtualScheme::Resource,
                        p,
                    ),
                    Some(resolved) => e matches GameError::Diagnostic(d) && d.kind
                        == PathDiagnosticKind::Resource && d.requested@ == self.data_refs@[i].1@
                        && d.resolved@ == resolved && d.root@ == paths.resource_root@ && d.cause@
                        == missing_data_cause(),
                }),
    {
        let mut i: usize = 0;
        while i < self.data_refs.len()
            invariant
                i <= self.data_refs@.len(),
                is_file@.len() == self.data_refs@.len(),
                forall|j: int|
                    0 <= j < i ==> #[trigger] data_ref_ok(
                        paths.resource_root@,
                        self.data_refs@,
                        is_file@,
                        j,
                    ),
            decreases self.data_refs@.len() - i,
        {
            let value = self.data_refs[i].1.as_str();
            let resolved = match paths.resolve_resource(value) {
                Ok(p) => p,
                Err(e) => {
                    assert(!data_ref_ok(paths.resource_root@, self.data_refs@, is_file@, i as int));
                    return Err(GameError::Path(e));
                },
            };
            if !is_file[i] {
                assert(!data_ref_ok(paths.resource_root@, self.data_refs@, is_file@, i as int));
                return Err(
                    GameError::Diagnostic(
                        PathDiagnosticError::resource(
                            owned(value),
                            resolved,
                            paths.resource_root.as_str(),
                            owned("data resource not found"),
                        ),
                    ),
                );
            }
            i = i + 1;
        }
        Ok(())
    }

    /// The record to spawn (with the host's `payload`) and the components to
    /// instantiate for it: missing tags are no tags, and the record lists
    /// the component type names in order.
    pub fn into_parts<P>(self, payload: P) -> (r: (EntityRecord<P>, Vec<(String, C)>))
        ensures
            r.0.name == self.name,
            r.0.tags@ == match self.tags {
                Some(t) => t@,
                None => Seq::<String>::empty(),
            },
            r.0.data_refs@ == self.data_refs@,
            texts_of(r.0.custom_components@) == self.components@.map_values(
                |e: (String, C)| e.0@,
            ),
            r.0.payload == payload,
            r.1@ == self.components@,
    {
        let EntityBlueprint { name, tags, data_refs, components } = self;
        let mut names: Vec<String> = Vec::new();
        let mut i: usize = 0;
        while i < components.len()
            invariant
                i <= components@.len(),
                texts_of(names@) == components@.take(i as int).map_values(
                    |e: (String, C)| e.0@,
                ),
            decreases components@.len() - i,
        {
            let ghost before = names@;
            names.push(copy_string(&components[i].0));
            proof {
                assert(components@.take(i + 1) =~= components@.take(i as int).push(
                    components@[i as int],
                ));
                assert(texts_of(names@) =~= texts_of(before).push(components@[i as int].0@));
                assert(components@.take(i + 1).map_values(|e: (String, C)| e.0@)
                    =~= components@.take(i as int).map_values(|e: (String, C)| e.0@).push(
                    components@[i as int].0@,
                ));
            }
            i = i + 1;
        }
        assert(components@.take(i as int) =~= components@);
        let tags = match tags {
            Some(t) => t,
            None => Vec::new(),
        };
        (
            EntityRecord { name, tags, data_refs, custom_components: names, payload },
            components,
        )
    }
}

/// Whether the project's main scene still has to be loaded. Loading it is
/// idempotent: once a load has succeeded, it is not loaded again, and a
/// project without a main scene has nothing to load.
pub struct MainSceneState {
    main_scene: Option<String>,
    loaded: bool,
}

impl MainSceneState {
    pub closed spec fn spec_main_scene(&self) -> Option<Seq<char>> {
        match self.main_scene {
            Some(s) => Some(s@),
            None => None,
        }
    }

    pub closed spec fn spec_loaded(&self) -> bool {
        self.loaded
    }

    /// The scene still to be loaded, if any.
    pub open spec fn spec_pending(&self) -> Option<Seq<char>> {
        if self.spec_loaded() {
            None
        } else {
            self.spec_main_scene()
        }
    }

    /// Nothing loaded yet, for the project's main scene (if it has one).
    pub fn new(main_scene: Option<String>) -> (s: Self)
        ensures
            s.spec_main_scene() == match main_scene {
                Some(m) => Some(m@),
                None => None::<Seq<char>>,
            },
            !s.spec_loaded(),
    {
        MainSceneState { main_scene, loaded: false }
    }

    /// The scene a call to load the main scene has to load: `None` once a
    /// load has succeeded, or when there is no main scene.
    pub fn pending(&self) -> (r: Option<String>)
        ensures
            match r {
                Some(m) => self.spec_pending() == Some(m@),
                None => self.spec_pending() is None,
            },
    {
        if self.loaded {
            return None;
        }
        match &self.main_scene {
            Some(m) => Some(owned(m.as_str())),
            None => None,
        }
    }

    /// Records that the main scene was loaded.
    pub fn mark_loaded(&mut self)
        ensures
            final(self).spec_main_scene() == old(self).spec_main_scene(),
            final(self).spec_loaded(),
            final(self).spec_pending() is None,
    {
        self.loaded = true;
    }
}

} // verus!
