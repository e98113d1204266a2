//! The entity world: engine-owned entities with names, tags, data references
//! and custom component names, plus a host payload (placement and sprite)
//! carried for each entity.
use vstd::prelude::*;
use crate::engine::{lemma_entity_id_view_injective, EntityId};
use crate::actions::last_index_named;
use crate::text::str_eq;

verus! {

broadcast use lemma_entity_id_view_injective;

/// What the world keeps for one entity. `payload` is the host's data for it
/// (its transform and sprite).
#[derive(Debug, Clone)]
pub struct EntityRecord<P> {
    pub name: Option<String>,
    pub tags: Vec<String>,
    pub data_refs: Vec<(String, String)>,
    pub custom_components: Vec<String>,
    pub payload: P,
}

/// An entity about to be spawned (from a scene, or as a plain sprite).
pub type SceneEntityRuntime<P> = EntityRecord<P>;

/// The name of an optional name.
pub open spec fn name_view(name: Option<String>) -> Option<Seq<char>> {
    match name {
        Some(n) => Some(n@),
        None => None,
    }
}

/// The texts of a list of strings.
pub open spec fn texts_of(v: Seq<String>) -> Seq<Seq<char>> {
    v.map_values(|s: String| s@)
}

/// Whether `tags` holds `tag`.
pub open spec fn has_tag<P>(record: EntityRecord<P>, tag: Seq<char>) -> bool {
    texts_of(record.tags@).contains(tag)
}

/// The value recorded for `key` in a record's data references: the last entry
/// under that key.
pub open spec fn data_value<P>(record: EntityRecord<P>, key: Seq<char>) -> Option<Seq<char>> {
    let keys = record.data_refs@.map_values(|e: (String, String)| e.0@);
    let i = last_index_named(keys, key);
    if i >= 0 {
        Some(record.data_refs@[i].1@)
    } else {
        None
    }
}

/// The ids, in spawn order, of the entities of `entries` that satisfy `keep`.
pub open spec fn ids_where<P>(
    entries: Seq<(EntityId, EntityRecord<P>)>,
    keep: spec_fn(EntityRecord<P>) -> bool,
) -> Seq<u64>
    decreases entries.len(),
{
    if entries.len() == 0 {
        Seq::empty()
    } else {
        let rest = ids_where(entries.drop_last(), keep);
        if keep(entries.last().1) {
            rest.push(entries.last().0@)
        } else {
            rest
        }
    }
}

/// The strictly increasing sequences.
pub open spec fn strictly_increasing(s: Seq<u64>) -> bool {
    forall|i: int, j: int| 0 <= i < j < s.len() ==> s[i] < s[j]
}

/// All entities, in spawn order, with the id each was given.
#[derive(Debug, Clone)]
pub struct World<P> {
    next_entity: u64,
    entities: Vec<(EntityId, EntityRecord<P>)>,
}

proof fn lemma_ids_where_bounded<P>(
    entries: Seq<(EntityId, EntityRecord<P>)>,
    keep: spec_fn(EntityRecord<P>) -> bool,
    bound: u64,
)
    requires
        forall|i: int| 0 <= i < entries.len() ==> (#[trigger] entries[i]).0@ < bound,
        forall|i: int, j: int| 0 <= i < j < entries.len() ==> entries[i].0@ < entries[j].0@,
    ensures
        strictly_increasing(ids_where(entries, keep)),
        forall|i: int| 0 <= i < ids_where(entries, keep).len() ==> #[trigger] ids_where(entries, keep)[i] < bound,
        forall|x: u64| ids_where(entries, keep).contains(x) <==> exists|i: int|
            0 <= i < entries.len() && (#[trigger] entries[i]).0@ == x && keep(entries[i].1),
    decreases entries.len(),
{
    if entries.len() > 0 {
        let last = entries.last();
        let init = entries.drop_last();
        lemma_ids_where_bounded(init, keep, last.0@);
        lemma_ids_where_bounded(init, keep, bound);
        let rest = ids_where(init, keep);
        assert forall|x: u64| ids_where(entries, keep).contains(x) <==> exists|i: int|
            0 <= i < entries.len() && (#[trigger] entries[i]).0@ == x && keep(entries[i].1) by {
            if ids_where(entries, keep).contains(x) {
                if keep(last.1) && x == last.0@ {
                    assert(entries[entries.len() - 1].0@ == x);
                } else {
                    if keep(last.1) {
                        let k = choose|k: int| 0 <= k < rest.push(last.0@).len() && rest.push(last.0@)[k] == x;
                        assert(rest[k] == x);
                    }
                    assert(rest.contains(x));
                    let i = choose|i: int| 0 <= i < init.len() && (#[trigger] init[i]).0@ == x && keep(init[i].1);
                    assert(entries[i] == init[i]);
                }
            }
            if exists|i: int| 0 <= i < entries.len() && (#[trigger] entries[i]).0@ == x && keep(entries[i].1) {
                let i = choose|i: int| 0 <= i < entries.len() && (#[trigger] entries[i]).0@ == x && keep(entries[i].1);
                if i == entries.len() - 1 {
                    assert(ids_where(entries, keep)[ids_where(entries, keep).len() - 1] == x);
                } else {
                    assert(init[i] == entries[i]);
                    assert(rest.contains(x));
                    let k = choose|k: int| 0 <= k < rest.len() && rest[k] == x;
                    if keep(last.1) {
                        assert(rest.push(last.0@)[k] == x);
                    }
                }
            }
        }
    }
}

impl<P> World<P> {
    /// The entities, in spawn order.
    pub closed spec fn entries(&self) -> Seq<(EntityId, EntityRecord<P>)> {
        self.entities@
    }

    /// The id the next spawned entity receives.
    pub closed spec fn next_id(&self) -> u64 {
        self.next_entity
    }

    /// Ids increase in spawn order and stay below the next id, which is positive.
    pub open spec fn wf(&self) -> bool {
        &&& self.next_id() >= 1
        &&& forall|i: int|
            0 <= i < self.entries().len() ==> 1 <= (#[trigger] self.entries()[i]).0@ < self.next_id()
        &&& forall|i: int, j: int|
            0 <= i < j < self.entries().len() ==> self.entries()[i].0@ < self.entries()[j].0@
    }

    /// The position of `entity` in spawn order, or `-1`.
    pub open spec fn position_of(&self, entity: EntityId) -> int {
        if exists|i: int| 0 <= i < self.entries().len() && self.entries()[i].0 == entity {
            choose|i: int| 0 <= i < self.entries().len() && self.entries()[i].0 == entity
        } else {
            -1
        }
    }

    /// The record of `entity`, if it exists.
    pub open spec fn record_of(&self, entity: EntityId) -> Option<EntityRecord<P>> {
        let i = self.position_of(entity);
        if i >= 0 {
            Some(self.entries()[i].1)
        } else {
            None
        }
    }

    /// Whether `entity` exists and is tagged `tag`.
    pub open spec fn tagged(&self, entity: EntityId, tag: Seq<char>) -> bool {
        self.record_of(entity) matches Some(rec) && has_tag(rec, tag)
    }

    /// Whether `first` is what `first_with_tag(tag)` answers: the smallest id
    /// tagged `tag`, or `None` when no entity has the tag.
    pub open spec fn is_first_tagged(&self, first: Option<EntityId>, tag: Seq<char>) -> bool {
        match first {
            Some(e) => self.tagged(e, tag) && forall|other: EntityId|
                #[trigger] self.tagged(other, tag) ==> e@ <= other@,
            None => forall|other: EntityId| !#[trigger] self.tagged(other, tag),
        }
    }

    /// Whether `entity` exists and is named `name`.
    pub open spec fn named(&self, entity: EntityId, name: Seq<char>) -> bool {
        self.record_of(entity) matches Some(rec) && name_view(rec.name) == Some(name)
    }

    /// An empty world whose first entity gets id 1.
    pub fn new() -> (w: Self)
        ensures
            w.wf(),
            w.entries().len() == 0,
            w.next_id() == 1,
    {
        World { next_entity: 1, entities: Vec::new() }
    }

    /// The id the next spawned entity receives.
    pub fn next_entity_id(&self) -> (id: u64)
        ensures
            id == self.next_id(),
    {
        self.next_entity
    }

    /// Adds an entity and returns its id: the next id, which then advances.
    pub fn spawn_scene_entity(&mut self, runtime: SceneEntityRuntime<P>) -> (entity: EntityId)
        requires
            old(self).wf(),
            old(self).next_id() < u64::MAX,
        ensures
            final(self).wf(),
            entity@ == old(self).next_id(),
            final(self).next_id() == old(self).next_id() + 1,
            final(self).entries() == old(self).entries().push((entity, runtime)),
    {
        let ghost before = self.entities@;
        let entity = EntityId::new(self.next_entity);
        self.next_entity = self.next_entity + 1;
        self.entities.push((entity, runtime));
        proof {
            assert forall|i: int|
                0 <= i < self.entries().len() implies 1 <= (#[trigger] self.entries()[i]).0@
                < self.next_id() by {
                if i < before.len() {
                    assert(self.entries()[i] == old(self).entries()[i]);
                }
            }
            assert forall|i: int, j: int|
                0 <= i < j < self.entries().len() implies self.entries()[i].0@
                < self.entries()[j].0@ by {
                assert(self.entries()[i] == old(self).entries()[i]);
                if j < before.len() {
                    assert(self.entries()[j] == old(self).entries()[j]);
                }
            }
        }
        entity
    }

    fn index_of(&self, entity: EntityId) -> (r: Option<usize>)
        requires
            self.wf(),
        ensures
            match r {
                Some(i) => i < self.entries().len() && self.position_of(entity) == i
                    && self.entries()[i as int].0 == entity,
                None => self.position_of(entity) == -1,
            },
    {
        let mut i: usize = 0;
        while i < self.entities.len()
            invariant
                self.wf(),
                i <= self.entities@.len(),
                forall|j: int| 0 <= j < i ==> self.entities@[j].0 != entity,
            decreases self.entities.len() - i,
        {
            if self.entities[i].0.raw() == entity.raw() {
                proof {
                    assert(self.entries()[i as int].0 == entity);
                    let k = choose|k: int| 0 <= k < self.entries().len() && self.entries()[k].0 == entity;
                    if k != i {
                        if k < i {
                            assert(self.entries()[k].0@ < self.entries()[i as int].0@);
                        } else {
                            assert(self.entries()[i as int].0@ < self.entries()[k].0@);
                        }
                    }
                }
                return Some(i);
            }
            i = i + 1;
        }
        None
    }

    /// The ids of the entities tagged `tag`, in increasing order.
    pub fn entities_with_tag(&self, tag: &str) -> (r: Vec<EntityId>)
        requires
            self.wf(),
        ensures
            r@.map_values(|e: EntityId| e@) == ids_where(
                self.entries(),
                |rec: EntityRecord<P>| has_tag(rec, tag@),
            ),
            strictly_increasing(r@.map_values(|e: EntityId| e@)),
            forall|e: EntityId|
                r@.contains(e) <==> #[trigger] self.tagged(e, tag@),
    {
        let ghost keep = |rec: EntityRecord<P>| has_tag(rec, tag@);
        let mut r: Vec<EntityId> = Vec::new();
        let mut i: usize = 0;
        while i < self.entities.len()
            invariant
                i <= self.entities@.len(),
                keep == (|rec: EntityRecord<P>| has_tag(rec, tag@)),
                r@.map_values(|e: EntityId| e@) == ids_where(self.entities@.take(i as int), keep),
            decreases self.entities.len() - i,
        {
            proof {
                assert(self.entities@.take(i + 1).drop_last() =~= self.entities@.take(i as int));
                assert(self.entities@.take(i + 1).last() == self.entities@[i as int]);
            }
            let tagged = tags_contain(&self.entities[i].1.tags, tag);
            if tagged {
                let ghost before = r@;
                r.push(self.entities[i].0);
                assert(r@.map_values(|e: EntityId| e@) =~= before.map_values(|e: EntityId| e@).push(
                    self.entities@[i as int].0@,
                ));
            }
            i = i + 1;
        }
        proof {
            assert(self.entities@.take(self.entities@.len() as int) =~= self.entities@);
            lemma_ids_where_bounded(self.entries(), keep, self.next_id());
            let ids = r@.map_values(|e: EntityId| e@);
            assert forall|e: EntityId|
                r@.contains(e) <==> self.tagged(e, tag@) by {
                if r@.contains(e) {
                    let k = choose|k: int| 0 <= k < r@.len() && r@[k] == e;
                    assert(ids[k] == e@);
                    assert(ids.contains(e@));
                    let i = choose|i: int|
                        0 <= i < self.entries().len() && (#[trigger] self.entries()[i]).0@ == e@
                            && keep(self.entries()[i].1);
                    self.lemma_position_unique(i);
                }
                if self.record_of(e) matches Some(rec) && has_tag(rec, tag@) {
                    let i = self.position_of(e);
                    assert(self.entries()[i].0@ == e@);
                    assert(ids.contains(e@));
                    let k = choose|k: int| 0 <= k < ids.len() && ids[k] == e@;
                    assert(r@[k]@ == e@);
                    assert(r@[k] == e);
                }
            }
        }
        r
    }

    proof fn lemma_position_unique(&self, i: int)
        requires
            self.wf(),
            0 <= i < self.entries().len(),
        ensures
            self.position_of(self.entries()[i].0) == i,
    {
        let e = self.entries()[i].0;
        let k = choose|k: int| 0 <= k < self.entries().len() && self.entries()[k].0 == e;
        if k != i {
            if k < i {
                assert(self.entries()[k].0@ < self.entries()[i].0@);
            } else {
                assert(self.entries()[i].0@ < self.entries()[k].0@);
            }
        }
    }

    /// The smallest id tagged `tag`.
    pub fn first_with_tag(&self, tag: &str) -> (r: Option<EntityId>)
        requires
            self.wf(),
        ensures
            match r {
                Some(e) => self.tagged(e, tag@) && forall|
                    other: EntityId,
                |
                    #[trigger] self.tagged(other, tag@) ==> e@
                        <= other@,
                None => forall|other: EntityId|
                    !#[trigger] self.tagged(other, tag@),
            },
    {
        let all = self.entities_with_tag(tag);
        if all.len() == 0 {
            assert forall|other: EntityId|
                !#[trigger] self.tagged(other, tag@) by {
                if self.record_of(other) matches Some(rec) && has_tag(rec, tag@) {
                    assert(!all@.contains(other));
                }
            }
            None
        } else {
            let first = all[0];
            proof {
                assert(all@.contains(first));
                let ids = all@.map_values(|e: EntityId| e@);
                assert forall|other: EntityId|
                    #[trigger] self.tagged(other, tag@) implies first@
                    <= other@ by {
                    assert(all@.contains(other));
                    let k = choose|k: int| 0 <= k < all@.len() && all@[k] == other;
                    if k > 0 {
                        assert(ids[0] < ids[k]);
                    }
                }
            }
            Some(first)
        }
    }

    /// The first entity tagged `interactable`.
    pub fn first_interactable(&self) -> (r: Option<EntityId>)
        requires
            self.wf(),
        ensures
            match r {
                Some(e) => self.tagged(e, "interactable"@)
                    && forall|other: EntityId|
                    #[trigger] self.tagged(other, "interactable"@)
                        ==> e@ <= other@,
                None => forall|other: EntityId|
                    !#[trigger] self.tagged(other, "interactable"@),
            },
    {
        self.first_with_tag("interactable")
    }

    /// An entity named `name`: the earliest spawned one.
    pub fn entity_by_name(&self, name: &str) -> (r: Option<EntityId>)
        requires
            self.wf(),
        ensures
            match r {
                Some(e) => self.named(e, name@),
                None => forall|other: EntityId| !#[trigger] self.named(other, name@),
            },
    {
        let mut i: usize = 0;
        while i < self.entities.len()
            invariant
                self.wf(),
                i <= self.entities@.len(),
                forall|j: int|
                    0 <= j < i ==> name_view(#[trigger] self.entities@[j].1.name) != Some(name@),
            decreases self.entities.len() - i,
        {
            let matches = match &self.entities[i].1.name {
                Some(n) => str_eq(n.as_str(), name),
                None => false,
            };
            if matches {
                proof {
                    self.lemma_position_unique(i as int);
                }
                return Some(self.entities[i].0);
            }
            i = i + 1;
        }
        proof {
            assert forall|other: EntityId| !#[trigger] self.named(other, name@) by {
                let p = self.position_of(other);
                if p >= 0 {
                    assert(name_view(self.entities@[p].1.name) != Some(name@));
                }
            }
        }
        None
    }

    /// The tags of `entity`.
    pub fn tags(&self, entity: EntityId) -> (r: Option<&[String]>)
        requires
            self.wf(),
        ensures
            match (r, self.record_of(entity)) {
                (Some(t), Some(rec)) => t@ == rec.tags@,
                (None, None) => true,
                _ => false,
            },
    {
        match self.index_of(entity) {
            Some(i) => Some(self.entities[i].1.tags.as_slice()),
            None => None,
        }
    }

    /// The name of `entity`, if it exists and has one.
    pub fn name(&self, entity: EntityId) -> (r: Option<&str>)
        requires
            self.wf(),
        ensures
            match self.record_of(entity) {
                Some(rec) => match (r, rec.name) {
                    (Some(s), Some(n)) => s@ == n@,
                    (None, None) => true,
                    _ => false,
                },
                None => r is None,
            },
    {
        match self.index_of(entity) {
            Some(i) => match &self.entities[i].1.name {
                Some(n) => Some(n.as_str()),
                None => None,
            },
            None => None,
        }
    }

    /// The data reference `key` of `entity`.
    pub fn data_ref(&self, entity: EntityId, key: &str) -> (r: Option<&str>)
        requires
            self.wf(),
        ensures
            match self.record_of(entity) {
                Some(rec) => match (r, data_value(rec, key@)) {
                    (Some(s), Some(v)) => s@ == v,
                    (None, None) => true,
                    _ => false,
                },
                None => r is None,
            },
    {
        match self.index_of(entity) {
            Some(i) => {
                let refs = &self.entities[i].1.data_refs;
                let ghost keys = refs@.map_values(|e: (String, String)| e.0@);
                let mut j: usize = refs.len();
                assert(keys.take(j as int) =~= keys);
                while j > 0
                    invariant
                        j <= refs@.len(),
                        i < self.entities@.len(),
                        self.position_of(entity) == i as int,
                        *refs == self.entities@[i as int].1.data_refs,
                        keys == refs@.map_values(|e: (String, String)| e.0@),
                        last_index_named(keys, key@) == last_index_named(keys.take(j as int), key@),
                    decreases j,
                {
                    proof {
                        assert(keys.take(j as int).drop_last() =~= keys.take(j - 1));
                        assert(keys.take(j as int).last() == refs@[j - 1].0@);
                    }
                    if str_eq(refs[j - 1].0.as_str(), key) {
                        return Some(refs[j - 1].1.as_str());
                    }
                    j = j - 1;
                }
                None
            },
            None => None,
        }
    }

    /// Whether `entity` carries a custom component named `component_name`.
    pub fn has_custom_component(&self, entity: EntityId, component_name: &str) -> (r: bool)
        requires
            self.wf(),
        ensures
            r == (self.record_of(entity) matches Some(rec) && texts_of(
                rec.custom_components@,
            ).contains(component_name@)),
    {
        match self.index_of(entity) {
            Some(i) => tags_contain(&self.entities[i].1.custom_components, component_name),
            None => false,
        }
    }

    /// The host payload of `entity`.
    pub fn payload(&self, entity: EntityId) -> (r: Option<&P>)
        requires
            self.wf(),
        ensures
            match (r, self.record_of(entity)) {
                (Some(p), Some(rec)) => *p == rec.payload,
                (None, None) => true,
                _ => false,
            },
    {
        match self.index_of(entity) {
            Some(i) => Some(&self.entities[i].1.payload),
            None => None,
        }
    }

    /// Replaces the host payload of `entity`; `false` (and no change) when
    /// there is no such entity. Nothing else changes.
    pub fn set_payload(&mut self, entity: EntityId, payload: P) -> (found: bool)
        requires
            old(self).wf(),
        ensures
            final(self).wf(),
            final(self).next_id() == old(self).next_id(),
            found == (old(self).position_of(entity) >= 0),
            !found ==> final(self).entries() == old(self).entries(),
            found ==> {
                let i = old(self).position_of(entity);
                final(self).entries() == old(self).entries().update(
                    i,
                    (entity, EntityRecord { payload, ..old(self).entries()[i].1 }),
                )
            },
    {
        match self.index_of(entity) {
            Some(i) => {
                let ghost before = self.entities@;
                let (id, record) = self.entities.remove(i);
                let updated = EntityRecord { payload, ..record };
                self.entities.insert(i, (id, updated));
                assert(self.entities@ =~= before.update(i as int, (entity, updated)));
                true
            },
            None => false,
        }
    }

    /// The ids of all entities, in spawn order.
    pub fn entity_ids(&self) -> (r: Vec<EntityId>)
        ensures
            r@ == self.entries().map_values(|e: (EntityId, EntityRecord<P>)| e.0),
    {
        let mut r: Vec<EntityId> = Vec::new();
        let mut i: usize = 0;
        while i < self.entities.len()
            invariant
                i <= self.entities@.len(),
                r@ == self.entities@.take(i as int).map_values(|e: (EntityId, EntityRecord<P>)| e.0),
            decreases self.entities.len() - i,
        {
            r.push(self.entities[i].0);
            i = i + 1;
            assert(r@ =~= self.entities@.take(i as int).map_values(
                |e: (EntityId, EntityRecord<P>)| e.0,
            ));
        }
        assert(self.entities@.take(self.entities@.len() as int) =~= self.entities@);
        r
    }
}

/// Whether `tags` holds `tag`.
pub fn tags_contain(tags: &Vec<String>, tag: &str) -> (r: bool)
    ensures
        r == texts_of(tags@).contains(tag@),
{
    let mut i: usize = 0;
    while i < tags.len()
        invariant
            i <= tags@.len(),
            forall|j: int| 0 <= j < i ==> tags@[j]@ != tag@,
        decreases tags.len() - i,
    {
        if str_eq(tags[i].as_str(), tag) {
            assert(texts_of(tags@)[i as int] == tag@);
            return true;
        }
        i = i + 1;
    }
    proof {
        if texts_of(tags@).contains(tag@) {
            let k = choose|k: int| 0 <= k < texts_of(tags@).len() && texts_of(tags@)[k] == tag@;
            assert(tags@[k]@ == tag@);
        }
    }
    false
}

} // verus!
