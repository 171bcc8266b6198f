//! The two-way map between the editor's stable string ids and live entity
//! ids, and the decisions of a scene sync: which document entries spawn,
//! respawn or patch an entity, which parent links to wire, and which mapped
//! ids the document no longer has.
use vstd::prelude::*;
use std::collections::HashMap;

use crate::text::{contains_text, text_eq, texts};

verus! {

broadcast use vstd::std_specs::hash::group_hash_axioms;

/// One entry of the editor's scene document, as far as the sync reads it.
#[derive(Clone, Debug)]
pub struct SceneEntry {
    pub id: String,
    pub kind: String,
    pub parent_id: Option<String>,
}

/// `kind` starts with `light:`.
pub open spec fn is_light_kind(kind: Seq<char>) -> bool {
    kind.len() >= 6 && kind.subrange(0, 6) == "light:"@
}

/// The kind starts with `light:`.
pub fn light_kind(kind: &str) -> (r: bool)
    ensures
        r == is_light_kind(kind@),
{
    let n = kind.unicode_len();
    if n < 6 {
        return false;
    }
    let prefix = kind.substring_char(0, 6);
    text_eq(prefix, "light:")
}

/// The entry lives in the world's id map: cameras belong to the viewport and
/// the ambient light to a global resource.
pub open spec fn is_world_entity(kind: Seq<char>) -> bool {
    kind != "camera"@ && kind != "light:ambient"@
}

/// What the sync does with one document entry.
#[derive(Clone, Copy, Debug, PartialEq, Eq)]
pub enum SyncStep {
    /// A camera: owned by the viewport, left alone.
    Skip,
    /// The ambient light: applied to the global ambient resource.
    ApplyAmbient,
    /// A new id: spawn an entity and map it.
    Spawn,
    /// A known light: despawn the old entity, spawn a new one, remap the id.
    Respawn { old: u64 },
    /// A known entity of another kind: patch it in place.
    Update { entity: u64 },
}

/// The step for an entry given the ids mapped so far.
pub open spec fn sync_step_of(fwd: Map<Seq<char>, u64>, id: Seq<char>, kind: Seq<char>) -> SyncStep {
    if kind == "camera"@ {
        SyncStep::Skip
    } else if kind == "light:ambient"@ {
        SyncStep::ApplyAmbient
    } else if fwd.contains_key(id) {
        if is_light_kind(kind) {
            SyncStep::Respawn { old: fwd[id] }
        } else {
            SyncStep::Update { entity: fwd[id] }
        }
    } else {
        SyncStep::Spawn
    }
}

/// The ids of the entries that live in the world, in document order.
pub open spec fn world_ids(entries: Seq<SceneEntry>) -> Seq<Seq<char>>
    decreases entries.len(),
{
    if entries.len() == 0 {
        Seq::empty()
    } else {
        let rest = world_ids(entries.drop_last());
        if is_world_entity(entries.last().kind@) {
            rest.push(entries.last().id@)
        } else {
            rest
        }
    }
}

/// The ids of the entries that live in the world (the ids a sync keeps).
pub fn seen_ids(entries: &Vec<SceneEntry>) -> (r: Vec<String>)
    ensures
        texts(r@) == world_ids(entries@),
{
    let mut out: Vec<String> = Vec::new();
    let mut i: usize = 0;
    while i < entries.len()
        invariant
            i <= entries.len(),
            texts(out@) == world_ids(entries@.take(i as int)),
        decreases entries.len() - i,
    {
        let e = &entries[i];
        proof {
            assert(entries@.take(i + 1).drop_last() =~= entries@.take(i as int));
            assert(entries@.take(i + 1).last() == *e);
        }
        if !text_eq(e.kind.as_str(), "camera") && !text_eq(e.kind.as_str(), "light:ambient") {
            out.push(e.id.clone());
            assert(texts(out@) =~= world_ids(entries@.take(i + 1)));
        } else {
            assert(texts(out@) =~= world_ids(entries@.take(i + 1)));
        }
        i = i + 1;
    }
    assert(entries@.take(entries@.len() as int) =~= entries@);
    out
}

/// The (child, parent) entity pairs to wire for the entries, in document
/// order: every entry with a parent id where both ids are mapped.
pub open spec fn parent_links_of(fwd: Map<Seq<char>, u64>, entries: Seq<SceneEntry>) -> Seq<(u64, u64)>
    decreases entries.len(),
{
    if entries.len() == 0 {
        Seq::empty()
    } else {
        let rest = parent_links_of(fwd, entries.drop_last());
        let e = entries.last();
        match e.parent_id {
            Some(p) => if fwd.contains_key(e.id@) && fwd.contains_key(p@) {
                rest.push((fwd[e.id@], fwd[p@]))
            } else {
                rest
            },
            None => rest,
        }
    }
}

/// The mapped entities of the entries that have no parent id: a sync detaches
/// them from any parent they had, so moving an entity back to the root is
/// applied like any re-parenting.
pub open spec fn root_entities_of(fwd: Map<Seq<char>, u64>, entries: Seq<SceneEntry>) -> Seq<u64>
    decreases entries.len(),
{
    if entries.len() == 0 {
        Seq::empty()
    } else {
        let rest = root_entities_of(fwd, entries.drop_last());
        let e = entries.last();
        if e.parent_id is None && fwd.contains_key(e.id@) {
            rest.push(fwd[e.id@])
        } else {
            rest
        }
    }
}

/// The ids of `seen` as a set.
pub open spec fn seen_set(seen: Seq<String>) -> Set<Seq<char>> {
    Set::new(|k: Seq<char>| texts(seen).contains(k))
}

/// The mapping a resolve walk reads: a live entity's editor id, else its
/// parent link (`None` ends the walk); `steps` more parent links may be followed.
pub open spec fn resolve_walk(
    rev: Map<u64, String>,
    parents: Map<u64, u64>,
    entity: u64,
    steps: nat,
) -> Option<Seq<char>>
    decreases steps,
{
    if rev.contains_key(entity) {
        Some(rev[entity]@)
    } else if !parents.contains_key(entity) || parents[entity] == entity || steps == 0 {
        None
    } else {
        resolve_walk(rev, parents, parents[entity], (steps - 1) as nat)
    }
}

/// The editor's stable ids mapped to live entities (`fwd`) and back (`rev`).
pub struct EditorIdMap {
    fwd: Vec<(String, u64)>,
    fwd_view: Ghost<Map<Seq<char>, u64>>,
    rev: HashMap<u64, String>,
}

/// `v` lists `m`: keys unique, each entry in `m`, each key of `m` listed.
pub open spec fn lists(v: Seq<(String, u64)>, m: Map<Seq<char>, u64>) -> bool {
    &&& forall|i: int, j: int| 0 <= i < j < v.len() ==> #[trigger] v[i].0@ != #[trigger] v[j].0@
    &&& forall|i: int| 0 <= i < v.len() ==> m.contains_key(#[trigger] v[i].0@) && m[v[i].0@] == v[i].1
    &&& forall|k: Seq<char>| #[trigger] m.contains_key(k) ==> exists|i: int| 0 <= i < v.len() && v[i].0@ == k
}

impl EditorIdMap {
    /// The listed pairs and the map they stand for agree.
    #[verifier::type_invariant]
    spec fn wf(&self) -> bool {
        lists(self.fwd@, self.fwd_view@)
    }

    /// Editor id to entity.
    pub closed spec fn fwd(&self) -> Map<Seq<char>, u64> {
        self.fwd_view@
    }

    /// Entity to editor id.
    pub closed spec fn rev(&self) -> Map<u64, String> {
        self.rev@
    }

    /// An empty map.
    pub fn new() -> (r: Self)
        ensures
            r.fwd() == Map::<Seq<char>, u64>::empty(),
            r.rev() == Map::<u64, String>::empty(),
    {
        EditorIdMap { fwd: Vec::new(), fwd_view: Ghost(Map::empty()), rev: HashMap::new() }
    }

    fn position(&self, id: &str) -> (r: Option<usize>)
        ensures
            match r {
                Some(i) => i < self.fwd@.len() && self.fwd@[i as int].0@ == id@ && self.fwd().contains_key(id@),
                None => !self.fwd().contains_key(id@),
            },
    {
        proof {
            use_type_invariant(self);
        }
        let mut i: usize = 0;
        while i < self.fwd.len()
            invariant
                lists(self.fwd@, self.fwd_view@),
                i <= self.fwd@.len(),
                forall|j: int| 0 <= j < i ==> self.fwd@[j].0@ != id@,
            decreases self.fwd.len() - i,
        {
            if text_eq(self.fwd[i].0.as_str(), id) {
                return Some(i);
            }
            i = i + 1;
        }
        None
    }

    /// The entity mapped to an editor id.
    pub fn fwd_get(&self, id: &str) -> (r: Option<u64>)
        ensures
            r == (if self.fwd().contains_key(id@) { Some(self.fwd()[id@]) } else { None::<u64> }),
    {
        proof {
            use_type_invariant(self);
        }
        match self.position(id) {
            Some(i) => Some(self.fwd[i].1),
            None => None,
        }
    }

    /// The editor id mapped to an entity.
    pub fn rev_get(&self, entity: u64) -> (r: Option<String>)
        ensures
            r == (if self.rev().contains_key(entity) { Some(self.rev()[entity]) } else { None::<String> }),
    {
        match self.rev.get(&entity) {
            Some(id) => Some(id.clone()),
            None => None,
        }
    }

    /// The entity a selection id resolves to (`None` clears the selection).
    pub fn entity_for(&self, id: &Option<String>) -> (r: Option<u64>)
        ensures
            r == match id {
                Some(s) => if self.fwd().contains_key(s@) { Some(self.fwd()[s@]) } else { None::<u64> },
                None => None::<u64>,
            },
    {
        match id {
            Some(s) => self.fwd_get(s.as_str()),
            None => None,
        }
    }

    fn fwd_insert(&mut self, id: String, entity: u64)
        ensures
            final(self).fwd() == old(self).fwd().insert(id@, entity),
            final(self).rev() == old(self).rev(),
    {
        let pos = self.position(id.as_str());
        let mut taken = EditorIdMap::new();
        std::mem::swap(self, &mut taken);
        proof {
            use_type_invariant(&taken);
        }
        let EditorIdMap { fwd: mut v, fwd_view, rev } = taken;
        let ghost m = fwd_view@.insert(id@, entity);
        let ghost old_v = v@;
        match pos {
            Some(i) => {
                v.set(i, (id, entity));
                proof {
                    assert forall|k: Seq<char>| #[trigger] m.contains_key(k) implies exists|j: int|
                        0 <= j < v@.len() && v@[j].0@ == k by {
                        if k != v@[i as int].0@ {
                            let j = choose|j: int| 0 <= j < old_v.len() && old_v[j].0@ == k;
                            assert(v@[j].0@ == k);
                        }
                    }
                }
            },
            None => {
                v.push((id, entity));
                proof {
                    let n = old_v.len() as int;
                    assert forall|k: Seq<char>| #[trigger] m.contains_key(k) implies exists|j: int|
                        0 <= j < v@.len() && v@[j].0@ == k by {
                        if k != v@[n].0@ {
                            let j = choose|j: int| 0 <= j < old_v.len() && old_v[j].0@ == k;
                            assert(v@[j].0@ == k);
                        }
                    }
                }
            },
        }
        *self = EditorIdMap { fwd: v, fwd_view: Ghost(m), rev };
    }

    fn fwd_remove(&mut self, id: &str)
        ensures
            final(self).fwd() == old(self).fwd().remove(id@),
            final(self).rev() == old(self).rev(),
    {
        match self.position(id) {
            Some(i) => {
                let mut taken = EditorIdMap::new();
                std::mem::swap(self, &mut taken);
                proof {
                    use_type_invariant(&taken);
                }
                let EditorIdMap { fwd: mut v, fwd_view, rev } = taken;
                let ghost old_v = v@;
                let ghost m = fwd_view@.remove(id@);
                v.remove(i);
                proof {
                    assert forall|a: int, b: int| 0 <= a < b < v@.len() implies #[trigger] v@[a].0@
                        != #[trigger] v@[b].0@ by {
                        let a0 = if a < i { a } else { a + 1 };
                        let b0 = if b < i { b } else { b + 1 };
                        assert(v@[a] == old_v[a0]);
                        assert(v@[b] == old_v[b0]);
                    }
                    assert forall|j: int| 0 <= j < v@.len() implies m.contains_key(#[trigger] v@[j].0@)
                        && m[v@[j].0@] == v@[j].1 by {
                        let j0 = if j < i { j } else { j + 1 };
                        assert(v@[j] == old_v[j0]);
                        assert(old_v[j0].0@ != old_v[i as int].0@);
                    }
                    assert forall|k: Seq<char>| #[trigger] m.contains_key(k) implies exists|j: int|
                        0 <= j < v@.len() && v@[j].0@ == k by {
                        let j0 = choose|j: int| 0 <= j < old_v.len() && old_v[j].0@ == k;
                        assert(j0 != i);
                        let j = if j0 < i { j0 } else { j0 - 1 };
                        assert(v@[j] == old_v[j0]);
                    }
                }
                *self = EditorIdMap { fwd: v, fwd_view: Ghost(m), rev };
            },
            None => {
                proof {
                    assert(self.fwd_view@.remove(id@) =~= self.fwd_view@);
                }
            },
        }
    }

    fn rev_insert(&mut self, entity: u64, id: String)
        ensures
            final(self).fwd() == old(self).fwd(),
            final(self).rev() == old(self).rev().insert(entity, id),
    {
        proof {
            use_type_invariant(&*self);
        }
        let mut r: HashMap<u64, String> = HashMap::new();
        std::mem::swap(&mut r, &mut self.rev);
        r.insert(entity, id);
        self.rev = r;
    }

    fn rev_remove(&mut self, entity: u64)
        ensures
            final(self).fwd() == old(self).fwd(),
            final(self).rev() == old(self).rev().remove(entity),
    {
        proof {
            use_type_invariant(&*self);
        }
        let mut r: HashMap<u64, String> = HashMap::new();
        std::mem::swap(&mut r, &mut self.rev);
        r.remove(&entity);
        self.rev = r;
    }

    /// Map `id` to `entity` both ways (a freshly spawned entity).
    pub fn link(&mut self, id: String, entity: u64)
        ensures
            final(self).fwd() == old(self).fwd().insert(id@, entity),
            final(self).rev() == old(self).rev().insert(entity, id),
    {
        let key = id.clone();
        self.fwd_insert(key, entity);
        self.rev_insert(entity, id);
    }

    /// Move `id` from a despawned entity to its replacement.
    pub fn relink(&mut self, id: String, old_entity: u64, new_entity: u64)
        ensures
            final(self).fwd() == old(self).fwd().insert(id@, new_entity),
            final(self).rev() == old(self).rev().remove(old_entity).insert(new_entity, id),
    {
        self.rev_remove(old_entity);
        self.link(id, new_entity);
    }

    /// Forget `id` and `entity` (a despawned entity).
    pub fn unlink(&mut self, id: &str, entity: u64)
        ensures
            final(self).fwd() == old(self).fwd().remove(id@),
            final(self).rev() == old(self).rev().remove(entity),
    {
        self.fwd_remove(id);
        self.rev_remove(entity);
    }

    /// Forget every mapping.
    pub fn clear(&mut self)
        ensures
            final(self).fwd() == Map::<Seq<char>, u64>::empty(),
            final(self).rev() == Map::<u64, String>::empty(),
    {
        *self = EditorIdMap::new();
    }

    /// What the sync does with `entry`.
    pub fn sync_step(&self, entry: &SceneEntry) -> (r: SyncStep)
        ensures
            r == sync_step_of(self.fwd(), entry.id@, entry.kind@),
    {
        if text_eq(entry.kind.as_str(), "camera") {
            return SyncStep::Skip;
        }
        if text_eq(entry.kind.as_str(), "light:ambient") {
            return SyncStep::ApplyAmbient;
        }
        match self.fwd_get(entry.id.as_str()) {
            Some(e) => if light_kind(entry.kind.as_str()) {
                SyncStep::Respawn { old: e }
            } else {
                SyncStep::Update { entity: e }
            },
            None => SyncStep::Spawn,
        }
    }

    /// The entities to detach from their parents after the entries are synced:
    /// those of entries without a parent id.
    pub fn root_entities(&self, entries: &Vec<SceneEntry>) -> (r: Vec<u64>)
        ensures
            r@ == root_entities_of(self.fwd(), entries@),
    {
        let mut out: Vec<u64> = Vec::new();
        let mut i: usize = 0;
        while i < entries.len()
            invariant
                i <= entries.len(),
                out@ == root_entities_of(self.fwd(), entries@.take(i as int)),
            decreases entries.len() - i,
        {
            let e = &entries[i];
            proof {
                assert(entries@.take(i + 1).drop_last() =~= entries@.take(i as int));
                assert(entries@.take(i + 1).last() == *e);
            }
            if e.parent_id.is_none() {
                match self.fwd_get(e.id.as_str()) {
                    Some(entity) => {
                        out.push(entity);
                    },
                    None => {},
                }
            }
            i = i + 1;
        }
        assert(entries@.take(entries@.len() as int) =~= entries@);
        out
    }

    /// The (child, parent) pairs to wire after the entries are synced.
    pub fn parent_links(&self, entries: &Vec<SceneEntry>) -> (r: Vec<(u64, u64)>)
        ensures
            r@ == parent_links_of(self.fwd(), entries@),
    {
        let mut out: Vec<(u64, u64)> = Vec::new();
        let mut i: usize = 0;
        while i < entries.len()
            invariant
                i <= entries.len(),
                out@ == parent_links_of(self.fwd(), entries@.take(i as int)),
            decreases entries.len() - i,
        {
            let e = &entries[i];
            proof {
                assert(entries@.take(i + 1).drop_last() =~= entries@.take(i as int));
                assert(entries@.take(i + 1).last() == *e);
            }
            match &e.parent_id {
                Some(p) => {
                    let child = self.fwd_get(e.id.as_str());
                    let parent = self.fwd_get(p.as_str());
                    match (child, parent) {
                        (Some(c), Some(q)) => {
                            out.push((c, q));
                        },
                        _ => {},
                    }
                },
                None => {},
            }
            i = i + 1;
        }
        assert(entries@.take(entries@.len() as int) =~= entries@);
        out
    }

    /// Forget every id that `seen` does not hold; returns the forgotten
    /// (id, entity) pairs, whose entities the caller despawns.
    pub fn forget_stale(&mut self, seen: &Vec<String>) -> (removed: Vec<(String, u64)>)
        ensures
            final(self).fwd() == old(self).fwd().restrict(seen_set(seen@)),
            forall|i: int| 0 <= i < removed@.len() ==> {
                &&& old(self).fwd().contains_key(#[trigger] removed@[i].0@)
                &&& !seen_set(seen@).contains(removed@[i].0@)
                &&& old(self).fwd()[removed@[i].0@] == removed@[i].1
            },
            forall|k: Seq<char>| #[trigger] old(self).fwd().contains_key(k) && !seen_set(seen@).contains(k)
                ==> exists|i: int| 0 <= i < removed@.len() && removed@[i].0@ == k,
            final(self).rev() == old(self).rev().remove_keys(
                Set::new(|e: u64| exists|i: int| 0 <= i < removed@.len() && removed@[i].1 == e),
            ),
    {
        let mut taken = EditorIdMap::new();
        std::mem::swap(self, &mut taken);
        proof {
            use_type_invariant(&taken);
        }
        let EditorIdMap { fwd: src, fwd_view, rev: mut rev } = taken;
        let ghost old_fwd = fwd_view@;
        let ghost old_rev = rev@;
        let mut kept: Vec<(String, u64)> = Vec::new();
        let mut removed: Vec<(String, u64)> = Vec::new();
        let ghost all = src@;
        let mut i: usize = 0;
        while i < src.len()
            invariant
                src@ == all,
                lists(all, old_fwd),
                i <= all.len(),
                lists(kept@, old_fwd.restrict(seen_set(seen@)).restrict(
                    Set::new(|k: Seq<char>| exists|j: int| 0 <= j < i && all[j].0@ == k),
                )),
                forall|j: int| 0 <= j < removed@.len() ==> {
                    &&& old_fwd.contains_key(#[trigger] removed@[j].0@)
                    &&& !seen_set(seen@).contains(removed@[j].0@)
                    &&& old_fwd[removed@[j].0@] == removed@[j].1
                },
                forall|j: int| 0 <= j < i && !seen_set(seen@).contains(#[trigger] all[j].0@) ==> exists|m: int|
                    0 <= m < removed@.len() && removed@[m].0@ == all[j].0@,
                rev@ == old_rev.remove_keys(
                    Set::new(|e: u64| exists|m: int| 0 <= m < removed@.len() && removed@[m].1 == e),
                ),
            decreases all.len() - i,
        {
            let id = src[i].0.clone();
            let entity = src[i].1;
            let ghost before_kept = kept@;
            let ghost before_removed = removed@;
            if contains_text(seen, id.as_str()) {
                kept.push((id, entity));
                proof {
                    let lim = old_fwd.restrict(seen_set(seen@)).restrict(
                        Set::new(|k: Seq<char>| exists|j: int| 0 <= j < i + 1 && all[j].0@ == k),
                    );
                    let prev = old_fwd.restrict(seen_set(seen@)).restrict(
                        Set::new(|k: Seq<char>| exists|j: int| 0 <= j < i && all[j].0@ == k),
                    );
                    assert(seen_set(seen@).contains(all[i as int].0@));
                    assert forall|a: int, b: int| 0 <= a < b < kept@.len() implies #[trigger] kept@[a].0@
                        != #[trigger] kept@[b].0@ by {
                        if b == kept@.len() - 1 && a < b {
                            assert(prev.contains_key(kept@[a].0@));
                            let j = choose|j: int| 0 <= j < i && all[j].0@ == kept@[a].0@;
                            assert(all[j].0@ != all[i as int].0@);
                        }
                    }
                    assert forall|j: int| 0 <= j < kept@.len() implies lim.contains_key(#[trigger] kept@[j].0@)
                        && lim[kept@[j].0@] == kept@[j].1 by {
                        if j < kept@.len() - 1 {
                            assert(prev.contains_key(kept@[j].0@));
                            let w = choose|w: int| 0 <= w < i && all[w].0@ == kept@[j].0@;
                            assert(0 <= w < i + 1 && all[w].0@ == kept@[j].0@);
                        } else {
                            assert(0 <= i < i + 1 && all[i as int].0@ == kept@[j].0@);
                        }
                    }
                    assert forall|k: Seq<char>| #[trigger] lim.contains_key(k) implies exists|j: int|
                        0 <= j < kept@.len() && kept@[j].0@ == k by {
                        let w = choose|w: int| 0 <= w < i + 1 && all[w].0@ == k;
                        if w < i {
                            assert(prev.contains_key(k));
                            let j = choose|j: int| 0 <= j < before_kept.len() && before_kept[j].0@ == k;
                            assert(kept@[j] == before_kept[j]);
                        } else {
                            assert(kept@[kept@.len() - 1].0@ == k);
                        }
                    }
                    assert forall|j: int| 0 <= j < i + 1 && !seen_set(seen@).contains(#[trigger] all[j].0@)
                        implies exists|m: int| 0 <= m < removed@.len() && removed@[m].0@ == all[j].0@ by {
                    }
                }
            } else {
                removed.push((id, entity));
                rev.remove(&entity);
                proof {
                    let lim = old_fwd.restrict(seen_set(seen@)).restrict(
                        Set::new(|k: Seq<char>| exists|j: int| 0 <= j < i + 1 && all[j].0@ == k),
                    );
                    let prev = old_fwd.restrict(seen_set(seen@)).restrict(
                        Set::new(|k: Seq<char>| exists|j: int| 0 <= j < i && all[j].0@ == k),
                    );
                    assert(lim =~= prev);
                    assert forall|j: int| 0 <= j < removed@.len() implies {
                        &&& old_fwd.contains_key(#[trigger] removed@[j].0@)
                        &&& !seen_set(seen@).contains(removed@[j].0@)
                        &&& old_fwd[removed@[j].0@] == removed@[j].1
                    } by {
                        if j < before_removed.len() {
                            assert(removed@[j] == before_removed[j]);
                        }
                    }
                    assert forall|j: int| 0 <= j < i + 1 && !seen_set(seen@).contains(#[trigger] all[j].0@)
                        implies exists|m: int| 0 <= m < removed@.len() && removed@[m].0@ == all[j].0@ by {
                        if j < i {
                            let m = choose|m: int| 0 <= m < before_removed.len() && before_removed[m].0@
                                == all[j].0@;
                            assert(removed@[m] == before_removed[m]);
                        } else {
                            assert(removed@[removed@.len() - 1].0@ == all[j].0@);
                        }
                    }
                    let s_old = Set::new(|e: u64| exists|m: int| 0 <= m < before_removed.len() && before_removed[m].1 == e);
                    let s_new = Set::new(|e: u64| exists|m: int| 0 <= m < removed@.len() && removed@[m].1 == e);
                    assert forall|e: u64| s_new.contains(e) <==> s_old.contains(e) || e == entity by {
                        if s_old.contains(e) {
                            let m = choose|m: int| 0 <= m < before_removed.len() && before_removed[m].1 == e;
                            assert(removed@[m] == before_removed[m]);
                        }
                        if e == entity {
                            assert(removed@[removed@.len() - 1].1 == e);
                        }
                        if s_new.contains(e) {
                            let m = choose|m: int| 0 <= m < removed@.len() && removed@[m].1 == e;
                            if m < before_removed.len() {
                                assert(removed@[m] == before_removed[m]);
                            }
                        }
                    }
                    assert(rev@ =~= old_rev.remove_keys(s_new));
                }
            }
            i = i + 1;
        }
        proof {
            let lim = old_fwd.restrict(seen_set(seen@)).restrict(
                Set::new(|k: Seq<char>| exists|j: int| 0 <= j < all.len() && all[j].0@ == k),
            );
            assert(lim =~= old_fwd.restrict(seen_set(seen@)));
            assert forall|k: Seq<char>| #[trigger] old_fwd.contains_key(k) && !seen_set(seen@).contains(k)
                implies exists|m: int| 0 <= m < removed@.len() && removed@[m].0@ == k by {
                let j = choose|j: int| 0 <= j < all.len() && all[j].0@ == k;
                assert(!seen_set(seen@).contains(all[j].0@));
            }
        }
        *self = EditorIdMap { fwd: kept, fwd_view: Ghost(old_fwd.restrict(seen_set(seen@))), rev };
        removed
    }

    /// Rebuild the map from the stable ids found on the world's entities
    /// (after a scene file is loaded): cleared, then each pair linked in order,
    /// so of two pairs with the same id (or entity) the later one stands.
    pub fn rebuild(&mut self, found: &Vec<(u64, String)>)
        ensures
            forall|i: int| 0 <= i < found@.len() ==> final(self).rev().contains_key(#[trigger] found@[i].0),
            forall|i: int| 0 <= i < found@.len() ==> final(self).fwd().contains_key(#[trigger] found@[i].1@),
            forall|k: Seq<char>| #[trigger] final(self).fwd().contains_key(k) ==> exists|i: int|
                0 <= i < found@.len() && found@[i].1@ == k && final(self).fwd()[k] == found@[i].0
                && forall|j: int| i < j < found@.len() ==> #[trigger] found@[j].1@ != k,
            forall|e: u64| #[trigger] final(self).rev().contains_key(e) ==> exists|i: int|
                0 <= i < found@.len() && found@[i].0 == e && final(self).rev()[e] == found@[i].1
                && forall|j: int| i < j < found@.len() ==> #[trigger] found@[j].0 != e,
    {
        self.clear();
        let mut i: usize = 0;
        while i < found.len()
            invariant
                i <= found@.len(),
                forall|j: int| 0 <= j < i ==> self.rev().contains_key(#[trigger] found@[j].0),
                forall|j: int| 0 <= j < i ==> self.fwd().contains_key(#[trigger] found@[j].1@),
                forall|k: Seq<char>| #[trigger] self.fwd().contains_key(k) ==> exists|j: int|
                    0 <= j < i && found@[j].1@ == k && self.fwd()[k] == found@[j].0
                    && forall|l: int| j < l < i ==> #[trigger] found@[l].1@ != k,
                forall|e: u64| #[trigger] self.rev().contains_key(e) ==> exists|j: int|
                    0 <= j < i && found@[j].0 == e && self.rev()[e] == found@[j].1
                    && forall|l: int| j < l < i ==> #[trigger] found@[l].0 != e,
            decreases found.len() - i,
        {
            let entity = found[i].0;
            let id = found[i].1.clone();
            let ghost prev_fwd = self.fwd();
            let ghost prev_rev = self.rev();
            self.link(id, entity);
            proof {
                assert forall|k: Seq<char>| #[trigger] self.fwd().contains_key(k) implies exists|j: int|
                    0 <= j < i + 1 && found@[j].1@ == k && self.fwd()[k] == found@[j].0
                    && forall|l: int| j < l < i + 1 ==> #[trigger] found@[l].1@ != k by {
                    if k == found@[i as int].1@ {
                        assert(found@[i as int].1@ == k && self.fwd()[k] == found@[i as int].0);
                    } else {
                        assert(prev_fwd.contains_key(k));
                        let j = choose|j: int| 0 <= j < i && found@[j].1@ == k && prev_fwd[k] == found@[j].0
                            && forall|l: int| j < l < i ==> #[trigger] found@[l].1@ != k;
                        assert(found@[j].1@ == k && self.fwd()[k] == found@[j].0);
                        assert forall|l: int| j < l < i + 1 implies #[trigger] found@[l].1@ != k by {
                            if l < i {
                            }
                        }
                    }
                }
                assert forall|e: u64| #[trigger] self.rev().contains_key(e) implies exists|j: int|
                    0 <= j < i + 1 && found@[j].0 == e && self.rev()[e] == found@[j].1
                    && forall|l: int| j < l < i + 1 ==> #[trigger] found@[l].0 != e by {
                    if e == found@[i as int].0 {
                        assert(found@[i as int].0 == e && self.rev()[e] == found@[i as int].1);
                    } else {
                        assert(prev_rev.contains_key(e));
                        let j = choose|j: int| 0 <= j < i && found@[j].0 == e && prev_rev[e] == found@[j].1
                            && forall|l: int| j < l < i ==> #[trigger] found@[l].0 != e;
                        assert(found@[j].0 == e && self.rev()[e] == found@[j].1);
                        assert forall|l: int| j < l < i + 1 implies #[trigger] found@[l].0 != e by {
                            if l < i {
                            }
                        }
                    }
                }
            }
            i = i + 1;
        }
    }

    /// Walk up the parent links from `entity` until an entity with an editor
    /// id is found; parent links are followed at most once per link in
    /// `parents`, which no chain of a hierarchy without cycles exceeds.
    pub fn resolve_editor_id(&self, entity: u64, parents: &HashMap<u64, u64>) -> (r: Option<String>)
        ensures
            match r {
                Some(s) => resolve_walk(self.rev(), parents@, entity, parents@.len()) == Some(s@),
                None => resolve_walk(self.rev(), parents@, entity, parents@.len()) is None,
            },
    {
        let mut current = entity;
        let mut steps: usize = parents.len();
        loop
            invariant
                resolve_walk(self.rev(), parents@, current, steps as nat) == resolve_walk(
                    self.rev(),
                    parents@,
                    entity,
                    parents@.len(),
                ),
            decreases steps,
        {
            match self.rev.get(&current) {
                Some(id) => {
                    return Some(id.clone());
                },
                None => {},
            }
            match parents.get(&current) {
                None => {
                    return None;
                },
                Some(p) => {
                    if *p == current || steps == 0 {
                        return None;
                    }
                    current = *p;
                    steps = steps - 1;
                },
            }
        }
    }
}

/// After a sync pass has mapped every id the document keeps, forgetting the
/// stale ids leaves exactly the document's ids mapped.
pub proof fn law_sync_maps_exactly_document_ids(fwd: Map<Seq<char>, u64>, seen: Seq<String>)
    requires
        forall|i: int| 0 <= i < seen.len() ==> fwd.contains_key(#[trigger] seen[i]@),
    ensures
        fwd.restrict(seen_set(seen)).dom() == seen_set(seen),
{
    assert forall|k: Seq<char>| seen_set(seen).contains(k) implies #[trigger] fwd.contains_key(k) by {
        let i = choose|i: int| 0 <= i < texts(seen).len() && texts(seen)[i] == k;
        assert(texts(seen)[i] == seen[i]@);
    }
    assert(fwd.restrict(seen_set(seen)).dom() =~= seen_set(seen));
}

/// A spawned or respawned id is mapped to its entity both ways.
pub proof fn law_linked_id_resolves(before_fwd: Map<Seq<char>, u64>, before_rev: Map<u64, String>, id: String, entity: u64)
    ensures
        before_fwd.insert(id@, entity)[id@] == entity,
        before_rev.insert(entity, id)[entity] == id,
{
}

/// `rev` is exactly the inverse of `fwd`: each mapped id's entity maps back to
/// it, and each mapped entity's id maps forward to it.
pub open spec fn inverse_maps(fwd: Map<Seq<char>, u64>, rev: Map<u64, String>) -> bool {
    &&& forall|k: Seq<char>| #[trigger] fwd.contains_key(k) ==> rev.contains_key(fwd[k]) && rev[fwd[k]]@ == k
    &&& forall|e: u64| #[trigger] rev.contains_key(e) ==> fwd.contains_key(rev[e]@) && fwd[rev[e]@] == e
}

/// The steps of a sync keep `rev` the inverse of `fwd`: linking a new id to a
/// fresh entity ([`EditorIdMap::link`]), moving an id to a fresh entity
/// ([`EditorIdMap::relink`]) and forgetting an id with its entity
/// ([`EditorIdMap::unlink`]) each map to inverse maps again.
pub proof fn law_sync_steps_keep_maps_inverse(
    fwd: Map<Seq<char>, u64>,
    rev: Map<u64, String>,
    id: String,
    old_entity: u64,
    new_entity: u64,
)
    requires
        inverse_maps(fwd, rev),
    ensures
        !fwd.contains_key(id@) && !rev.contains_key(new_entity) ==> inverse_maps(
            fwd.insert(id@, new_entity),
            rev.insert(new_entity, id),
        ),
        fwd.contains_key(id@) && fwd[id@] == old_entity && !rev.contains_key(new_entity) ==> inverse_maps(
            fwd.insert(id@, new_entity),
            rev.remove(old_entity).insert(new_entity, id),
        ),
        fwd.contains_key(id@) && fwd[id@] == old_entity ==> inverse_maps(fwd.remove(id@), rev.remove(old_entity)),
{
}

/// Forgetting the stale ids ([`EditorIdMap::forget_stale`]) keeps `rev` the
/// inverse of `fwd`.
pub proof fn law_forget_stale_keeps_maps_inverse(
    fwd: Map<Seq<char>, u64>,
    rev: Map<u64, String>,
    seen: Set<Seq<char>>,
    removed: Seq<(String, u64)>,
)
    requires
        inverse_maps(fwd, rev),
        forall|i: int| 0 <= i < removed.len() ==> {
            &&& fwd.contains_key(#[trigger] removed[i].0@)
            &&& !seen.contains(removed[i].0@)
            &&& fwd[removed[i].0@] == removed[i].1
        },
        forall|k: Seq<char>| #[trigger] fwd.contains_key(k) && !seen.contains(k)
            ==> exists|i: int| 0 <= i < removed.len() && removed[i].0@ == k,
    ensures
        inverse_maps(
            fwd.restrict(seen),
            rev.remove_keys(Set::new(|e: u64| exists|i: int| 0 <= i < removed.len() && removed[i].1 == e)),
        ),
{
    let gone = Set::new(|e: u64| exists|i: int| 0 <= i < removed.len() && removed[i].1 == e);
    let f2 = fwd.restrict(seen);
    let r2 = rev.remove_keys(gone);
    assert forall|k: Seq<char>| #[trigger] f2.contains_key(k) implies r2.contains_key(f2[k]) && r2[f2[k]]@ == k by {
        if gone.contains(fwd[k]) {
            let i = choose|i: int| 0 <= i < removed.len() && removed[i].1 == fwd[k];
            let k2 = removed[i].0@;
            assert(fwd.contains_key(k2));
            assert(rev[fwd[k2]]@ == k2);
        }
    }
    assert forall|e: u64| #[trigger] r2.contains_key(e) implies f2.contains_key(r2[e]@) && f2[r2[e]@] == e by {
        let k = rev[e]@;
        if !seen.contains(k) {
            let i = choose|i: int| 0 <= i < removed.len() && removed[i].0@ == k;
            assert(removed[i].1 == e);
            assert(gone.contains(e));
        }
    }
}

/// The entries that live in the world: every kind but `camera` (owned by the
/// viewport) and `light:ambient` (a global resource).
pub open spec fn lives_in_world(e: SceneEntry) -> bool {
    e.kind@ != "camera"@ && e.kind@ != "light:ambient"@
}

/// A sync keeps exactly the ids of the document entries that live in the
/// world, in document order: each entry whose kind is neither `camera` nor
/// `light:ambient` (an empty group actor included) has its id kept, so
/// forgetting the stale ids never drops it, and no other id is kept.
pub proof fn law_sync_keeps_every_world_entry(entries: Seq<SceneEntry>)
    ensures
        world_ids(entries) =~= entries.filter(|e: SceneEntry| lives_in_world(e)).map_values(|e: SceneEntry| e.id@),
        forall|i: int| 0 <= i < entries.len() && entries[i].kind@ != "camera"@ && entries[i].kind@ != "light:ambient"@
            ==> #[trigger] world_ids(entries).contains(entries[i].id@),
    decreases entries.len(),
{
    reveal(Seq::filter);
    let pred = |e: SceneEntry| lives_in_world(e);
    if entries.len() > 0 {
        let prefix = entries.drop_last();
        law_sync_keeps_every_world_entry(prefix);
        let rest = world_ids(prefix);
        let w = world_ids(entries);
        let n = entries.len() - 1;
        assert(entries.filter(pred) == if pred(entries.last()) {
            prefix.filter(pred).push(entries.last())
        } else {
            prefix.filter(pred)
        });
        assert forall|i: int| 0 <= i < entries.len() && entries[i].kind@ != "camera"@
            && entries[i].kind@ != "light:ambient"@ implies #[trigger] w.contains(entries[i].id@) by {
            if i < n {
                assert(prefix[i] == entries[i]);
                assert(rest.contains(prefix[i].id@));
                let k = choose|k: int| 0 <= k < rest.len() && rest[k] == prefix[i].id@;
                if is_world_entity(entries.last().kind@) {
                    assert(w[k] == rest[k]);
                }
            } else {
                assert(entries.last() == entries[i]);
                assert(is_world_entity(entries.last().kind@));
                assert(w == rest.push(entries.last().id@));
                assert(w[w.len() - 1] == entries[i].id@);
            }
        }
    }
}

/// Resolving a picked entity: an entity that has an editor id resolves to its
/// own id, however many parent links may be followed; an unmapped entity with
/// a parent (other than itself) resolves as its parent does, one link fewer.
pub proof fn law_resolve_prefers_the_picked_entity(
    rev: Map<u64, String>,
    parents: Map<u64, u64>,
    entity: u64,
    steps: nat,
)
    ensures
        rev.contains_key(entity) ==> resolve_walk(rev, parents, entity, steps) == Some(rev[entity]@),
        !rev.contains_key(entity) && parents.contains_key(entity) && parents[entity] != entity && steps > 0
            ==> resolve_walk(rev, parents, entity, steps) == resolve_walk(rev, parents, parents[entity], (steps - 1) as nat),
        !rev.contains_key(entity) && !parents.contains_key(entity) ==> resolve_walk(rev, parents, entity, steps) is None,
{
}

} // verus!
