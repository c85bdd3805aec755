//! The game world as the logic sees it: the objects of the map's object layers,
//! the index from stable map ids to those objects, and the runtime overlays
//! (moved and disabled entities) kept on top of the map.
//!
//! Positions are an opaque value of type `P` (a floating-point vector in the
//! game); the index stores and hands them back but never computes with them.

use vstd::prelude::*;
use vstd::hash_map::StringHashMap;
use vstd::hash_set::StringHashSet;
use vstd::string::*;
use crate::text::{eq_ignore_ascii_case, eq_ignore_ascii_case_text};
use crate::actor::npc::{NpcAttitude, NpcData, NpcRole};
use crate::actor::player::PlayerData;

verus! {

/// Where an object sits in the map: its layer and its place within that layer.
#[derive(Debug, Clone, Copy, PartialEq, Eq, Structural)]
pub struct ObjectHandle {
    pub layer_index: usize,
    pub object_index: usize,
}

/// One object of an object layer, with the properties the game reads from it.
pub struct MapObject<P> {
    /// The object's class, as written in the map.
    pub class_name: String,
    pub position: P,
    /// The string property `entity_id`, where the object has one.
    pub entity_id: Option<String>,
    /// The string property `spawn_id`, where the object has one.
    pub spawn_id: Option<String>,
    /// The boolean property `collider`, where the object has one.
    pub collider: Option<bool>,
}

/// An object layer of the map.
pub struct ObjectLayer<P> {
    pub objects: Vec<MapObject<P>>,
}

/// The object layers of a tiled map, in map order.
pub struct TiledMap<P> {
    pub object_layers: Vec<ObjectLayer<P>>,
}

/// `a` comes before `b` in map order: by layer, then by place within the layer.
pub open spec fn handle_before(a: ObjectHandle, b: ObjectHandle) -> bool {
    a.layer_index < b.layer_index || (a.layer_index == b.layer_index && a.object_index < b.object_index)
}

/// `h` comes before the place `object` of layer `layer` in map order.
pub open spec fn scanned(h: ObjectHandle, layer: int, object: int) -> bool {
    h.layer_index < layer || (h.layer_index == layer && h.object_index < object)
}

/// The view of an optional string.
pub open spec fn opt_view(s: Option<String>) -> Option<Seq<char>> {
    match s {
        Some(t) => Some(t@),
        None => None,
    }
}

impl<P> TiledMap<P> {
    /// `h` names an object of this map.
    pub open spec fn handle_valid(&self, h: ObjectHandle) -> bool {
        &&& h.layer_index < self.object_layers@.len()
        &&& h.object_index < self.object_layers@[h.layer_index as int].objects@.len()
    }

    /// The object that `h` names.
    pub open spec fn object_at(&self, h: ObjectHandle) -> MapObject<P> {
        self.object_layers@[h.layer_index as int].objects@[h.object_index as int]
    }

    /// The `entity_id` (with `spawn` false) or `spawn_id` (with `spawn` true) of the object at `h`.
    pub open spec fn id_at(&self, h: ObjectHandle, spawn: bool) -> Option<Seq<char>> {
        if spawn {
            opt_view(self.object_at(h).spawn_id)
        } else {
            opt_view(self.object_at(h).entity_id)
        }
    }

    /// The object at `h` is marked as a collider (a missing `collider` property counts as false).
    pub open spec fn is_collider(&self, h: ObjectHandle) -> bool {
        self.object_at(h).collider == Some(true)
    }

    /// Among the objects before the place `object` of layer `layer`, `index` maps
    /// each id to the last object (in map order) that carries it, and holds no other id.
    pub open spec fn indexes_ids_upto(&self, index: Map<Seq<char>, ObjectHandle>, spawn: bool, layer: int, object: int) -> bool {
        &&& forall|k: Seq<char>| #[trigger] index.contains_key(k) ==> {
            &&& self.handle_valid(index[k])
            &&& scanned(index[k], layer, object)
            &&& self.id_at(index[k], spawn) == Some(k)
        }
        &&& forall|h: ObjectHandle| #![trigger self.id_at(h, spawn)] self.handle_valid(h) && scanned(h, layer, object) && self.id_at(h, spawn) is Some ==> {
            let k = self.id_at(h, spawn)->0;
            index.contains_key(k) && (h == index[k] || handle_before(h, index[k]))
        }
    }

    /// `index` maps each id carried by an object of this map to the last object
    /// (in map order) that carries it, and holds no other id.
    pub open spec fn indexes_ids(&self, index: Map<Seq<char>, ObjectHandle>, spawn: bool) -> bool {
        self.indexes_ids_upto(index, spawn, self.object_layers@.len() as int, 0)
    }

    /// Among the objects before the place `object` of layer `layer`, `colliders`
    /// lists those marked as colliders, each once, in map order.
    pub open spec fn lists_colliders_upto(&self, colliders: Seq<ObjectHandle>, layer: int, object: int) -> bool {
        &&& forall|i: int| 0 <= i < colliders.len() ==> {
            &&& self.handle_valid(#[trigger] colliders[i])
            &&& self.is_collider(colliders[i])
            &&& scanned(colliders[i], layer, object)
        }
        &&& forall|i: int, j: int| 0 <= i < j < colliders.len() ==> handle_before(#[trigger] colliders[i], #[trigger] colliders[j])
        &&& forall|h: ObjectHandle| #![trigger self.is_collider(h)] self.handle_valid(h) && self.is_collider(h) && scanned(h, layer, object) ==> colliders.contains(h)
    }

    /// `colliders` lists the objects of this map marked as colliders, each once, in map order.
    pub open spec fn lists_colliders(&self, colliders: Seq<ObjectHandle>) -> bool {
        self.lists_colliders_upto(colliders, self.object_layers@.len() as int, 0)
    }

    /// The object that `handle` names, if it names one.
    pub fn object_from_handle(&self, handle: ObjectHandle) -> (r: Option<&MapObject<P>>)
        ensures
            match r {
                Some(o) => self.handle_valid(handle) && *o == self.object_at(handle),
                None => !self.handle_valid(handle),
            },
    {
        if handle.layer_index < self.object_layers.len() {
            let layer = &self.object_layers[handle.layer_index];
            if handle.object_index < layer.objects.len() {
                return Some(&layer.objects[handle.object_index]);
            }
        }
        None
    }
}

/// The abstract content of a [`WorldTruthIndex`].
#[verifier::reject_recursive_types(P)]
pub struct WorldTruthView<P> {
    pub entity_handles: Map<Seq<char>, ObjectHandle>,
    pub spawn_handles: Map<Seq<char>, ObjectHandle>,
    pub collider_handles: Seq<ObjectHandle>,
    pub position_overrides: Map<Seq<char>, P>,
    pub disabled_entities: Set<Seq<char>>,
}

/// Where the game looks up map objects by their stable ids, with the runtime
/// changes (moved and disabled entities) kept on top of the map.
#[verifier::reject_recursive_types(P)]
pub struct WorldTruthIndex<P> {
    entity_handles: StringHashMap<ObjectHandle>,
    spawn_handles: StringHashMap<ObjectHandle>,
    collider_handles: Vec<ObjectHandle>,
    entity_position_overrides: StringHashMap<P>,
    disabled_entities: StringHashSet,
}

impl<P> WorldTruthView<P> {
    /// This is the index of `map` as first built: every `entity_id` and
    /// `spawn_id` filed under the last object carrying it, the colliders listed
    /// in map order, no entity moved or disabled.
    pub open spec fn is_fresh_index_of(&self, map: TiledMap<P>) -> bool {
        &&& map.indexes_ids(self.entity_handles, false)
        &&& map.indexes_ids(self.spawn_handles, true)
        &&& map.lists_colliders(self.collider_handles)
        &&& self.position_overrides == Map::<Seq<char>, P>::empty()
        &&& self.disabled_entities == Set::<Seq<char>>::empty()
    }
}

impl<P> View for WorldTruthIndex<P> {
    type V = WorldTruthView<P>;

    closed spec fn view(&self) -> WorldTruthView<P> {
        WorldTruthView {
            entity_handles: self.entity_handles@,
            spawn_handles: self.spawn_handles@,
            collider_handles: self.collider_handles@,
            position_overrides: self.entity_position_overrides@,
            disabled_entities: self.disabled_entities@,
        }
    }
}

/// The id index after the object at `h` has been taken in.
pub open spec fn index_with(index: Map<Seq<char>, ObjectHandle>, id: Option<Seq<char>>, h: ObjectHandle) -> Map<Seq<char>, ObjectHandle> {
    match id {
        Some(k) => index.insert(k, h),
        None => index,
    }
}

proof fn lemma_index_step<P>(map: &TiledMap<P>, index: Map<Seq<char>, ObjectHandle>, spawn: bool, h0: ObjectHandle)
    requires
        map.indexes_ids_upto(index, spawn, h0.layer_index as int, h0.object_index as int),
        map.handle_valid(h0),
    ensures
        map.indexes_ids_upto(index_with(index, map.id_at(h0, spawn), h0), spawn, h0.layer_index as int, h0.object_index + 1),
{
    let layer = h0.layer_index as int;
    let object = h0.object_index as int;
    let next = index_with(index, map.id_at(h0, spawn), h0);
    assert forall|k: Seq<char>| #[trigger] next.contains_key(k) implies {
        &&& map.handle_valid(next[k])
        &&& scanned(next[k], layer, object + 1)
        &&& map.id_at(next[k], spawn) == Some(k)
    } by {
        if map.id_at(h0, spawn) == Some(k) {
            assert(next[k] == h0);
        } else {
            assert(index.contains_key(k));
            assert(next[k] == index[k]);
        }
    }
    assert forall|h: ObjectHandle| #![trigger map.id_at(h, spawn)] map.handle_valid(h) && scanned(h, layer, object + 1) && map.id_at(h, spawn) is Some implies {
        let k = map.id_at(h, spawn)->0;
        next.contains_key(k) && (h == next[k] || handle_before(h, next[k]))
    } by {
        let k = map.id_at(h, spawn)->0;
        if h == h0 {
            assert(next[k] == h0);
        } else {
            assert(scanned(h, layer, object));
            assert(index.contains_key(k));
            if map.id_at(h0, spawn) == Some(k) {
                assert(next[k] == h0);
                assert(h.layer_index < layer || (h.layer_index == layer && h.object_index < object));
            } else {
                assert(next[k] == index[k]);
            }
        }
    }
}

proof fn lemma_index_next_layer<P>(map: &TiledMap<P>, index: Map<Seq<char>, ObjectHandle>, spawn: bool, layer: int)
    requires
        0 <= layer < map.object_layers@.len(),
        map.indexes_ids_upto(index, spawn, layer, map.object_layers@[layer].objects@.len() as int),
    ensures
        map.indexes_ids_upto(index, spawn, layer + 1, 0),
{
    let n = map.object_layers@[layer].objects@.len() as int;
    assert forall|k: Seq<char>| #[trigger] index.contains_key(k) implies scanned(index[k], layer + 1, 0) by {
        assert(scanned(index[k], layer, n));
    }
    assert forall|h: ObjectHandle| #![trigger map.id_at(h, spawn)] map.handle_valid(h) && scanned(h, layer + 1, 0) && map.id_at(h, spawn) is Some implies {
        let k = map.id_at(h, spawn)->0;
        index.contains_key(k) && (h == index[k] || handle_before(h, index[k]))
    } by {
        assert(scanned(h, layer, n));
    }
}

proof fn lemma_colliders_step<P>(map: &TiledMap<P>, colliders: Seq<ObjectHandle>, h0: ObjectHandle)
    requires
        map.lists_colliders_upto(colliders, h0.layer_index as int, h0.object_index as int),
        map.handle_valid(h0),
    ensures
        map.lists_colliders_upto(
            if map.is_collider(h0) { colliders.push(h0) } else { colliders },
            h0.layer_index as int,
            h0.object_index + 1,
        ),
{
    let layer = h0.layer_index as int;
    let object = h0.object_index as int;
    let next = if map.is_collider(h0) { colliders.push(h0) } else { colliders };
    assert forall|i: int| 0 <= i < next.len() implies {
        &&& map.handle_valid(#[trigger] next[i])
        &&& map.is_collider(next[i])
        &&& scanned(next[i], layer, object + 1)
    } by {
        if i < colliders.len() {
            assert(next[i] == colliders[i]);
        }
    }
    assert forall|i: int, j: int| 0 <= i < j < next.len() implies handle_before(#[trigger] next[i], #[trigger] next[j]) by {
        if j < colliders.len() {
            assert(next[i] == colliders[i] && next[j] == colliders[j]);
        } else {
            assert(next[i] == colliders[i]);
            assert(next[j] == h0);
            assert(scanned(colliders[i], layer, object));
        }
    }
    assert forall|h: ObjectHandle| #![trigger map.is_collider(h)] map.handle_valid(h) && map.is_collider(h) && scanned(h, layer, object + 1) implies next.contains(h) by {
        if h == h0 {
            assert(next[next.len() - 1] == h0);
        } else {
            assert(scanned(h, layer, object));
            assert(colliders.contains(h));
            let i = choose|i: int| 0 <= i < colliders.len() && colliders[i] == h;
            assert(next[i] == h);
        }
    }
}

proof fn lemma_colliders_next_layer<P>(map: &TiledMap<P>, colliders: Seq<ObjectHandle>, layer: int)
    requires
        0 <= layer < map.object_layers@.len(),
        map.lists_colliders_upto(colliders, layer, map.object_layers@[layer].objects@.len() as int),
    ensures
        map.lists_colliders_upto(colliders, layer + 1, 0),
{
    let n = map.object_layers@[layer].objects@.len() as int;
    assert forall|i: int| 0 <= i < colliders.len() implies scanned(#[trigger] colliders[i], layer + 1, 0) by {
        assert(scanned(colliders[i], layer, n));
    }
    assert forall|h: ObjectHandle| #![trigger map.is_collider(h)] map.handle_valid(h) && map.is_collider(h) && scanned(h, layer + 1, 0) implies colliders.contains(h) by {
        assert(scanned(h, layer, n));
    }
}

impl<P> WorldTruthIndex<P> {
    /// Indexes the objects of `map` by their `entity_id` and `spawn_id`
    /// properties and lists those marked as colliders. Where several objects
    /// carry the same id, the last one in map order is kept. No entity is
    /// moved or disabled yet.
    pub fn from_map(map: &TiledMap<P>) -> (r: Self)
        ensures
            r@.is_fresh_index_of(*map),
    {
        let mut entity_handles: StringHashMap<ObjectHandle> = StringHashMap::new();
        let mut spawn_handles: StringHashMap<ObjectHandle> = StringHashMap::new();
        let mut collider_handles: Vec<ObjectHandle> = Vec::new();
        let mut layer_index: usize = 0;
        while layer_index < map.object_layers.len()
            invariant
                layer_index <= map.object_layers@.len(),
                map.indexes_ids_upto(entity_handles@, false, layer_index as int, 0),
                map.indexes_ids_upto(spawn_handles@, true, layer_index as int, 0),
                map.lists_colliders_upto(collider_handles@, layer_index as int, 0),
            decreases map.object_layers@.len() - layer_index,
        {
            let layer = &map.object_layers[layer_index];
            let mut object_index: usize = 0;
            while object_index < layer.objects.len()
                invariant
                    layer_index < map.object_layers@.len(),
                    *layer == map.object_layers@[layer_index as int],
                    object_index <= layer.objects@.len(),
                    map.indexes_ids_upto(entity_handles@, false, layer_index as int, object_index as int),
                    map.indexes_ids_upto(spawn_handles@, true, layer_index as int, object_index as int),
                    map.lists_colliders_upto(collider_handles@, layer_index as int, object_index as int),
                decreases layer.objects@.len() - object_index,
            {
                let obj = &layer.objects[object_index];
                let handle = ObjectHandle { layer_index, object_index };
                proof {
                    assert(map.object_at(handle) == *obj);
                    lemma_index_step(map, entity_handles@, false, handle);
                    lemma_index_step(map, spawn_handles@, true, handle);
                    lemma_colliders_step(map, collider_handles@, handle);
                }
                match &obj.entity_id {
                    Some(entity_id) => {
                        entity_handles.insert(entity_id.clone(), handle);
                    },
                    None => {},
                }
                match &obj.spawn_id {
                    Some(spawn_id) => {
                        spawn_handles.insert(spawn_id.clone(), handle);
                    },
                    None => {},
                }
                if obj.collider.unwrap_or(false) {
                    collider_handles.push(handle);
                }
                object_index = object_index + 1;
            }
            proof {
                lemma_index_next_layer(map, entity_handles@, false, layer_index as int);
                lemma_index_next_layer(map, spawn_handles@, true, layer_index as int);
                lemma_colliders_next_layer(map, collider_handles@, layer_index as int);
            }
            layer_index = layer_index + 1;
        }
        WorldTruthIndex {
            entity_handles,
            spawn_handles,
            collider_handles,
            entity_position_overrides: StringHashMap::new(),
            disabled_entities: StringHashSet::new(),
        }
    }
}

/// The object that `index` files under `id`, if any, as looked up in `map`.
pub open spec fn indexed_object<P>(map: TiledMap<P>, index: Map<Seq<char>, ObjectHandle>, id: Seq<char>) -> Option<MapObject<P>> {
    if index.contains_key(id) && map.handle_valid(index[id]) {
        Some(map.object_at(index[id]))
    } else {
        None
    }
}

/// Where the entity `id` currently stands: nowhere while it is disabled; else
/// where it was last moved to; else where its object stands in the map.
pub open spec fn world_position<P>(v: WorldTruthView<P>, map: TiledMap<P>, id: Seq<char>) -> Option<P> {
    if v.disabled_entities.contains(id) {
        None
    } else if v.position_overrides.contains_key(id) {
        Some(v.position_overrides[id])
    } else {
        match indexed_object(map, v.entity_handles, id) {
            Some(o) => Some(o.position),
            None => None,
        }
    }
}

/// The index after the entity `id` has been moved to `pos`.
pub open spec fn moved_to<P>(v: WorldTruthView<P>, id: Seq<char>, pos: P) -> WorldTruthView<P> {
    WorldTruthView { position_overrides: v.position_overrides.insert(id, pos), ..v }
}

/// The index after the entity `id` has been enabled or disabled.
pub open spec fn with_enabled<P>(v: WorldTruthView<P>, id: Seq<char>, enabled: bool) -> WorldTruthView<P> {
    WorldTruthView {
        disabled_entities: if enabled { v.disabled_entities.remove(id) } else { v.disabled_entities.insert(id) },
        ..v
    }
}

impl<P> WorldTruthIndex<P> {
    /// The spawn point object filed under `spawn_id`.
    pub fn get_spawn<'a>(&self, map: &'a TiledMap<P>, spawn_id: &str) -> (r: Option<&'a MapObject<P>>)
        ensures
            match r {
                Some(o) => indexed_object(*map, self@.spawn_handles, spawn_id@) == Some(*o),
                None => indexed_object(*map, self@.spawn_handles, spawn_id@) is None,
            },
    {
        match self.spawn_handles.get(spawn_id) {
            Some(handle) => map.object_from_handle(*handle),
            None => None,
        }
    }

    /// The entity object filed under `entity_id`.
    pub fn get_entity<'a>(&self, map: &'a TiledMap<P>, entity_id: &str) -> (r: Option<&'a MapObject<P>>)
        ensures
            match r {
                Some(o) => indexed_object(*map, self@.entity_handles, entity_id@) == Some(*o),
                None => indexed_object(*map, self@.entity_handles, entity_id@) is None,
            },
    {
        match self.entity_handles.get(entity_id) {
            Some(handle) => map.object_from_handle(*handle),
            None => None,
        }
    }

    /// Records that the entity `entity_id` now stands at `new_pos`.
    pub fn set_entity_world_pos(&mut self, entity_id: String, new_pos: P)
        ensures
            final(self)@ == moved_to(old(self)@, entity_id@, new_pos),
    {
        self.entity_position_overrides.insert(entity_id, new_pos);
    }

    /// Enables or disables the entity `entity_id`.
    pub fn set_entity_enabled(&mut self, entity_id: String, enabled: bool)
        ensures
            final(self)@ == with_enabled(old(self)@, entity_id@, enabled),
    {
        if enabled {
            self.disabled_entities.remove(entity_id.as_str());
        } else {
            self.disabled_entities.insert(entity_id);
        }
    }

    /// How many objects are marked as colliders.
    pub fn collider_count(&self) -> (r: usize)
        ensures
            r == self@.collider_handles.len(),
    {
        self.collider_handles.len()
    }

    /// How many distinct entity ids are indexed.
    pub fn entity_count(&self) -> (r: usize)
        ensures
            r == self@.entity_handles.len(),
    {
        self.entity_handles.len()
    }

    /// How many distinct spawn ids are indexed.
    pub fn spawn_count(&self) -> (r: usize)
        ensures
            r == self@.spawn_handles.len(),
    {
        self.spawn_handles.len()
    }
}

impl<P: Copy> WorldTruthIndex<P> {
    /// Where the entity `entity_id` currently stands, if it is enabled and known.
    pub fn entity_world_pos(&self, map: &TiledMap<P>, entity_id: &str) -> (r: Option<P>)
        ensures
            r == world_position(self@, *map, entity_id@),
    {
        if self.disabled_entities.contains(entity_id) {
            return None;
        }
        match self.entity_position_overrides.get(entity_id) {
            Some(pos) => {
                return Some(*pos);
            },
            None => {},
        }
        match self.get_entity(map, entity_id) {
            Some(obj) => Some(obj.position),
            None => None,
        }
    }
}

impl<P> TiledMap<P> {
    /// The object at `h` is of class `class_name`, compared ignoring ASCII case.
    pub open spec fn is_actor(&self, h: ObjectHandle, class_name: Seq<char>) -> bool {
        eq_ignore_ascii_case(self.object_at(h).class_name@, class_name)
    }

    /// `h` names the first object (in map order) of class `class_name`.
    pub open spec fn is_first_actor(&self, h: ObjectHandle, class_name: Seq<char>) -> bool {
        &&& self.handle_valid(h)
        &&& self.is_actor(h, class_name)
        &&& forall|g: ObjectHandle| #![trigger self.is_actor(g, class_name)] self.handle_valid(g) && handle_before(g, h) ==> !self.is_actor(g, class_name)
    }

    /// The first object (in map order) of class `class_name`, if there is one.
    pub open spec fn first_actor(&self, class_name: Seq<char>) -> Option<ObjectHandle> {
        if exists|h: ObjectHandle| self.is_first_actor(h, class_name) {
            Some(choose|h: ObjectHandle| self.is_first_actor(h, class_name))
        } else {
            None
        }
    }

    /// Where the first object of class `class_name` stands, if there is one.
    pub open spec fn actor_position(&self, class_name: Seq<char>) -> Option<P> {
        match self.first_actor(class_name) {
            Some(h) => Some(self.object_at(h).position),
            None => None,
        }
    }
}

/// There is at most one first object of a class.
pub proof fn lemma_first_actor_unique<P>(map: &TiledMap<P>, a: ObjectHandle, b: ObjectHandle, class_name: Seq<char>)
    requires
        map.is_first_actor(a, class_name),
        map.is_first_actor(b, class_name),
    ensures
        a == b,
{
    if handle_before(a, b) {
        assert(!map.is_actor(a, class_name));
    } else if handle_before(b, a) {
        assert(!map.is_actor(b, class_name));
    }
}

/// Where the first object (in map order) whose class is `actor_class_name`,
/// compared ignoring ASCII case, stands.
pub fn find_actor_position<P: Copy>(map: &TiledMap<P>, actor_class_name: &str) -> (r: Option<P>)
    ensures
        r == map.actor_position(actor_class_name@),
        r is None <==> forall|h: ObjectHandle| map.handle_valid(h) ==> !#[trigger] map.is_actor(h, actor_class_name@),
{
    let ghost name = actor_class_name@;
    let mut layer_index: usize = 0;
    while layer_index < map.object_layers.len()
        invariant
            name == actor_class_name@,
            layer_index <= map.object_layers@.len(),
            forall|h: ObjectHandle| #![trigger map.is_actor(h, name)] map.handle_valid(h) && scanned(h, layer_index as int, 0) ==> !map.is_actor(h, name),
        decreases map.object_layers@.len() - layer_index,
    {
        let layer = &map.object_layers[layer_index];
        let mut object_index: usize = 0;
        while object_index < layer.objects.len()
            invariant
                name == actor_class_name@,
                layer_index < map.object_layers@.len(),
                *layer == map.object_layers@[layer_index as int],
                object_index <= layer.objects@.len(),
                forall|h: ObjectHandle| #![trigger map.is_actor(h, name)] map.handle_valid(h) && scanned(h, layer_index as int, object_index as int) ==> !map.is_actor(h, name),
            decreases layer.objects@.len() - object_index,
        {
            let object = &layer.objects[object_index];
            let ghost handle = ObjectHandle { layer_index, object_index };
            assert(map.object_at(handle) == *object);
            if eq_ignore_ascii_case_text(object.class_name.as_str(), actor_class_name) {
                proof {
                    assert forall|g: ObjectHandle| #![trigger map.is_actor(g, name)] map.handle_valid(g) && handle_before(g, handle) implies !map.is_actor(g, name) by {
                        assert(scanned(g, layer_index as int, object_index as int));
                    }
                    assert(map.is_first_actor(handle, name));
                    let c = choose|h: ObjectHandle| map.is_first_actor(h, name);
                    lemma_first_actor_unique(map, c, handle, name);
                }
                return Some(object.position);
            }
            object_index = object_index + 1;
        }
        proof {
            let n = layer.objects@.len() as int;
            assert forall|h: ObjectHandle| #![trigger map.is_actor(h, name)] map.handle_valid(h) && scanned(h, layer_index + 1, 0) implies !map.is_actor(h, name) by {
                assert(scanned(h, layer_index as int, n));
            }
        }
        layer_index = layer_index + 1;
    }
    proof {
        assert forall|h: ObjectHandle| map.handle_valid(h) implies !#[trigger] map.is_actor(h, name) by {
            assert(scanned(h, layer_index as int, 0));
        }
        if exists|h: ObjectHandle| map.is_first_actor(h, name) {
            let h = choose|h: ObjectHandle| map.is_first_actor(h, name);
            assert(map.is_actor(h, name));
        }
    }
    None
}

/// Why the game world could not be set up from a map.
#[derive(Debug, Clone, Copy, PartialEq, Eq, Structural)]
pub enum SetupError {
    /// The map has no object of class `Player`.
    MissingPlayer,
    /// The map has no object of class `Blacksmith`.
    MissingBlacksmith,
}

/// The state of a running game: the map, its index, the player and the blacksmith.
#[verifier::reject_recursive_types(P)]
pub struct GameState<P> {
    pub map: TiledMap<P>,
    pub world_truth: WorldTruthIndex<P>,
    pub player: PlayerData<P>,
    pub blacksmith: NpcData<P>,
}

impl<P: Copy> GameState<P> {
    /// Sets up the world of `map`: indexes it, and places the player and the
    /// blacksmith where the first objects of class `Player` and `Blacksmith`
    /// stand. Fails when the map lacks either (the player is looked for first).
    pub fn new(map: TiledMap<P>) -> (r: Result<Self, SetupError>)
        ensures
            match r {
                Ok(g) => {
                    &&& g.map == map
                    &&& g.world_truth@.is_fresh_index_of(map)
                    &&& map.actor_position("Player"@) == Some(g.player.position)
                    &&& map.actor_position("Blacksmith"@) == Some(g.blacksmith.position)
                    &&& g.player.is_new("player_01"@, "Player"@, g.player.position)
                    &&& g.blacksmith.is_new("blacksmith_01"@, "Blacksmith"@, NpcRole::Merchant, NpcAttitude::Friendly, g.blacksmith.position)
                },
                Err(SetupError::MissingPlayer) => map.actor_position("Player"@) is None,
                Err(SetupError::MissingBlacksmith) => {
                    &&& map.actor_position("Player"@) is Some
                    &&& map.actor_position("Blacksmith"@) is None
                },
            },
    {
        let world_truth = WorldTruthIndex::from_map(&map);
        let player_position = match find_actor_position(&map, "Player") {
            Some(p) => p,
            None => {
                return Err(SetupError::MissingPlayer);
            },
        };
        let blacksmith_position = match find_actor_position(&map, "Blacksmith") {
            Some(p) => p,
            None => {
                return Err(SetupError::MissingBlacksmith);
            },
        };
        let player = PlayerData::new(String::from_str("player_01"), String::from_str("Player"), player_position);
        let blacksmith = NpcData::new(
            String::from_str("blacksmith_01"),
            String::from_str("Blacksmith"),
            NpcRole::Merchant,
            NpcAttitude::Friendly,
            blacksmith_position,
        );
        Ok(GameState { map, world_truth, player, blacksmith })
    }
}

/// An entity that has been moved reads back at the place it was moved to,
/// unless it is disabled.
pub proof fn law_moved_entity_reads_back<P>(v: WorldTruthView<P>, map: TiledMap<P>, id: Seq<char>, pos: P)
    ensures
        world_position(moved_to(v, id, pos), map, id) == if v.disabled_entities.contains(id) {
            None
        } else {
            Some(pos)
        },
{
}

/// Moving one entity leaves where every other entity stands unchanged.
pub proof fn law_move_leaves_others<P>(v: WorldTruthView<P>, map: TiledMap<P>, id: Seq<char>, other: Seq<char>, pos: P)
    requires
        id != other,
    ensures
        world_position(moved_to(v, id, pos), map, other) == world_position(v, map, other),
{
}

/// A disabled entity stands nowhere.
pub proof fn law_disabled_entity_has_no_position<P>(v: WorldTruthView<P>, map: TiledMap<P>, id: Seq<char>)
    ensures
        world_position(with_enabled(v, id, false), map, id) is None,
{
}

/// Disabling and then enabling an entity brings it back where it stood before,
/// moves included.
pub proof fn law_reenabled_entity_returns<P>(v: WorldTruthView<P>, map: TiledMap<P>, id: Seq<char>)
    requires
        !v.disabled_entities.contains(id),
    ensures
        world_position(with_enabled(with_enabled(v, id, false), id, true), map, id) == world_position(v, map, id),
{
}

/// Enabling or disabling one entity leaves where every other entity stands unchanged.
pub proof fn law_enabling_leaves_others<P>(v: WorldTruthView<P>, map: TiledMap<P>, id: Seq<char>, other: Seq<char>, enabled: bool)
    requires
        id != other,
    ensures
        world_position(with_enabled(v, id, enabled), map, other) == world_position(v, map, other),
{
}

/// In an index of `map`, an id is filed exactly when some object carries it,
/// and the object filed under it is the last one (in map order) carrying it.
pub proof fn law_indexed_object_is_last_carrier<P>(map: TiledMap<P>, index: Map<Seq<char>, ObjectHandle>, spawn: bool, id: Seq<char>)
    requires
        map.indexes_ids(index, spawn),
    ensures
        indexed_object(map, index, id) is Some <==> exists|h: ObjectHandle| map.handle_valid(h) && #[trigger] map.id_at(h, spawn) == Some(id),
        index.contains_key(id) ==> {
            &&& map.handle_valid(index[id])
            &&& map.id_at(index[id], spawn) == Some(id)
            &&& forall|h: ObjectHandle| map.handle_valid(h) && #[trigger] map.id_at(h, spawn) == Some(id) && h != index[id] ==> handle_before(h, index[id])
        },
{
    let n = map.object_layers@.len() as int;
    if exists|h: ObjectHandle| map.handle_valid(h) && #[trigger] map.id_at(h, spawn) == Some(id) {
        let h = choose|h: ObjectHandle| map.handle_valid(h) && #[trigger] map.id_at(h, spawn) == Some(id);
        assert(scanned(h, n, 0));
    }
    if index.contains_key(id) {
        assert forall|h: ObjectHandle| map.handle_valid(h) && #[trigger] map.id_at(h, spawn) == Some(id) && h != index[id] implies handle_before(h, index[id]) by {
            assert(scanned(h, n, 0));
        }
    }
}

/// In a freshly built index, an entity stands where the last object (in map
/// order) carrying its id stands, and nowhere if no object carries it.
pub proof fn law_fresh_index_reads_the_map<P>(v: WorldTruthView<P>, map: TiledMap<P>, id: Seq<char>)
    requires
        v.is_fresh_index_of(map),
    ensures
        world_position(v, map, id) == match indexed_object(map, v.entity_handles, id) {
            Some(o) => Some(o.position),
            None => None,
        },
        world_position(v, map, id) is Some <==> exists|h: ObjectHandle| map.handle_valid(h) && #[trigger] map.id_at(h, false) == Some(id),
{
    law_indexed_object_is_last_carrier(map, v.entity_handles, false, id);
}

} // verus!
