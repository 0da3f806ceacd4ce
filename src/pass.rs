//! The per-frame draw sequence of the textured pass, and the state it keeps
//! from one frame to the next: the per-object uniform slots, the bind-group
//! cache and the size of the depth buffer.
use std::collections::HashMap;
use vstd::prelude::*;

use crate::uniform_pool::{ensured_len, SlotHandle, SlotWrite, UniformPool};

verus! {

broadcast use vstd::std_specs::hash::group_hash_axioms;

/// Bytes of one per-object record: a 4x4 matrix of 32-bit numbers.
pub const LOCALS_SIZE: u64 = 64;

/// Bytes of the frame-wide record: the camera position padded to four
/// components, then a 4x4 view-projection matrix.
pub const GLOBALS_SIZE: u64 = 80;

/// What a cached bind group binds: one uniform slot and one texture.
#[derive(Clone, Copy, Debug, PartialEq, Eq, Structural)]
pub struct Binding {
    pub slot: SlotHandle,
    pub texture: u64,
}

/// One entity as the pass sees it: the identity of its texture, the number
/// of indices of its mesh, and its per-object uniform record.
pub struct DrawItem {
    pub texture: u64,
    pub index_count: u32,
    pub locals: Vec<u8>,
}

/// The bind group used for the entity at `index` this frame, and whether it
/// has to be created (true) or is the cached one (false).
#[derive(Clone, Copy, Debug, PartialEq, Eq, Structural)]
pub struct BindingUse {
    pub index: usize,
    pub binding: Binding,
    pub created: bool,
}

/// One indexed draw over the whole index range of the entity's mesh.
#[derive(Clone, Copy, Debug, PartialEq, Eq, Structural)]
pub struct DrawCall {
    pub entity: usize,
    pub index_count: u32,
}

/// The size of the depth buffer.
#[derive(Clone, Copy, Debug, PartialEq, Eq, Structural)]
pub struct DepthTarget {
    pub width: u32,
    pub height: u32,
}

/// Everything one frame does, in the order it is to be done: upload the
/// frame-wide record, reallocate the slab if `grow_to` says so, perform the
/// slot writes, create the bind groups marked as created, then record one
/// render pass that binds `bindings[i]` and issues `draws[i]` for each entity
/// in index order, submit it and present.
pub struct FramePlan {
    pub globals: Vec<u8>,
    pub grow_to: Option<usize>,
    pub writes: Vec<SlotWrite>,
    pub bindings: Vec<BindingUse>,
    pub draws: Vec<DrawCall>,
}

/// The binding that a frame uses for the entity at `index`: the cached one
/// if there is one, whatever the entity's texture now is; otherwise a new one
/// over the entity's slot in the current slab and its texture.
pub open spec fn planned_binding(
    cache: Map<usize, Binding>,
    generation: u64,
    items: Seq<DrawItem>,
    index: usize,
) -> Binding {
    if cache.contains_key(index) {
        cache[index]
    } else {
        Binding {
            slot: SlotHandle { generation, index },
            texture: items[index as int].texture,
        }
    }
}

/// The cache after a frame over `items`: every drawn index now has an entry,
/// and no entry is ever replaced or removed.
pub open spec fn cache_after(
    cache: Map<usize, Binding>,
    generation: u64,
    items: Seq<DrawItem>,
) -> Map<usize, Binding> {
    Map::new(
        |k: usize| cache.contains_key(k) || k < items.len(),
        |k: usize| planned_binding(cache, generation, items, k),
    )
}

/// The textured pass: per-object uniform slab, bind-group cache keyed by
/// entity index, and depth buffer size.
pub struct PhongPass {
    local_uniforms_pool: UniformPool,
    local_bind_groups: HashMap<usize, Binding>,
    depth: DepthTarget,
}

impl PhongPass {
    pub closed spec fn wf(&self) -> bool {
        &&& self.local_uniforms_pool.wf()
        &&& self.local_uniforms_pool.spec_slot_size() == LOCALS_SIZE
    }

    pub closed spec fn spec_pool(&self) -> UniformPool {
        self.local_uniforms_pool
    }

    pub closed spec fn spec_cache(&self) -> Map<usize, Binding> {
        self.local_bind_groups@
    }

    pub closed spec fn spec_depth(&self) -> DepthTarget {
        self.depth
    }

    /// A pass with an empty slab, an empty cache and a depth buffer of the
    /// surface's size.
    pub fn new(width: u32, height: u32) -> (r: Self)
        ensures
            r.wf(),
            r.spec_pool().spec_len() == 0,
            r.spec_pool().spec_generation() == 0,
            r.spec_pool().spec_slot_size() == LOCALS_SIZE,
            r.spec_cache() == Map::<usize, Binding>::empty(),
            r.spec_depth() == (DepthTarget { width, height }),
    {
        PhongPass {
            local_uniforms_pool: UniformPool::new("Local uniforms pool", LOCALS_SIZE),
            local_bind_groups: HashMap::new(),
            depth: DepthTarget { width, height },
        }
    }

    pub fn uniform_pool(&self) -> (r: &UniformPool)
        ensures
            *r == self.spec_pool(),
    {
        &self.local_uniforms_pool
    }

    pub fn depth_target(&self) -> (r: DepthTarget)
        ensures
            r == self.spec_depth(),
    {
        self.depth
    }

    /// The cached binding of the entity at `index`, if a frame has drawn it.
    pub fn cached_binding(&self, index: usize) -> (r: Option<Binding>)
        ensures
            r is Some <==> self.spec_cache().contains_key(index),
            r matches Some(b) ==> b == self.spec_cache()[index],
    {
        match self.local_bind_groups.get(&index) {
            Some(b) => Some(*b),
            None => None,
        }
    }

    /// How many bind groups are cached.
    pub fn cached_count(&self) -> (r: usize)
        ensures
            r == self.spec_cache().len(),
    {
        self.local_bind_groups.len()
    }

    /// The surface changed size: the depth buffer is recreated at the new
    /// size; the slab and the cache are left as they are.
    pub fn resize(&mut self, width: u32, height: u32) -> (r: DepthTarget)
        requires
            old(self).wf(),
        ensures
            final(self).wf(),
            r == (DepthTarget { width, height }),
            final(self).spec_depth() == r,
            final(self).spec_pool() == old(self).spec_pool(),
            final(self).spec_cache() == old(self).spec_cache(),
    {
        self.depth = DepthTarget { width, height };
        self.depth
    }

    /// Plans one frame over `entities`, drawn in index order.
    ///
    /// The frame-wide record is uploaded every frame. The slab is grown to
    /// exactly the entity count when it has fewer slots. Each entity's record
    /// is written to its slot of the current slab. An entity whose index has
    /// no cached bind group gets a new one, which is cached; an index that has
    /// one keeps it, even when the entity's texture changed since or the slab
    /// was reallocated since.
    pub fn draw(&mut self, entities: &Vec<DrawItem>, globals: Vec<u8>) -> (plan: FramePlan)
        requires
            old(self).wf(),
            globals@.len() <= GLOBALS_SIZE,
            forall|i: int| 0 <= i < entities@.len() ==> #[trigger] entities@[i].locals@.len() <= LOCALS_SIZE,
        ensures
            final(self).wf(),
            final(self).spec_pool().spec_len() == ensured_len(old(self).spec_pool().spec_len(), entities@.len()),
            final(self).spec_pool().spec_generation() == if old(self).spec_pool().spec_len() < entities@.len() {
                old(self).spec_pool().spec_generation() + 1
            } else {
                old(self).spec_pool().spec_generation() as int
            },
            final(self).spec_pool().spec_slot_size() == LOCALS_SIZE,
            final(self).spec_cache() == cache_after(
                old(self).spec_cache(),
                final(self).spec_pool().spec_generation(),
                entities@,
            ),
            final(self).spec_depth() == old(self).spec_depth(),
            plan.globals@ == globals@,
            plan.grow_to == if old(self).spec_pool().spec_len() < entities@.len() {
                Some(entities@.len() as usize)
            } else {
                None::<usize>
            },
            plan.writes@.len() == entities@.len(),
            plan.bindings@.len() == entities@.len(),
            plan.draws@.len() == entities@.len(),
            forall|i: int|
                0 <= i < entities@.len() ==> {
                    &&& (#[trigger] plan.writes@[i]).slot == (SlotHandle {
                        generation: final(self).spec_pool().spec_generation(),
                        index: i as usize,
                    })
                    &&& plan.writes@[i].data@ == entities@[i].locals@
                },
            forall|i: int|
                0 <= i < entities@.len() ==> #[trigger] plan.bindings@[i] == (BindingUse {
                    index: i as usize,
                    binding: planned_binding(
                        old(self).spec_cache(),
                        final(self).spec_pool().spec_generation(),
                        entities@,
                        i as usize,
                    ),
                    created: !old(self).spec_cache().contains_key(i as usize),
                }),
            forall|i: int|
                0 <= i < entities@.len() ==> #[trigger] plan.draws@[i] == (DrawCall {
                    entity: i as usize,
                    index_count: entities@[i].index_count,
                }),
    {
        let n = entities.len();
        let grew = self.local_uniforms_pool.ensure_capacity(n);
        let grow_to = if grew {
            Some(n)
        } else {
            None
        };
        let ghost cache0 = self.local_bind_groups@;
        let ghost generation = self.local_uniforms_pool.spec_generation();
        let ghost pool1 = self.local_uniforms_pool;
        let mut writes: Vec<SlotWrite> = Vec::new();
        let mut bindings: Vec<BindingUse> = Vec::new();
        let mut draws: Vec<DrawCall> = Vec::new();
        let mut i: usize = 0;
        while i < n
            invariant
                self.wf(),
                n == entities@.len(),
                i <= n,
                n <= self.local_uniforms_pool.spec_len(),
                generation == self.local_uniforms_pool.spec_generation(),
                self.local_uniforms_pool == pool1,
                self.depth == old(self).depth,
                forall|j: int| 0 <= j < n ==> #[trigger] entities@[j].locals@.len() <= LOCALS_SIZE,
                writes@.len() == i,
                bindings@.len() == i,
                draws@.len() == i,
                forall|k: usize|
                    #[trigger] self.local_bind_groups@.contains_key(k) <==> (cache0.contains_key(k) || k < i),
                forall|k: usize|
                    #[trigger] self.local_bind_groups@.contains_key(k) ==> self.local_bind_groups@[k]
                        == planned_binding(cache0, generation, entities@, k),
                forall|j: int|
                    0 <= j < i ==> {
                        &&& (#[trigger] writes@[j]).slot == (SlotHandle { generation, index: j as usize })
                        &&& writes@[j].data@ == entities@[j].locals@
                    },
                forall|j: int|
                    0 <= j < i ==> #[trigger] bindings@[j] == (BindingUse {
                        index: j as usize,
                        binding: planned_binding(cache0, generation, entities@, j as usize),
                        created: !cache0.contains_key(j as usize),
                    }),
                forall|j: int|
                    0 <= j < i ==> #[trigger] draws@[j] == (DrawCall {
                        entity: j as usize,
                        index_count: entities@[j].index_count,
                    }),
            decreases n - i,
        {
            let item = &entities[i];
            let data = item.locals.clone();
            assert(data@ =~= item.locals@);
            match self.local_uniforms_pool.update_uniform(i, data) {
                Some(w) => writes.push(w),
                None => {},
            }
            let cached = match self.local_bind_groups.get(&i) {
                Some(b) => Some(*b),
                None => None,
            };
            let used = match cached {
                Some(b) => BindingUse { index: i, binding: b, created: false },
                None => {
                    let b = Binding { slot: self.local_uniforms_pool.slot(i), texture: item.texture };
                    self.local_bind_groups.insert(i, b);
                    BindingUse { index: i, binding: b, created: true }
                },
            };
            bindings.push(used);
            draws.push(DrawCall { entity: i, index_count: item.index_count });
            i = i + 1;
        }
        assert(self.local_bind_groups@ =~= cache_after(cache0, generation, entities@));
        FramePlan { globals, grow_to, writes, bindings, draws }
    }
}

/// Once a frame has drawn an index, every later frame that draws the same
/// index uses the very same binding and creates none, whatever texture the
/// entity has by then and whatever happened to the slab in between: the cache
/// is never invalidated.
pub proof fn lemma_binding_reused(
    cache: Map<usize, Binding>,
    first_generation: u64,
    first: Seq<DrawItem>,
    second_generation: u64,
    second: Seq<DrawItem>,
    index: usize,
)
    requires
        index < first.len(),
        index < second.len(),
    ensures
        cache_after(cache, first_generation, first).contains_key(index),
        planned_binding(cache_after(cache, first_generation, first), second_generation, second, index)
            == planned_binding(cache, first_generation, first, index),
{
}

} // verus!
