use wgpu_renderer::pass::{
    Binding, BindingUse, DepthTarget, DrawCall, DrawItem, PhongPass, GLOBALS_SIZE, LOCALS_SIZE,
};
use wgpu_renderer::uniform_pool::{SlotHandle, UniformPool};

fn item(texture: u64, index_count: u32, fill: u8) -> DrawItem {
    DrawItem {
        texture,
        index_count,
        locals: vec![fill; LOCALS_SIZE as usize],
    }
}

/// The column-major bytes of a translation matrix, as the caller uploads it.
fn translation_bytes(x: f32, y: f32, z: f32) -> Vec<u8> {
    let columns: [[f32; 4]; 4] = [
        [1.0, 0.0, 0.0, 0.0],
        [0.0, 1.0, 0.0, 0.0],
        [0.0, 0.0, 1.0, 0.0],
        [x, y, z, 1.0],
    ];
    columns.iter().flatten().flat_map(|v| v.to_le_bytes()).collect()
}

fn globals() -> Vec<u8> {
    vec![7; GLOBALS_SIZE as usize]
}

#[test]
fn new_pool_is_empty() {
    let pool = UniformPool::new("Local uniforms pool", 64);
    assert_eq!(pool.len(), 0);
    assert!(pool.is_empty());
    assert_eq!(pool.slot_size(), 64);
    assert_eq!(pool.generation(), 0);
    assert_eq!(pool.label(), "Local uniforms pool");
}

#[test]
fn ensure_capacity_grows_to_exact_count() {
    let mut pool = UniformPool::new("pool", 64);
    assert!(pool.ensure_capacity(4));
    assert_eq!(pool.len(), 4);
    assert_eq!(pool.generation(), 1);
    assert!(pool.ensure_capacity(5));
    assert_eq!(pool.len(), 5);
    assert_eq!(pool.generation(), 2);
}

#[test]
fn ensure_capacity_never_shrinks() {
    let mut pool = UniformPool::new("pool", 64);
    pool.ensure_capacity(3);
    assert!(!pool.ensure_capacity(2));
    assert_eq!(pool.len(), 3);
    assert!(!pool.ensure_capacity(3));
    assert_eq!(pool.len(), 3);
    assert_eq!(pool.generation(), 1);
}

#[test]
fn capacity_sequence_larger_then_smaller() {
    let mut grown = UniformPool::new("pool", 64);
    grown.ensure_capacity(3);
    grown.ensure_capacity(5);
    assert_eq!(grown.len(), 5);

    let mut kept = UniformPool::new("pool", 64);
    kept.ensure_capacity(3);
    kept.ensure_capacity(2);
    assert_eq!(kept.len(), 3);
}

#[test]
fn ensure_capacity_zero_on_empty_pool() {
    let mut pool = UniformPool::new("pool", 64);
    assert!(!pool.ensure_capacity(0));
    assert_eq!(pool.len(), 0);
    assert_eq!(pool.generation(), 0);
}

#[test]
fn alloc_buffers_replaces_slab() {
    let mut pool = UniformPool::new("pool", 16);
    pool.alloc_buffers(2);
    assert_eq!(pool.len(), 2);
    assert_eq!(pool.generation(), 1);
    assert_eq!(pool.slot_size(), 16);
}

#[test]
fn update_uniform_skips_empty_pool() {
    let pool = UniformPool::new("pool", 64);
    assert!(pool.update_uniform(0, vec![1, 2, 3]).is_none());
}

#[test]
fn update_uniform_targets_current_slab() {
    let mut pool = UniformPool::new("pool", 64);
    pool.ensure_capacity(2);
    pool.ensure_capacity(3);
    let w = pool.update_uniform(2, vec![9, 8, 7]).unwrap();
    assert_eq!(w.slot, SlotHandle { generation: 2, index: 2 });
    assert_eq!(w.data, vec![9, 8, 7]);
    assert_eq!(pool.slot(1), SlotHandle { generation: 2, index: 1 });
}

#[test]
fn new_pass_is_empty() {
    let pass = PhongPass::new(1600, 900);
    assert_eq!(pass.uniform_pool().len(), 0);
    assert_eq!(pass.uniform_pool().slot_size(), LOCALS_SIZE);
    assert_eq!(pass.cached_count(), 0);
    assert_eq!(pass.cached_binding(0), None);
    assert_eq!(pass.depth_target(), DepthTarget { width: 1600, height: 900 });
}

#[test]
fn four_entities_one_frame() {
    let mut pass = PhongPass::new(800, 600);
    let positions = [(1.0, 0.0, -2.0), (-1.0, 0.0, -2.0), (-1.0, 0.0, -4.0), (1.0, 0.0, -4.0)];
    let entities: Vec<DrawItem> = positions
        .iter()
        .map(|&(x, y, z)| DrawItem { texture: 1, index_count: 36, locals: translation_bytes(x, y, z) })
        .collect();
    let plan = pass.draw(&entities, globals());

    assert_eq!(pass.uniform_pool().len(), 4);
    assert_eq!(plan.grow_to, Some(4));
    assert_eq!(pass.cached_count(), 4);
    for i in 0..4 {
        assert!(pass.cached_binding(i).is_some());
    }
    assert_eq!(pass.cached_binding(4), None);

    assert_eq!(plan.draws.len(), 4);
    for (i, d) in plan.draws.iter().enumerate() {
        assert_eq!(*d, DrawCall { entity: i, index_count: 36 });
    }
    assert_eq!(plan.globals, globals());
    assert_eq!(plan.writes.len(), 4);
    for (i, w) in plan.writes.iter().enumerate() {
        let (x, y, z) = positions[i];
        assert_eq!(w.slot, SlotHandle { generation: 1, index: i });
        assert_eq!(w.data, translation_bytes(x, y, z));
        assert_eq!(w.data.len(), 64);
    }
    for (i, b) in plan.bindings.iter().enumerate() {
        assert!(b.created);
        assert_eq!(b.index, i);
        assert_eq!(
            b.binding,
            Binding { slot: SlotHandle { generation: 1, index: i }, texture: 1 }
        );
    }
}

#[test]
fn second_frame_reuses_bindings() {
    let mut pass = PhongPass::new(800, 600);
    let entities = vec![item(1, 6, 0), item(2, 6, 0)];
    let first = pass.draw(&entities, globals());
    let second = pass.draw(&entities, globals());

    assert_eq!(second.grow_to, None);
    assert_eq!(pass.uniform_pool().generation(), 1);
    for i in 0..2 {
        assert!(first.bindings[i].created);
        assert!(!second.bindings[i].created);
        assert_eq!(second.bindings[i].binding, first.bindings[i].binding);
    }
    assert_eq!(pass.cached_count(), 2);
}

#[test]
fn changed_texture_keeps_stale_binding() {
    let mut pass = PhongPass::new(800, 600);
    let first = pass.draw(&vec![item(5, 6, 0)], globals());
    let second = pass.draw(&vec![item(9, 6, 0)], globals());

    assert_eq!(
        second.bindings[0],
        BindingUse { index: 0, binding: first.bindings[0].binding, created: false }
    );
    assert_eq!(second.bindings[0].binding.texture, 5);
    assert_eq!(pass.cached_binding(0).unwrap().texture, 5);
}

#[test]
fn growth_keeps_old_bindings_on_old_slab() {
    let mut pass = PhongPass::new(800, 600);
    pass.draw(&vec![item(1, 3, 0), item(1, 3, 0)], globals());
    let plan = pass.draw(&vec![item(1, 3, 0), item(1, 3, 0), item(2, 3, 0)], globals());

    assert_eq!(plan.grow_to, Some(3));
    assert_eq!(pass.uniform_pool().len(), 3);
    assert_eq!(pass.uniform_pool().generation(), 2);
    assert_eq!(plan.writes[0].slot, SlotHandle { generation: 2, index: 0 });
    assert_eq!(plan.bindings[0].binding.slot, SlotHandle { generation: 1, index: 0 });
    assert!(!plan.bindings[1].created);
    assert!(plan.bindings[2].created);
    assert_eq!(
        plan.bindings[2].binding,
        Binding { slot: SlotHandle { generation: 2, index: 2 }, texture: 2 }
    );
}

#[test]
fn fewer_entities_draw_fewer_and_keep_slab() {
    let mut pass = PhongPass::new(800, 600);
    pass.draw(&vec![item(1, 3, 0), item(1, 3, 0), item(1, 3, 0)], globals());
    let plan = pass.draw(&vec![item(1, 12, 0)], globals());

    assert_eq!(plan.grow_to, None);
    assert_eq!(pass.uniform_pool().len(), 3);
    assert_eq!(plan.draws, vec![DrawCall { entity: 0, index_count: 12 }]);
    assert_eq!(plan.writes.len(), 1);
    assert_eq!(pass.cached_count(), 3);
}

#[test]
fn empty_frame_plans_nothing_but_globals() {
    let mut pass = PhongPass::new(800, 600);
    let plan = pass.draw(&Vec::new(), vec![1, 2]);
    assert_eq!(plan.globals, vec![1, 2]);
    assert_eq!(plan.grow_to, None);
    assert!(plan.writes.is_empty());
    assert!(plan.bindings.is_empty());
    assert!(plan.draws.is_empty());
    assert_eq!(pass.uniform_pool().len(), 0);
}

#[test]
fn resize_keeps_pool_and_cache() {
    let mut pass = PhongPass::new(1600, 900);
    let first = pass.draw(&vec![item(1, 36, 0), item(1, 36, 0)], globals());
    let depth = pass.resize(800, 600);

    assert_eq!(depth, DepthTarget { width: 800, height: 600 });
    assert_eq!(pass.depth_target(), depth);
    assert_eq!(pass.uniform_pool().len(), 2);
    assert_eq!(pass.uniform_pool().generation(), 1);
    assert_eq!(pass.cached_count(), 2);
    assert_eq!(pass.cached_binding(1), Some(first.bindings[1].binding));
}
