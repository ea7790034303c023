use aabb_instancing::vertex_pulling::index_buffer::{
    num_indices_for_cuboids, CuboidsIndexBuffer, CUBOID_INDEX_BLOCK, INDICES_PER_CUBOID,
};

#[test]
fn index_count_is_36_per_cuboid() {
    assert_eq!(num_indices_for_cuboids(0), 0);
    assert_eq!(num_indices_for_cuboids(1), 36);
    assert_eq!(num_indices_for_cuboids(2), 72);
    assert_eq!(num_indices_for_cuboids(3), 108);
    assert_eq!(num_indices_for_cuboids(5), 180);
    assert_eq!(num_indices_for_cuboids(1000), 36000);
}

#[test]
fn constants_are_consistent() {
    assert_eq!(INDICES_PER_CUBOID, 36);
    assert_eq!(CUBOID_INDEX_BLOCK, 64);
}

#[test]
fn fresh_generator_is_empty() {
    let ib = CuboidsIndexBuffer::new();
    assert_eq!(ib.capacity_cuboids(), 0);
    assert!(ib.buffer().is_none());
    assert!(ib.indices().is_empty());
}

#[test]
fn generation_follows_template() {
    let mut ib = CuboidsIndexBuffer::new();
    ib.ensure_capacity(2);
    // Requests round up to the block size.
    assert_eq!(ib.capacity_cuboids(), 64);
    assert!(ib.buffer().is_some());
    let indices = ib.indices();
    assert_eq!(indices.len(), 36 * 64);
    let template: [u32; 36] = [
        0, 1, 2, 1, 3, 2, 4, 6, 5, 5, 6, 7, 0, 4, 1, 1, 4, 5, 2, 3, 6, 3, 7, 6, 0, 2, 4, 2, 6, 4,
        1, 5, 3, 3, 5, 7,
    ];
    for j in 0..36 {
        assert_eq!(indices[j], template[j]);
        // Cuboid 1 references the eight corners after cuboid 0's.
        assert_eq!(indices[36 + j], 8 + template[j]);
        // A later cuboid follows the same pattern at its own base.
        assert_eq!(indices[36 * 63 + j], 8 * 63 + template[j]);
    }
    // Every template entry names one of the eight corners.
    for j in 0..36 {
        assert!(template[j] < 8);
    }
}

#[test]
fn capacity_never_shrinks() {
    let mut ib = CuboidsIndexBuffer::new();
    ib.ensure_capacity(100);
    assert_eq!(ib.capacity_cuboids(), 128);
    let buffer_after_growth = ib.buffer();
    ib.ensure_capacity(5);
    assert_eq!(ib.capacity_cuboids(), 128);
    // A covered request changes nothing, not even the GPU buffer.
    assert_eq!(ib.buffer(), buffer_after_growth);
    ib.ensure_capacity(0);
    assert_eq!(ib.capacity_cuboids(), 128);
}

#[test]
fn growth_regenerates_into_fresh_buffer() {
    let mut ib = CuboidsIndexBuffer::new();
    ib.ensure_capacity(64);
    assert_eq!(ib.capacity_cuboids(), 64);
    let first = ib.buffer().unwrap();
    ib.ensure_capacity(65);
    assert_eq!(ib.capacity_cuboids(), 128);
    let second = ib.buffer().unwrap();
    assert_ne!(first, second);
    assert_eq!(ib.indices().len(), 36 * 128);
}

#[test]
fn zero_request_allocates_nothing() {
    let mut ib = CuboidsIndexBuffer::new();
    ib.ensure_capacity(0);
    assert_eq!(ib.capacity_cuboids(), 0);
    assert!(ib.buffer().is_none());
}
