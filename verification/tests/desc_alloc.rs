use klystron::desc_set_allocator::{DescriptorKind, DescriptorSetAllocator, PoolSize};

fn texture_template() -> Vec<PoolSize> {
    vec![PoolSize { kind: DescriptorKind::CombinedImageSampler, count: 1 }]
}

#[test]
fn template_counts_are_scaled_by_the_batch_size() {
    let alloc = DescriptorSetAllocator::new(texture_template());
    let template = alloc.template();
    assert_eq!(template.len(), 1);
    assert_eq!(template[0].kind, DescriptorKind::CombinedImageSampler);
    assert_eq!(template[0].count, 15);
}

#[test]
fn exhausting_batches_allocates_exactly_one_pool_each() {
    // Popping more sets than one batch holds triggers exactly one new pool
    // allocation per exhausted batch, and every set returned is distinct.
    let mut alloc = DescriptorSetAllocator::new(texture_template());
    assert_eq!(alloc.pool_count(), 0);
    let mut ids: Vec<u64> = Vec::new();
    for i in 0..31 {
        let (id, fresh_pool) = alloc.pop().unwrap();
        // A new pool comes exactly when the previous batch is spent.
        assert_eq!(fresh_pool, i % 15 == 0, "pop {}", i);
        ids.push(id);
    }
    assert_eq!(alloc.pool_count(), 3);
    assert_eq!(alloc.spare_count(), 14);
    for (i, a) in ids.iter().enumerate() {
        for b in ids.iter().skip(i + 1) {
            assert_ne!(a, b, "every set handed out is distinct");
        }
    }
}

#[test]
fn sets_come_from_the_newest_batch() {
    let mut alloc = DescriptorSetAllocator::new(texture_template());
    let (first, fresh) = alloc.pop().unwrap();
    assert!(fresh);
    // The first batch covers ids 0..15, handed out from the back.
    assert_eq!(first, 14);
    let (second, fresh) = alloc.pop().unwrap();
    assert!(!fresh);
    assert_eq!(second, 13);
}
