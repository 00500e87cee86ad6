use asaogea::types::resource_handle::{Resource, ResourceHandle, ResourcePool};

#[test]
fn a_resource_owns_its_value() {
    let mut pool: ResourcePool<u32> = ResourcePool::new();
    let r = Resource::new(&mut pool, 42);
    assert!(r.is_valid());
    assert_eq!(*pool.get_owned(&r), 42);
    assert_eq!(pool.reference_count(&r), 1);
}

#[test]
fn handles_see_the_value_and_count_as_references() {
    let mut pool: ResourcePool<String> = ResourcePool::new();
    let r = Resource::new(&mut pool, "mesh".to_string());
    let h = r.handle(&mut pool);
    assert!(h.is_valid(&pool));
    assert_eq!(pool.get(&h), "mesh");
    let h2 = h.clone(&mut pool);
    assert_eq!(pool.reference_count(&r), 3);
    pool.release_handle(h2);
    assert_eq!(pool.reference_count(&r), 2);
    pool.release_handle(h);
    assert_eq!(pool.reference_count(&r), 1);
}

#[test]
fn destroying_the_owner_invalidates_its_handles() {
    let mut pool: ResourcePool<u64> = ResourcePool::new();
    let r = Resource::new(&mut pool, 7);
    let h = r.handle(&mut pool);
    let hm = r.handle_mut(&mut pool);
    pool.destroy(r);
    assert!(!h.is_valid(&pool));
    assert!(!hm.is_valid(&pool));
    assert!(!pool.is_handle_valid(&h));
    pool.release_handle(h);
    pool.release_handle_mut(hm);
}

#[test]
fn changes_through_a_mutable_handle_are_seen_by_all() {
    let mut pool: ResourcePool<Vec<u8>> = ResourcePool::new();
    let r = Resource::new(&mut pool, vec![1, 2]);
    let hm = r.handle_mut(&mut pool);
    let h = hm.as_ref(&mut pool);
    pool.get_mut(&hm).push(3);
    assert_eq!(pool.get(&h), &vec![1, 2, 3]);
    let previous = pool.replace(&hm, vec![9]);
    assert_eq!(previous, vec![1, 2, 3]);
    assert_eq!(pool.get_owned(&r), &vec![9]);
    pool.get_owned_mut(&r).clear();
    assert!(pool.get(&h).is_empty());
    assert!(pool.is_handle_mut_valid(&hm));
}

#[test]
fn null_resources_and_handles_are_never_valid() {
    let mut pool: ResourcePool<i32> = ResourcePool::new();
    let r = Resource::null(&mut pool);
    assert!(!r.is_valid());
    let h = ResourceHandle::null(&mut pool);
    assert!(!h.is_valid(&pool));
}

#[test]
fn a_freed_slot_is_reused_without_reviving_old_handles() {
    let mut pool: ResourcePool<i32> = ResourcePool::new();
    let first = Resource::new(&mut pool, 1);
    let old_handle = first.handle(&mut pool);
    pool.release_handle(old_handle);
    let stale = first.handle(&mut pool);
    pool.destroy(first);
    // The slot is still held by `stale`, so a new resource takes another one.
    let second = Resource::new(&mut pool, 2);
    assert!(!stale.is_valid(&pool));
    pool.release_handle(stale);
    // Now the first slot is free and is taken again, under a new use.
    let third = Resource::new(&mut pool, 3);
    assert_eq!(*pool.get_owned(&second), 2);
    assert_eq!(*pool.get_owned(&third), 3);
    let h = third.handle(&mut pool);
    assert_eq!(*pool.get(&h), 3);
    assert_eq!(pool.reference_count(&third), 2);
    pool.destroy(third);
    assert!(!h.is_valid(&pool));
    assert!(second.is_valid());
}

#[test]
fn releasing_the_last_handle_after_the_owner_frees_the_slot() {
    let mut pool: ResourcePool<i32> = ResourcePool::new();
    let r = Resource::new(&mut pool, 5);
    let h = r.handle(&mut pool);
    pool.destroy(r);
    let h2 = h.clone(&mut pool);
    pool.release_handle(h);
    assert!(!h2.is_valid(&pool));
    pool.release_handle(h2);
    let again = Resource::new(&mut pool, 6);
    assert_eq!(*pool.get_owned(&again), 6);
    assert_eq!(pool.reference_count(&again), 1);
}
