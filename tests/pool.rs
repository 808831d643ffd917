use nexion::{PoolId, SlotPool};

#[test]
fn add_then_get_returns_payload() {
    let mut pool: SlotPool<String> = SlotPool::new();
    let a = pool.add("a".to_string());
    let b = pool.add("b".to_string());
    assert_eq!(pool.get_ref(a), "a");
    assert_eq!(pool.get_ref(b), "b");
    assert!(pool.contains(a));
    assert!(pool.contains(b));
}

#[test]
fn round_trip_add_delete() {
    let mut pool: SlotPool<u64> = SlotPool::new();
    let id = pool.add(42);
    assert_eq!(pool.delete(id), 42);
    assert!(!pool.contains(id));
}

#[test]
fn live_ids_track_history() {
    let mut pool: SlotPool<u32> = SlotPool::new();
    let a = pool.add(1);
    let b = pool.add(2);
    let c = pool.add(3);
    assert_eq!(pool.delete(b), 2);
    let d = pool.add(4);
    assert_eq!(pool.delete(a), 1);
    let e = pool.add(5);
    assert!(!pool.contains(a));
    assert!(!pool.contains(b));
    assert_eq!(*pool.get_ref(c), 3);
    assert_eq!(*pool.get_ref(d), 4);
    assert_eq!(*pool.get_ref(e), 5);
}

#[test]
fn freed_index_is_reused_lifo_with_new_generation() {
    let mut pool: SlotPool<u32> = SlotPool::new();
    let a = pool.add(10);
    let b = pool.add(20);
    pool.delete(a);
    pool.delete(b);
    let c = pool.add(30);
    assert_eq!(c.index, b.index);
    assert_eq!(c.generation, b.generation + 1);
    let d = pool.add(40);
    assert_eq!(d.index, a.index);
    assert_ne!(d, a);
    assert!(!pool.contains(a));
    assert!(!pool.contains(b));
    assert_eq!(*pool.get_ref(d), 40);
}

#[test]
fn first_ids_come_in_index_order() {
    let mut pool: SlotPool<u8> = SlotPool::new();
    for k in 0..70u32 {
        let id = pool.add(k as u8);
        assert_eq!(id.index, k);
        assert_eq!(id.generation, 0);
    }
}

#[test]
fn null_id_is_never_live() {
    let mut pool: SlotPool<u8> = SlotPool::new();
    pool.add(1);
    assert!(!pool.contains(PoolId::null()));
    assert_eq!(PoolId::null().index, u32::MAX);
    assert_eq!(PoolId::null().generation, 0);
}

#[test]
fn get_mut_changes_only_that_entry() {
    let mut pool: SlotPool<Vec<u8>> = SlotPool::new();
    let a = pool.add(vec![1, 2]);
    let b = pool.add(vec![3]);
    pool.get_mut(a).push(9);
    assert_eq!(pool.get_ref(a), &vec![1, 2, 9]);
    assert_eq!(pool.get_ref(b), &vec![3]);
}

#[test]
fn empty_pool_has_room() {
    let pool: SlotPool<u8> = SlotPool::new();
    assert!(pool.has_room());
}

#[test]
fn room_counts_down_by_one_per_add() {
    let mut pool: SlotPool<u8> = SlotPool::new();
    assert!(pool.has_room_for(1000));
    let a = pool.add(1);
    pool.add(2);
    pool.delete(a);
    assert!(pool.has_room_for(0xFFFF_FFC0 - 1));
    assert!(!pool.has_room_for(0xFFFF_FFC0));
}
