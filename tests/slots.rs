use rendiation::index_container::IndexContainer;

#[test]
fn insert_remove_insert_reuses_freed_index() {
    let mut pool = IndexContainer::new();
    assert_eq!(pool.set_item('A'), 0);
    assert_eq!(pool.set_item('B'), 1);
    assert_eq!(pool.set_item('C'), 2);
    pool.delete_item(1);
    assert_eq!(pool.set_item('D'), 1);
    assert_eq!(*pool.get(0), 'A');
    assert_eq!(*pool.get(1), 'D');
    assert_eq!(*pool.get(2), 'C');
    assert!(!pool.contains(3));
}

#[test]
fn most_recently_freed_index_is_reused_first() {
    let mut pool = IndexContainer::new();
    for v in 0..5u32 {
        assert_eq!(pool.set_item(v), v as usize);
    }
    pool.delete_item(1);
    pool.delete_item(3);
    assert_eq!(pool.set_item(30), 3);
    assert_eq!(pool.set_item(10), 1);
    assert_eq!(pool.set_item(50), 5);
}

#[test]
fn occupied_index_is_never_handed_out_again() {
    let mut pool = IndexContainer::new();
    let a = pool.set_item(1u8);
    let b = pool.set_item(2u8);
    pool.delete_item(a);
    let c = pool.set_item(3u8);
    let d = pool.set_item(4u8);
    assert_eq!(c, a);
    assert_ne!(d, b);
    assert_ne!(d, c);
    assert_eq!(*pool.get(b), 2);
}

#[test]
fn removed_slot_is_no_longer_readable() {
    let mut pool = IndexContainer::new();
    let i = pool.set_item(String::from("kept"));
    let j = pool.set_item(String::from("gone"));
    pool.delete_item(j);
    assert!(pool.contains(i));
    assert!(!pool.contains(j));
    assert_eq!(pool.get(i), "kept");
}

#[test]
fn get_mut_changes_only_its_slot() {
    let mut pool = IndexContainer::new();
    let i = pool.set_item(10i64);
    let j = pool.set_item(20i64);
    *pool.get_mut(j) += 5;
    assert_eq!(*pool.get(i), 10);
    assert_eq!(*pool.get(j), 25);
}

#[test]
fn empty_pool_holds_nothing() {
    let pool: IndexContainer<u8> = IndexContainer::new();
    assert!(!pool.contains(0));
}
