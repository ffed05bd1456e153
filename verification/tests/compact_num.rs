use sentinel_num::compact_num::SentinelOptional;
use sentinel_num::error::IllegalValue;

#[test]
fn get_value() {
    let mut v = SentinelOptional::<u32>::new(10);
    assert!(v.get().is_none());

    v.set(20).unwrap();
    assert_eq!(v.get().unwrap(), &20);

    v.init();
    assert!(v.get().is_none());
}

#[test]
#[should_panic]
fn set_exception_value() {
    let mut v = SentinelOptional::<u32>::new(10);
    v.set(10).unwrap();
}

#[test]
fn set_sentinel_is_rejected_without_mutation() {
    let mut v = SentinelOptional::<u32>::new(10);
    v.set(20).unwrap();
    assert_eq!(v.set(10), Err(IllegalValue));
    assert_eq!(v.get(), Some(&20));
}

#[test]
fn new_with_starts_populated() {
    let v = SentinelOptional::<i64>::new_with(-1, 7);
    assert_eq!(v.get(), Some(&7));
    let empty = SentinelOptional::<i64>::new_with(-1, -1);
    assert_eq!(empty.get(), None);
}

#[test]
fn get_mut_writes_through() {
    let mut v = SentinelOptional::<u8>::new(0);
    assert!(v.get_mut().is_none());
    v.set(3).unwrap();
    *v.get_mut().unwrap() = 9;
    assert_eq!(v.get(), Some(&9));
}

#[test]
fn set_then_init_reads_back_absent() {
    let mut v = SentinelOptional::<u16>::new(u16::MAX);
    v.set(42).unwrap();
    v.init();
    assert_eq!(v.get(), None);
    v.init();
    assert_eq!(v.get(), None);
}

#[test]
fn optional_ordering_follows_values() {
    let mut a = SentinelOptional::<i32>::new(i32::MIN);
    let mut b = SentinelOptional::<i32>::new(i32::MIN);
    assert!(a.partial_cmp(&b).is_none());
    a.set(1).unwrap();
    assert!(a.partial_cmp(&b).is_none());
    b.set(2).unwrap();
    assert_eq!(a.partial_cmp(&b), Some(std::cmp::Ordering::Less));
    assert_eq!(b.partial_cmp(&a), Some(std::cmp::Ordering::Greater));
    b.set(1).unwrap();
    assert_eq!(a.partial_cmp(&b), Some(std::cmp::Ordering::Equal));
}

#[test]
fn optional_clone_keeps_state() {
    let mut v = SentinelOptional::<u64>::new(u64::MAX);
    v.set(5).unwrap();
    let w = v.clone();
    assert_eq!(w.get(), Some(&5));
}
