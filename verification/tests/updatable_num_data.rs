use std::cell::Cell;
use std::cmp::Ordering;
use std::rc::Rc;

use sentinel_num::policy::Maximize;
use sentinel_num::policy::Minimize;
use sentinel_num::updatable_num::UpdateResult;
use sentinel_num::updatable_num_data::PayloadExtremumTracker;

struct DropMe(Rc<Cell<i32>>);

impl Drop for DropMe {
    fn drop(&mut self) {
        self.0.set(self.0.get() + 1);
    }
}

type UpdateToMaxU128WithData = PayloadExtremumTracker<u128, Maximize, DropMe>;
type UpdateToMaxU8WithData = PayloadExtremumTracker<u8, Maximize, DropMe>;

#[test]
fn drop_test() {
    let dropped = Rc::new(Cell::new(0));

    let _ = UpdateToMaxU128WithData::new_with(100, DropMe(dropped.clone()));

    assert_eq!(dropped.get(), 1);
}

#[test]
fn drop_test_update() {
    let dropped = Rc::new(Cell::new(0));

    let mut v = UpdateToMaxU128WithData::new_with(100, DropMe(dropped.clone()));
    let _ = v.update(200, DropMe(dropped.clone()));

    std::mem::forget(v);

    assert_eq!(dropped.get(), 1);
}

#[test]
fn test_take() {
    let dropped = Rc::new(Cell::new(0));

    let v = UpdateToMaxU8WithData::new_with(100, DropMe(dropped.clone()));
    let (n, d) = v.take().unwrap();

    assert_eq!(n, 100);
    std::mem::forget(d);
}

#[test]
fn take_destroys_payload_exactly_once_by_the_caller() {
    let dropped = Rc::new(Cell::new(0));
    let v = UpdateToMaxU8WithData::new_with(100, DropMe(dropped.clone()));
    let pair = v.take().unwrap();
    assert_eq!(dropped.get(), 0);
    drop(pair);
    assert_eq!(dropped.get(), 1);
}

#[test]
fn take_of_empty_is_none() {
    let v = UpdateToMaxU8WithData::new();
    assert!(v.take().is_none());
}

#[test]
fn accepted_update_destroys_old_payload_exactly_once() {
    let first = Rc::new(Cell::new(0));
    let second = Rc::new(Cell::new(0));

    let mut v = UpdateToMaxU128WithData::new_with(100, DropMe(first.clone()));
    assert!(v.update(200, DropMe(second.clone())).unwrap().is_update());
    assert_eq!(first.get(), 1);
    assert_eq!(second.get(), 0);

    drop(v);
    assert_eq!(first.get(), 1);
    assert_eq!(second.get(), 1);
}

#[test]
fn rejected_update_keeps_old_payload() {
    let first = Rc::new(Cell::new(0));
    let second = Rc::new(Cell::new(0));

    let mut v = UpdateToMaxU128WithData::new_with(100, DropMe(first.clone()));
    assert!(v.update(50, DropMe(second.clone())).unwrap().is_notupdate());
    assert_eq!(first.get(), 0);
    assert_eq!(second.get(), 1);
    assert_eq!(v.get().unwrap().0, &100);
}

#[test]
fn set_replaces_value_and_payload() {
    let mut v = PayloadExtremumTracker::<u32, Minimize, String>::new();
    v.set(9, String::from("nine")).unwrap();
    v.set(2, String::from("two")).unwrap();
    assert_eq!(v.get().unwrap(), (&2, &String::from("two")));
    assert!(v.set(u32::MAX, String::from("sentinel")).is_err());
    assert_eq!(v.get().unwrap(), (&2, &String::from("two")));
}

#[test]
fn init_destroys_payload_and_empties() {
    let dropped = Rc::new(Cell::new(0));
    let mut v = UpdateToMaxU128WithData::new_with(100, DropMe(dropped.clone()));
    v.init();
    assert_eq!(dropped.get(), 1);
    assert!(!v.has_value());
    assert!(v.get().is_none());
}

#[test]
fn tie_gives_mutable_access_to_value_and_payload() {
    let mut v = PayloadExtremumTracker::<u32, Minimize, String>::new();
    let _ = v.update(10, String::from("old"));
    match v.update(10, String::from("new")) {
        Ok(UpdateResult::Equal((_, payload))) => {
            payload.push_str(" merged");
        }
        _ => panic!("expected a tie"),
    }
    assert_eq!(v.get().unwrap(), (&10, &String::from("old merged")));
}

#[test]
fn payload_update_sentinel_is_rejected_without_mutation() {
    let mut v = PayloadExtremumTracker::<u32, Minimize, String>::new();
    assert!(v.update(u32::MAX, String::from("x")).is_err());
    assert!(v.get().is_none());
    let _ = v.update(10, String::from("ten"));
    assert!(v.update(u32::MAX, String::from("x")).is_err());
    assert_eq!(v.get().unwrap(), (&10, &String::from("ten")));
}

#[test]
fn get_mut_writes_both_parts() {
    let mut v = PayloadExtremumTracker::<u32, Minimize, String>::new();
    assert!(v.get_mut().is_none());
    let _ = v.update(10, String::from("ten"));
    {
        let (value, payload) = v.get_mut().unwrap();
        *value = 4;
        payload.push_str(" -> four");
    }
    assert_eq!(v.get().unwrap(), (&4, &String::from("ten -> four")));
}

#[test]
fn clone_duplicates_value_and_payload() {
    let v = PayloadExtremumTracker::<u32, Minimize, String>::new_with(3, String::from("three"));
    let w = v.clone();
    assert_eq!(w.get().unwrap(), (&3, &String::from("three")));
    assert_eq!(v.get().unwrap(), (&3, &String::from("three")));

    let empty = PayloadExtremumTracker::<u32, Minimize, String>::new();
    let empty_clone = empty.clone();
    assert!(empty_clone.get().is_none());
}

#[test]
fn equality_compares_values_of_non_empty_trackers_only() {
    let a = PayloadExtremumTracker::<u32, Minimize, String>::new_with(5, String::from("a"));
    let b = PayloadExtremumTracker::<u32, Minimize, String>::new_with(5, String::from("b"));
    let c = PayloadExtremumTracker::<u32, Minimize, String>::new_with(6, String::from("c"));
    let empty = PayloadExtremumTracker::<u32, Minimize, String>::new();
    assert!(a == b);
    assert!(a != c);
    assert!(a != empty);
    assert!(empty != empty);
}

#[test]
fn ordering_follows_values_of_non_empty_trackers() {
    let a = PayloadExtremumTracker::<i64, Maximize, String>::new_with(-3, String::from("a"));
    let b = PayloadExtremumTracker::<i64, Maximize, String>::new_with(8, String::from("b"));
    let empty = PayloadExtremumTracker::<i64, Maximize, String>::new();
    assert_eq!(a.partial_cmp(&b), Some(Ordering::Less));
    assert_eq!(b.partial_cmp(&a), Some(Ordering::Greater));
    assert_eq!(a.partial_cmp(&a), Some(Ordering::Equal));
    assert!(empty.partial_cmp(&a).is_none());
    assert!(a.partial_cmp(&empty).is_none());
}
