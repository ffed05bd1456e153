use std::cmp::Ordering;

use sentinel_num::error::IllegalValue;
use sentinel_num::policy::Maximize;
use sentinel_num::policy::Minimize;
use sentinel_num::updatable_num::ExtremumTracker;
use sentinel_num::updatable_num::UpdateResult;

type UpdateToMinU32 = ExtremumTracker<u32, Minimize>;
type UpdateToMaxI128 = ExtremumTracker<i128, Maximize>;
type UpdateToMaxU128 = ExtremumTracker<u128, Maximize>;

#[test]
fn new_and_update_u32() {
    let mut v = UpdateToMinU32::new();

    assert_eq!(v.get(), None);

    let _ = v.update(10);
    assert_eq!(v.get(), Some(&10));

    let _ = v.update(20);
    assert_eq!(v.get(), Some(&10));

    let _ = v.update(5);
    assert_eq!(v.get(), Some(&5));

    *v.get_mut().unwrap() = 10;
    assert_eq!(v.get(), Some(&10));

    v.set(40).unwrap();
    assert_eq!(v.get(), Some(&40));

    v.init();
    assert_eq!(v.get(), None);
}

#[test]
fn new_and_update_i128() {
    let mut v = UpdateToMaxI128::new();

    assert_eq!(v.get(), None);

    let _ = v.update(10);
    assert_eq!(v.get(), Some(&10));

    let _ = v.update(5);
    assert_eq!(v.get(), Some(&10));

    let _ = v.update(20);
    assert_eq!(v.get(), Some(&20));

    *v.get_mut().unwrap() = 10;
    assert_eq!(v.get(), Some(&10));

    v.set(5).unwrap();
    assert_eq!(v.get(), Some(&5));

    v.init();
    assert_eq!(v.get(), None);
}

#[test]
fn compare_test() {
    let mut v1 = UpdateToMaxU128::new();
    let mut v2 = UpdateToMaxU128::new();

    assert!(v1.partial_cmp(&v2).is_none());

    v1.set(100).unwrap();
    assert!(v1.partial_cmp(&v2).is_none());

    v1.init();
    v2.set(200).unwrap();
    assert!(v1.partial_cmp(&v2).is_none());

    v1.set(100).unwrap();
    // 100 < 200: Less
    assert_eq!(v1.partial_cmp(&v2).unwrap(), Ordering::Less);
}

#[test]
fn minimize_u32_outcomes() {
    let mut v = UpdateToMinU32::new();
    assert!(v.update(10).unwrap().is_update());
    assert_eq!(v.get(), Some(&10));
    assert!(v.update(20).unwrap().is_notupdate());
    assert_eq!(v.get(), Some(&10));
    assert!(v.update(5).unwrap().is_update());
    assert_eq!(v.get(), Some(&5));
    assert!(matches!(v.update(5), Ok(UpdateResult::Equal(_))));
    assert_eq!(v.get(), Some(&5));
}

#[test]
fn maximize_i128_outcomes() {
    let mut v = UpdateToMaxI128::new();
    assert!(v.update(10).unwrap().is_update());
    assert!(v.update(5).unwrap().is_notupdate());
    assert_eq!(v.get(), Some(&10));
    assert!(v.update(20).unwrap().is_update());
    assert_eq!(v.get(), Some(&20));
}

#[test]
fn update_sentinel_is_rejected_without_mutation() {
    let mut v = UpdateToMinU32::new();
    assert!(v.update(u32::MAX).is_err());
    assert_eq!(v.get(), None);
    let _ = v.update(7);
    assert!(v.update(u32::MAX).is_err());
    assert_eq!(v.get(), Some(&7));
    assert_eq!(v.set(u32::MAX), Err(IllegalValue));
    assert_eq!(v.get(), Some(&7));
}

#[test]
fn empty_tracker_accepts_any_legal_candidate() {
    let mut low = UpdateToMinU32::new();
    assert!(low.update(u32::MAX - 1).unwrap().is_update());
    assert_eq!(low.get(), Some(&(u32::MAX - 1)));

    let mut high = UpdateToMaxI128::new();
    assert!(high.update(i128::MIN + 1).unwrap().is_update());
    assert_eq!(high.get(), Some(&(i128::MIN + 1)));
}

#[test]
fn has_value_reports_presence() {
    let mut v = UpdateToMaxU128::new();
    assert!(!v.has_value());
    v.set(1).unwrap();
    assert!(v.has_value());
    v.init();
    assert!(!v.has_value());
}

#[test]
fn new_with_starts_holding() {
    let v = UpdateToMinU32::new_with(10);
    assert_eq!(v.get(), Some(&10));
    let w = v.clone();
    assert_eq!(w.get(), Some(&10));
}

#[test]
fn tie_gives_mutable_access() {
    let mut v = UpdateToMinU32::new();
    let _ = v.update(10);
    match v.update(10) {
        Ok(UpdateResult::Equal(held)) => {
            *held = 8;
        }
        _ => panic!("expected a tie"),
    }
    assert_eq!(v.get(), Some(&8));
}

#[test]
fn map_equal_keeps_the_verdict() {
    let updated: UpdateResult<i32> = UpdateResult::Updated;
    assert!(updated.map_equal(|x| x + 1).is_update());

    let rejected: UpdateResult<i32> = UpdateResult::NotUpdated;
    assert!(rejected.map_equal(|x| x + 1).is_notupdate());

    let tied: UpdateResult<i32> = UpdateResult::Equal(3);
    match tied.map_equal(|x| x * 2) {
        UpdateResult::Equal(n) => assert_eq!(n, 6),
        _ => panic!("expected a tie"),
    }
}

#[test]
fn is_update_and_is_notupdate_tell_variants_apart() {
    let u: UpdateResult<()> = UpdateResult::Updated;
    assert!(u.is_update());
    assert!(!u.is_notupdate());
    let n: UpdateResult<()> = UpdateResult::NotUpdated;
    assert!(!n.is_update());
    assert!(n.is_notupdate());
    let e: UpdateResult<()> = UpdateResult::Equal(());
    assert!(!e.is_update());
    assert!(!e.is_notupdate());
}
