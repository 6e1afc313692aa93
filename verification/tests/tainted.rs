//! The hand-written fallible implementations on `Tainted`, including the
//! failure propagation of the provided derived methods.

use std::collections::hash_map::DefaultHasher;
use std::hash::Hasher;

use try_traits::clone::TryClone;
use try_traits::cmp::TryOrd;
use try_traits::cmp::TryPartialEq;
use try_traits::cmp::TryPartialOrd;
use try_traits::convert::TryAsMut;
use try_traits::convert::TryAsRef;
use try_traits::default::TryDefault;
use try_traits::hash::TryHash;
use try_traits::tainted::TaintError;
use try_traits::tainted::Tainted;

#[test]
fn clean_values_compare() {
    assert_eq!(Tainted::new(3).try_eq(&Tainted::new(3)), Ok(true));
    assert_eq!(Tainted::new(3).try_eq(&Tainted::new(4)), Ok(false));
    assert_eq!(Tainted::new(3).try_ne(&Tainted::new(4)), Ok(true));
    assert_eq!(
        Tainted::new(2).try_partial_cmp(&Tainted::new(3)),
        Ok(Some(std::cmp::Ordering::Less))
    );
    assert_eq!(Tainted::new(2).try_lt(&Tainted::new(3)), Ok(true));
    assert_eq!(Tainted::new(2).try_le(&Tainted::new(2)), Ok(true));
    assert_eq!(Tainted::new(3).try_gt(&Tainted::new(2)), Ok(true));
    assert_eq!(Tainted::new(3).try_ge(&Tainted::new(4)), Ok(false));
    assert_eq!(
        Tainted::new(5).try_cmp(&Tainted::new(5)),
        Ok(std::cmp::Ordering::Equal)
    );
}

#[test]
fn tainted_operand_fails_primary() {
    assert_eq!(Tainted::bad(3).try_eq(&Tainted::new(3)), Err(TaintError));
    assert_eq!(Tainted::new(3).try_eq(&Tainted::bad(3)), Err(TaintError));
    assert_eq!(
        Tainted::bad(3).try_partial_cmp(&Tainted::new(3)),
        Err(TaintError)
    );
    assert_eq!(Tainted::bad(3).try_cmp(&Tainted::new(3)), Err(TaintError));
}

#[test]
fn derived_methods_short_circuit() {
    assert_eq!(Tainted::bad(1).try_ne(&Tainted::new(2)), Err(TaintError));
    assert_eq!(Tainted::bad(1).try_lt(&Tainted::new(2)), Err(TaintError));
    assert_eq!(Tainted::bad(1).try_le(&Tainted::new(2)), Err(TaintError));
    assert_eq!(Tainted::bad(1).try_gt(&Tainted::new(2)), Err(TaintError));
    assert_eq!(Tainted::bad(1).try_ge(&Tainted::new(2)), Err(TaintError));
    let max = Tainted::bad(1).try_max(Tainted::new(2));
    assert_eq!(max.map(|t| t.value), Err(TaintError));
    let min = Tainted::new(1).try_min(Tainted::bad(2));
    assert_eq!(min.map(|t| t.value), Err(TaintError));
    let clamped = Tainted::bad(5).try_clamp(Tainted::new(1), Tainted::new(3));
    assert_eq!(clamped.map(|t| t.value), Err(TaintError));
}

#[test]
fn max_min_clamp_on_clean_values() {
    assert_eq!(Tainted::new(2).try_max(Tainted::new(5)).map(|t| t.value), Ok(5));
    assert_eq!(Tainted::new(5).try_max(Tainted::new(2)).map(|t| t.value), Ok(5));
    assert_eq!(Tainted::new(2).try_min(Tainted::new(5)).map(|t| t.value), Ok(2));
    assert_eq!(
        Tainted::new(0)
            .try_clamp(Tainted::new(1), Tainted::new(3))
            .map(|t| t.value),
        Ok(1)
    );
    assert_eq!(
        Tainted::new(5)
            .try_clamp(Tainted::new(1), Tainted::new(3))
            .map(|t| t.value),
        Ok(3)
    );
    assert_eq!(
        Tainted::new(2)
            .try_clamp(Tainted::new(1), Tainted::new(3))
            .map(|t| t.value),
        Ok(2)
    );
}

#[test]
fn clone_fails_on_tainted_source() {
    assert_eq!(Tainted::new(7).try_clone().map(|t| t.value), Ok(7));
    assert_eq!(Tainted::bad(7).try_clone().map(|t| t.value), Err(TaintError));
}

#[test]
fn clone_from_keeps_target_on_failure() {
    let mut target = Tainted::new(1);
    let source = Tainted::bad(9);
    assert_eq!(target.try_clone_from(&source), Err(TaintError));
    assert_eq!(target.value, 1);
    assert!(!target.tainted);
}

#[test]
fn clone_from_overwrites_target_on_success() {
    let mut target = Tainted::new(1);
    let source = Tainted::new(7);
    assert_eq!(target.try_clone_from(&source), Ok(()));
    assert_eq!(target.value, 7);
    assert!(!target.tainted);
}

#[test]
fn hash_fails_on_tainted_value() {
    let mut state = DefaultHasher::new();
    assert_eq!(Tainted::new(3).try_hash(&mut state), Ok(()));
    assert_eq!(Tainted::bad(3).try_hash(&mut state), Err(TaintError));
}

#[test]
fn hash_slice_stops_at_first_tainted_element() {
    let data = [Tainted::new(1), Tainted::bad(2), Tainted::new(3)];
    let mut state = DefaultHasher::new();
    assert_eq!(Tainted::try_hash_slice(&data, &mut state), Err(TaintError));
}

#[test]
fn hash_slice_of_clean_elements_matches_element_wise_hashing() {
    let data = [Tainted::new(1), Tainted::new(2), Tainted::new(3)];
    let mut whole = DefaultHasher::new();
    assert_eq!(Tainted::try_hash_slice(&data, &mut whole), Ok(()));
    let mut one_by_one = DefaultHasher::new();
    for item in &data {
        assert_eq!(item.try_hash(&mut one_by_one), Ok(()));
    }
    assert_eq!(whole.finish(), one_by_one.finish());
}

#[test]
fn default_is_the_clean_zero() {
    let d = <Tainted as TryDefault>::try_default().unwrap();
    assert_eq!(d.value, 0);
    assert!(!d.tainted);
}

#[test]
fn as_ref_reads_the_value() {
    let t = Tainted::new(5);
    let r: Result<&u64, TaintError> = t.try_as_ref();
    assert_eq!(r, Ok(&5));
    let b = Tainted::bad(5);
    let r: Result<&u64, TaintError> = b.try_as_ref();
    assert_eq!(r, Err(TaintError));
}

#[test]
fn as_mut_writes_the_value() {
    let mut t = Tainted::new(5);
    {
        let r: Result<&mut u64, TaintError> = t.try_as_mut();
        *r.unwrap() = 9;
    }
    assert_eq!(t.value, 9);
    let mut b = Tainted::bad(5);
    let r: Result<&mut u64, TaintError> = b.try_as_mut();
    assert_eq!(r, Err(TaintError));
}
