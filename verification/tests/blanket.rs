//! The blanket delegations, exercised on standard types.

use std::any::TypeId;
use std::collections::hash_map::DefaultHasher;
use std::hash::Hash;
use std::hash::Hasher;

use try_traits::any::TryAny;
use try_traits::borrow::TryBorrow;
use try_traits::borrow::TryBorrowMut;
use try_traits::clone::TryClone;
use try_traits::cmp::TryOrd;
use try_traits::cmp::TryPartialEq;
use try_traits::cmp::TryPartialOrd;
use try_traits::ops::TryAdd;
use try_traits::ops::TryAddAssign;
use try_traits::ops::TryBitAnd;
use try_traits::ops::TryBitAndAssign;
use try_traits::ops::TryBitOr;
use try_traits::ops::TryBitOrAssign;
use try_traits::ops::TryBitXor;
use try_traits::ops::TryBitXorAssign;
use try_traits::ops::TryDiv;
use try_traits::ops::TryDivAssign;
use try_traits::ops::TryIndex;
use try_traits::ops::TryIndexMut;
use try_traits::ops::TryMul;
use try_traits::ops::TryMulAssign;
use try_traits::ops::TryNeg;
use try_traits::ops::TryNot;
use try_traits::ops::TryRem;
use try_traits::ops::TryRemAssign;
use try_traits::ops::TryShl;
use try_traits::ops::TryShlAssign;
use try_traits::ops::TryShr;
use try_traits::ops::TryShrAssign;
use try_traits::ops::TrySub;
use try_traits::ops::TrySubAssign;
use try_traits::default::TryDefault;
use try_traits::hash::TryHash;

#[test]
fn eq_delegates() {
    assert!(3u8.try_eq(&3).unwrap());
    assert!(!3u8.try_eq(&4).unwrap());
    assert!(!3u8.try_ne(&3).unwrap());
    assert!(3u8.try_ne(&4).unwrap());
    assert!("ab".try_eq(&"ab").unwrap());
    assert!("ab".try_ne(&"cd").unwrap());
    let a = String::from("hi");
    let b = String::from("hi");
    assert!(a.try_eq(&b).unwrap());
}

#[test]
fn ordering_delegates() {
    assert_eq!(2u32.try_partial_cmp(&3), Ok(Some(std::cmp::Ordering::Less)));
    assert!(2u32.try_lt(&3).unwrap());
    assert!(2u32.try_le(&2).unwrap());
    assert!(3u32.try_gt(&2).unwrap());
    assert!(3u32.try_ge(&3).unwrap());
    assert!(!3u32.try_lt(&3).unwrap());
    assert_eq!(2i64.try_cmp(&2), Ok(std::cmp::Ordering::Equal));
}

#[test]
fn incomparable_operands_compare_false() {
    let nan = f32::NAN;
    assert_eq!(nan.try_partial_cmp(&1.0f32), Ok(None));
    assert_eq!(nan.try_lt(&1.0f32), Ok(false));
    assert_eq!(nan.try_le(&1.0f32), Ok(false));
    assert_eq!(nan.try_gt(&1.0f32), Ok(false));
    assert_eq!(nan.try_ge(&1.0f32), Ok(false));
}

#[test]
fn max_min_delegate() {
    assert_eq!(2u8.try_max(5), Ok(5));
    assert_eq!(5u8.try_max(2), Ok(5));
    assert_eq!(2u8.try_min(5), Ok(2));
    assert_eq!(5u8.try_min(2), Ok(2));
}

#[test]
fn clamp_matches_infallible_clamp() {
    assert_eq!(0u32.try_clamp(1, 3), Ok(1));
    assert_eq!(2u32.try_clamp(1, 3), Ok(2));
    assert_eq!(5u32.try_clamp(1, 3), Ok(3));
    assert_eq!(1u32.try_clamp(1, 3), Ok(1));
    assert_eq!(3u32.try_clamp(1, 3), Ok(3));
    for v in 0u32..10 {
        assert_eq!(v.try_clamp(2, 7), Ok(v.clamp(2, 7)));
    }
}

#[test]
fn arithmetic_delegates() {
    assert_eq!(2u32.try_add(3), Ok(5));
    assert_eq!(7u32.try_sub(3), Ok(4));
    assert_eq!(6u32.try_mul(7), Ok(42));
    assert_eq!(7u32.try_div(2), Ok(3));
    assert_eq!(7u32.try_rem(2), Ok(1));
    assert_eq!(5i32.try_neg(), Ok(-5));
}

#[test]
fn arithmetic_assign_delegates() {
    let mut x: u32 = 5;
    assert_eq!(x.try_add_assign(3), Ok(()));
    assert_eq!(x, 8);
    assert_eq!(x.try_sub_assign(2), Ok(()));
    assert_eq!(x, 6);
    assert_eq!(x.try_mul_assign(4), Ok(()));
    assert_eq!(x, 24);
    assert_eq!(x.try_div_assign(5), Ok(()));
    assert_eq!(x, 4);
    assert_eq!(x.try_rem_assign(3), Ok(()));
    assert_eq!(x, 1);
}

#[test]
fn bitwise_delegates() {
    assert_eq!(0b1100u8.try_bitand(0b1010), Ok(0b1000));
    assert_eq!(0b1100u8.try_bitor(0b1010), Ok(0b1110));
    assert_eq!(0b1100u8.try_bitxor(0b1010), Ok(0b0110));
    assert_eq!(0b0001u8.try_shl(3u8), Ok(0b1000));
    assert_eq!(0b1000u8.try_shr(2u8), Ok(0b0010));
    assert_eq!(0xF0u8.try_not(), Ok(0x0F));
    assert_eq!(true.try_not(), Ok(false));
}

#[test]
fn bitwise_assign_delegates() {
    let mut x: u8 = 0b1100;
    assert_eq!(x.try_bitand_assign(0b1010), Ok(()));
    assert_eq!(x, 0b1000);
    assert_eq!(x.try_bitor_assign(0b0011), Ok(()));
    assert_eq!(x, 0b1011);
    assert_eq!(x.try_bitxor_assign(0b0001), Ok(()));
    assert_eq!(x, 0b1010);
    assert_eq!(x.try_shl_assign(1u8), Ok(()));
    assert_eq!(x, 0b10100);
    assert_eq!(x.try_shr_assign(2u8), Ok(()));
    assert_eq!(x, 0b101);
}

#[test]
fn clone_delegates() {
    assert_eq!(5u64.try_clone(), Ok(5));
    let s = String::from("hello");
    assert_eq!(s.try_clone(), Ok(String::from("hello")));
}

#[test]
fn clone_from_overwrites_target() {
    let mut a: u64 = 1;
    assert_eq!(a.try_clone_from(&9), Ok(()));
    assert_eq!(a, 9);
    let mut s = String::from("old");
    assert_eq!(s.try_clone_from(&String::from("new")), Ok(()));
    assert_eq!(s, "new");
}

#[test]
fn default_delegates() {
    assert_eq!(<u32 as TryDefault>::try_default(), Ok(0));
    assert_eq!(<bool as TryDefault>::try_default(), Ok(false));
    assert_eq!(
        <String as TryDefault>::try_default(),
        Ok(String::new())
    );
}

#[test]
fn hash_matches_infallible_hash() {
    let mut fallible = DefaultHasher::new();
    assert_eq!(0xABCDu64.try_hash(&mut fallible), Ok(()));
    let mut infallible = DefaultHasher::new();
    0xABCDu64.hash(&mut infallible);
    assert_eq!(fallible.finish(), infallible.finish());
}

#[test]
fn hash_slice_matches_infallible_hash_slice() {
    let data: [u32; 3] = [1, 2, 3];
    let mut fallible = DefaultHasher::new();
    assert_eq!(u32::try_hash_slice(&data, &mut fallible), Ok(()));
    let mut infallible = DefaultHasher::new();
    u32::hash_slice(&data, &mut infallible);
    assert_eq!(fallible.finish(), infallible.finish());
}

#[test]
fn index_delegates() {
    let v: Vec<i32> = vec![10, 20, 30];
    assert_eq!(v.try_index(1), Ok(&20));
    assert_eq!(v.try_index(0), Ok(&10));
}

#[test]
fn index_mut_delegates() {
    let mut v: Vec<i32> = vec![10, 20, 30];
    *v.try_index_mut(2).unwrap() = 99;
    assert_eq!(v, vec![10, 20, 99]);
}

#[test]
fn borrow_delegates() {
    let s = String::from("abc");
    let borrowed: Result<&str, _> = s.try_borrow();
    assert_eq!(borrowed, Ok("abc"));
    let n: u8 = 7;
    let same: Result<&u8, _> = n.try_borrow();
    assert_eq!(same, Ok(&7));
}

#[test]
fn borrow_mut_hands_out_the_value_itself() {
    let mut n: u32 = 5;
    {
        let r: Result<&mut u32, _> = n.try_borrow_mut();
        *r.unwrap() = 11;
    }
    assert_eq!(n, 11);
}

#[test]
fn type_id_delegates() {
    assert_eq!(3u8.try_type_id(), Ok(TypeId::of::<u8>()));
    assert_eq!(String::from("x").try_type_id(), Ok(TypeId::of::<String>()));
    assert_ne!(3u8.try_type_id().unwrap(), TypeId::of::<u16>());
}
