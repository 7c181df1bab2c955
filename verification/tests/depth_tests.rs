use atra::depth::{DepthDescriptor, DepthField};
use std::cmp::Ordering;

#[test]
fn depth_works() {
    let depth_a = DepthDescriptor::new(3, 4, 5);
    let depth_b = DepthDescriptor::new(2, 4, 6);
    let depth_c = DepthDescriptor::new(3, 4, 5);
    let depth_expected = DepthDescriptor::new(2, 4, 5);

    assert_eq!(depth_a, depth_c);
    assert!(depth_a >= depth_c);
    assert!(depth_b < depth_c);
    assert_eq!(depth_expected, depth_a.merge_to_lowes(&depth_b).merge_to_lowes(&depth_c))
}

#[test]
fn zero_and_default_are_all_zero() {
    assert_eq!(DepthDescriptor::zero(), DepthDescriptor::new(0, 0, 0));
    assert_eq!(DepthDescriptor::default(), DepthDescriptor::zero());
    assert_eq!(DepthDescriptor::zero().as_tuple(), (0, 0, 0));
}

#[test]
fn merge_is_commutative_associative_and_idempotent() {
    let a = DepthDescriptor::new(7, 1, 9);
    let b = DepthDescriptor::new(3, 8, 2);
    let c = DepthDescriptor::new(5, 5, 5);
    assert_eq!(a.merge_to_lowes(&b), b.merge_to_lowes(&a));
    assert_eq!(a.merge_to_lowes(&b).merge_to_lowes(&c), a.merge_to_lowes(&b.merge_to_lowes(&c)));
    assert_eq!(a.merge_to_lowes(&a), a);
    assert_eq!(a.merge_to_lowes(&b), DepthDescriptor::new(3, 1, 2));
}

#[test]
fn operators_work_field_wise() {
    let a = DepthDescriptor::new(3, 4, 5);
    let b = DepthDescriptor::new(1, 2, 3);
    assert_eq!(a + b, DepthDescriptor::new(4, 6, 8));
    assert_eq!(a - b, DepthDescriptor::new(2, 2, 2));
    assert_eq!(a | b, DepthDescriptor::new(1, 2, 3));
    assert_eq!(a & b, DepthDescriptor::new(3, 4, 5));
    assert_eq!((a + b) - b, a);
    assert_eq!(a | (a & b), a);
    assert_eq!(a & (a | b), a);
}

#[test]
fn subtracting_a_tuple_or_field_adds_it() {
    let a = DepthDescriptor::new(3, 4, 5);
    assert_eq!(a + (1, 1, 1), DepthDescriptor::new(4, 5, 6));
    assert_eq!(a - (1, 1, 1), DepthDescriptor::new(4, 5, 6));
    assert_eq!(a + DepthField::DistanceToSeed(2), DepthDescriptor::new(3, 6, 5));
    assert_eq!(a - DepthField::DistanceToSeed(2), DepthDescriptor::new(3, 6, 5));
    assert_eq!(a | (1, 9, 1), DepthDescriptor::new(1, 4, 1));
    assert_eq!(a & (1, 9, 1), DepthDescriptor::new(3, 9, 5));
    assert_eq!(a | DepthField::DepthOnWebsite(1), DepthDescriptor::new(1, 0, 0));
    assert_eq!(a & DepthField::TotalDistanceToSeed(9), DepthDescriptor::new(3, 4, 9));
}

#[test]
fn assign_operations_change_in_place() {
    let mut a = DepthDescriptor::new(3, 4, 5);
    a.add_assign(DepthDescriptor::new(1, 1, 1));
    assert_eq!(a, DepthDescriptor::new(4, 5, 6));
    a.sub_assign(DepthDescriptor::new(1, 1, 1));
    assert_eq!(a, DepthDescriptor::new(3, 4, 5));
    a.bitor_assign(DepthDescriptor::new(9, 1, 9));
    assert_eq!(a, DepthDescriptor::new(3, 1, 5));
    a.bitand_assign(DepthDescriptor::new(0, 7, 0));
    assert_eq!(a, DepthDescriptor::new(3, 7, 5));
    a.add_assign_field(DepthField::DepthOnWebsite(2));
    assert_eq!(a, DepthDescriptor::new(5, 7, 5));
    a.sub_assign_field(DepthField::TotalDistanceToSeed(5));
    assert_eq!(a, DepthDescriptor::new(5, 7, 0));
    a.add_assign_tuple((1, 2, 3));
    assert_eq!(a, DepthDescriptor::new(6, 9, 3));
    a.sub_assign_tuple((1, 2, 3));
    assert_eq!(a, DepthDescriptor::new(5, 7, 0));
    a.bitand_assign_tuple((6, 0, 1));
    assert_eq!(a, DepthDescriptor::new(6, 7, 1));
    a.bitor_assign_tuple((9, 2, 9));
    assert_eq!(a, DepthDescriptor::new(6, 2, 1));
    a.bitand_assign_field(DepthField::DistanceToSeed(4));
    assert_eq!(a, DepthDescriptor::new(6, 4, 1));
    a.bitor_assign_field(DepthField::DistanceToSeed(3));
    assert_eq!(a, DepthDescriptor::new(0, 3, 0));
}

#[test]
fn set_writes_one_field() {
    let mut a = DepthDescriptor::new(3, 4, 5);
    a.set(DepthField::DistanceToSeed(10));
    assert_eq!(a, DepthDescriptor::new(3, 10, 5));
    a.set(DepthField::DepthOnWebsite(0));
    assert_eq!(a, DepthDescriptor::new(0, 10, 5));
    a.set(DepthField::TotalDistanceToSeed(1));
    assert_eq!(a, DepthDescriptor::new(0, 10, 1));
}

#[test]
fn tuples_convert_both_ways() {
    let a: DepthDescriptor = (1, 2, 3).into();
    assert_eq!(a, DepthDescriptor::new(1, 2, 3));
    let t: (u64, u64, u64) = a.into();
    assert_eq!(t, (1, 2, 3));
    let f: DepthDescriptor = DepthField::TotalDistanceToSeed(8).into();
    assert_eq!(f, DepthDescriptor::new(0, 0, 8));
}

#[test]
fn fields_add_subtract_and_take_max_or_min() {
    assert_eq!(DepthField::DepthOnWebsite(3) + 2, DepthField::DepthOnWebsite(5));
    assert_eq!(DepthField::DistanceToSeed(3) - 2, DepthField::DistanceToSeed(1));
    assert_eq!(DepthField::TotalDistanceToSeed(6) & 3, DepthField::TotalDistanceToSeed(6));
    assert_eq!(DepthField::TotalDistanceToSeed(2) & 3, DepthField::TotalDistanceToSeed(3));
    assert_eq!(DepthField::TotalDistanceToSeed(4) | 3, DepthField::TotalDistanceToSeed(3));
    assert_eq!(DepthField::DepthOnWebsite(1) | 3, DepthField::DepthOnWebsite(1));
}

#[test]
fn comparison_is_less_as_soon_as_one_field_is_smaller() {
    let a = DepthDescriptor::new(1, 2, 0);
    let b = DepthDescriptor::new(2, 1, 0);
    assert_eq!(a.partial_cmp(&b), Some(Ordering::Less));
    assert_eq!(b.partial_cmp(&a), Some(Ordering::Less));
    assert_eq!(a.partial_cmp(&a), Some(Ordering::Equal));
    let big = DepthDescriptor::new(5, 5, 5);
    let small = DepthDescriptor::new(1, 1, 1);
    assert_eq!(big.partial_cmp(&small), Some(Ordering::Greater));
    assert!(small < big);
}
