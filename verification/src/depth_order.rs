//! The order of depth descriptors used to compare urls.

use vstd::prelude::*;
use std::cmp::Ordering;
use crate::depth::DepthDescriptor;

verus! {

/// True iff some field of `a` is smaller than the same field of `b`.
pub open spec fn some_field_smaller(a: DepthDescriptor, b: DepthDescriptor) -> bool {
    ||| a.distance_to_seed < b.distance_to_seed
    ||| a.depth_on_website < b.depth_on_website
    ||| a.total_distance_to_seed < b.total_distance_to_seed
}

/// The comparison of two descriptors.
pub open spec fn compare_depths(a: DepthDescriptor, b: DepthDescriptor) -> Option<Ordering> {
    if a == b {
        Some(Ordering::Equal)
    } else if some_field_smaller(a, b) {
        Some(Ordering::Less)
    } else {
        Some(Ordering::Greater)
    }
}

impl PartialOrd for DepthDescriptor {
    /// Equal descriptors are equal; otherwise a descriptor is less than another as soon as
    /// one of its fields is smaller, and greater if none is.
    fn partial_cmp(&self, other: &Self) -> (r: Option<Ordering>) {
        if self.distance_to_seed == other.distance_to_seed
            && self.depth_on_website == other.depth_on_website
            && self.total_distance_to_seed == other.total_distance_to_seed {
            return Some(Ordering::Equal);
        }
        if self.distance_to_seed < other.distance_to_seed {
            return Some(Ordering::Less);
        }
        if self.depth_on_website < other.depth_on_website {
            return Some(Ordering::Less);
        }
        if self.total_distance_to_seed < other.total_distance_to_seed {
            return Some(Ordering::Less);
        }
        Some(Ordering::Greater)
    }
}

impl vstd::std_specs::cmp::PartialOrdSpecImpl for DepthDescriptor {
    open spec fn obeys_partial_cmp_spec() -> bool { true }

    open spec fn partial_cmp_spec(&self, other: &Self) -> Option<Ordering> {
        compare_depths(*self, *other)
    }
}

/// Two descriptors compare as equal exactly when they are equal.
pub proof fn lemma_equal_iff_same(a: DepthDescriptor, b: DepthDescriptor)
    ensures (compare_depths(a, b) == Some(Ordering::Equal)) <==> a == b,
{
}

/// The comparison always gives an answer.
pub proof fn lemma_always_comparable(a: DepthDescriptor, b: DepthDescriptor)
    ensures compare_depths(a, b) is Some,
{
}

/// A descriptor that is field-wise no larger than another, and differs from it, is less than it.
pub proof fn lemma_fieldwise_smaller_is_less(a: DepthDescriptor, b: DepthDescriptor)
    requires
        a.depth_on_website <= b.depth_on_website,
        a.distance_to_seed <= b.distance_to_seed,
        a.total_distance_to_seed <= b.total_distance_to_seed,
        a != b,
    ensures compare_depths(a, b) == Some(Ordering::Less),
{
}

} // verus!
