//! The depth of an url: how deep it lies on its website, and how far it is from the seed.

use vstd::prelude::*;

verus! {

/// Describes the depth of an url.
#[derive(Debug, Clone, Copy, PartialEq, Eq, Structural, Hash)]
pub struct DepthDescriptor {
    /// The depth on the website
    pub depth_on_website: u64,
    /// The distance to the original seed.
    pub distance_to_seed: u64,
    /// The total amount of jumps from the seed
    pub total_distance_to_seed: u64,
}

/// Targets a specific field of a [`DepthDescriptor`].
#[derive(Debug, Clone, Copy, PartialEq, Eq, Structural, Hash)]
pub enum DepthField {
    DepthOnWebsite(u64),
    DistanceToSeed(u64),
    TotalDistanceToSeed(u64),
}

/// The smaller of two values.
pub open spec fn min_u64(a: u64, b: u64) -> u64 {
    if a <= b { a } else { b }
}

/// The larger of two values.
pub open spec fn max_u64(a: u64, b: u64) -> u64 {
    if a >= b { a } else { b }
}

fn exec_min(a: u64, b: u64) -> (r: u64)
    ensures r == min_u64(a, b),
{
    if a <= b { a } else { b }
}

fn exec_max(a: u64, b: u64) -> (r: u64)
    ensures r == max_u64(a, b),
{
    if a >= b { a } else { b }
}

/// The descriptor built from three values, in field order.
pub open spec fn depth_of(a: u64, b: u64, c: u64) -> DepthDescriptor {
    DepthDescriptor { depth_on_website: a, distance_to_seed: b, total_distance_to_seed: c }
}

/// The descriptor that holds the value of `field` in its field and zero elsewhere.
pub open spec fn field_as_depth(field: DepthField) -> DepthDescriptor {
    match field {
        DepthField::DepthOnWebsite(v) => depth_of(v, 0, 0),
        DepthField::DistanceToSeed(v) => depth_of(0, v, 0),
        DepthField::TotalDistanceToSeed(v) => depth_of(0, 0, v),
    }
}

/// The value a [`DepthField`] carries.
pub open spec fn field_value(field: DepthField) -> u64 {
    match field {
        DepthField::DepthOnWebsite(v) => v,
        DepthField::DistanceToSeed(v) => v,
        DepthField::TotalDistanceToSeed(v) => v,
    }
}

/// The same kind of field with another value.
pub open spec fn field_with_value(field: DepthField, v: u64) -> DepthField {
    match field {
        DepthField::DepthOnWebsite(_) => DepthField::DepthOnWebsite(v),
        DepthField::DistanceToSeed(_) => DepthField::DistanceToSeed(v),
        DepthField::TotalDistanceToSeed(_) => DepthField::TotalDistanceToSeed(v),
    }
}

impl DepthDescriptor {
    /// Field-wise minimum.
    pub open spec fn lowest(self, rhs: Self) -> Self {
        depth_of(
            min_u64(self.depth_on_website, rhs.depth_on_website),
            min_u64(self.distance_to_seed, rhs.distance_to_seed),
            min_u64(self.total_distance_to_seed, rhs.total_distance_to_seed),
        )
    }

    /// Field-wise maximum.
    pub open spec fn highest(self, rhs: Self) -> Self {
        depth_of(
            max_u64(self.depth_on_website, rhs.depth_on_website),
            max_u64(self.distance_to_seed, rhs.distance_to_seed),
            max_u64(self.total_distance_to_seed, rhs.total_distance_to_seed),
        )
    }

    /// True iff the field-wise sum fits into `u64`.
    pub open spec fn can_add(self, rhs: Self) -> bool {
        &&& self.depth_on_website + rhs.depth_on_website <= u64::MAX
        &&& self.distance_to_seed + rhs.distance_to_seed <= u64::MAX
        &&& self.total_distance_to_seed + rhs.total_distance_to_seed <= u64::MAX
    }

    /// Field-wise sum.
    pub open spec fn plus(self, rhs: Self) -> Self {
        depth_of(
            (self.depth_on_website + rhs.depth_on_website) as u64,
            (self.distance_to_seed + rhs.distance_to_seed) as u64,
            (self.total_distance_to_seed + rhs.total_distance_to_seed) as u64,
        )
    }

    /// True iff no field of `rhs` is larger than the one of `self`.
    pub open spec fn can_sub(self, rhs: Self) -> bool {
        &&& rhs.depth_on_website <= self.depth_on_website
        &&& rhs.distance_to_seed <= self.distance_to_seed
        &&& rhs.total_distance_to_seed <= self.total_distance_to_seed
    }

    /// Field-wise difference.
    pub open spec fn minus(self, rhs: Self) -> Self {
        depth_of(
            (self.depth_on_website - rhs.depth_on_website) as u64,
            (self.distance_to_seed - rhs.distance_to_seed) as u64,
            (self.total_distance_to_seed - rhs.total_distance_to_seed) as u64,
        )
    }

    /// The descriptor after `value` was written into its field.
    pub open spec fn with_field(self, value: DepthField) -> Self {
        match value {
            DepthField::DepthOnWebsite(v) => DepthDescriptor { depth_on_website: v, ..self },
            DepthField::DistanceToSeed(v) => DepthDescriptor { distance_to_seed: v, ..self },
            DepthField::TotalDistanceToSeed(v) => DepthDescriptor { total_distance_to_seed: v, ..self },
        }
    }

    /// The three values in field order.
    pub open spec fn tuple(self) -> (u64, u64, u64) {
        (self.depth_on_website, self.distance_to_seed, self.total_distance_to_seed)
    }

    /// The zero descriptor.
    pub fn zero() -> (r: Self)
        ensures r == depth_of(0, 0, 0),
    {
        Self::new(0, 0, 0)
    }

    pub fn new(depth_on_website: u64, distance_to_seed: u64, total_distance_to_seed: u64) -> (r: Self)
        ensures r == depth_of(depth_on_website, distance_to_seed, total_distance_to_seed),
    {
        Self { depth_on_website, distance_to_seed, total_distance_to_seed }
    }

    /// Merges the values to the lowest possible entry url
    pub fn merge_to_lowes(&self, rhs: &Self) -> (r: Self)
        ensures r == self.lowest(*rhs),
    {
        Self::new(
            exec_min(self.depth_on_website, rhs.depth_on_website),
            exec_min(self.distance_to_seed, rhs.distance_to_seed),
            exec_min(self.total_distance_to_seed, rhs.total_distance_to_seed),
        )
    }

    pub fn as_tuple(&self) -> (r: (u64, u64, u64))
        ensures r == self.tuple(),
    {
        (self.depth_on_website, self.distance_to_seed, self.total_distance_to_seed)
    }

    /// Overwrites the field that `value` targets.
    pub fn set(&mut self, value: DepthField)
        ensures *final(self) == old(self).with_field(value),
    {
        match value {
            DepthField::DepthOnWebsite(v) => { self.depth_on_website = v }
            DepthField::DistanceToSeed(v) => { self.distance_to_seed = v }
            DepthField::TotalDistanceToSeed(v) => { self.total_distance_to_seed = v }
        }
    }

    fn add_depth(self, rhs: Self) -> (r: Self)
        requires self.can_add(rhs),
        ensures r == self.plus(rhs),
    {
        Self::new(
            self.depth_on_website + rhs.depth_on_website,
            self.distance_to_seed + rhs.distance_to_seed,
            self.total_distance_to_seed + rhs.total_distance_to_seed,
        )
    }

    fn sub_depth(self, rhs: Self) -> (r: Self)
        requires self.can_sub(rhs),
        ensures r == self.minus(rhs),
    {
        Self::new(
            self.depth_on_website - rhs.depth_on_website,
            self.distance_to_seed - rhs.distance_to_seed,
            self.total_distance_to_seed - rhs.total_distance_to_seed,
        )
    }

    fn lowest_depth(self, rhs: Self) -> (r: Self)
        ensures r == self.lowest(rhs),
    {
        self.merge_to_lowes(&rhs)
    }

    fn highest_depth(self, rhs: Self) -> (r: Self)
        ensures r == self.highest(rhs),
    {
        Self::new(
            exec_max(self.depth_on_website, rhs.depth_on_website),
            exec_max(self.distance_to_seed, rhs.distance_to_seed),
            exec_max(self.total_distance_to_seed, rhs.total_distance_to_seed),
        )
    }

    /// `self += rhs`, field-wise.
    pub fn add_assign(&mut self, rhs: Self)
        requires old(self).can_add(rhs),
        ensures *final(self) == old(self).plus(rhs),
    {
        *self = self.add_depth(rhs);
    }

    /// `self -= rhs`, field-wise.
    pub fn sub_assign(&mut self, rhs: Self)
        requires old(self).can_sub(rhs),
        ensures *final(self) == old(self).minus(rhs),
    {
        *self = self.sub_depth(rhs);
    }

    /// `self |= rhs`: field-wise minimum.
    pub fn bitor_assign(&mut self, rhs: Self)
        ensures *final(self) == old(self).lowest(rhs),
    {
        *self = self.lowest_depth(rhs);
    }

    /// `self &= rhs`: field-wise maximum.
    pub fn bitand_assign(&mut self, rhs: Self)
        ensures *final(self) == old(self).highest(rhs),
    {
        *self = self.highest_depth(rhs);
    }

    /// `self += rhs` for a single field.
    pub fn add_assign_field(&mut self, rhs: DepthField)
        requires old(self).can_add(field_as_depth(rhs)),
        ensures *final(self) == old(self).plus(field_as_depth(rhs)),
    {
        let d = DepthDescriptor::from(rhs);
        self.add_assign(d);
    }

    /// `self -= rhs` for a single field.
    pub fn sub_assign_field(&mut self, rhs: DepthField)
        requires old(self).can_sub(field_as_depth(rhs)),
        ensures *final(self) == old(self).minus(field_as_depth(rhs)),
    {
        let d = DepthDescriptor::from(rhs);
        self.sub_assign(d);
    }

    /// `self |= rhs` for a single field: the field becomes the minimum, the others the minimum with zero.
    pub fn bitor_assign_field(&mut self, rhs: DepthField)
        ensures *final(self) == old(self).lowest(field_as_depth(rhs)),
    {
        let d = DepthDescriptor::from(rhs);
        self.bitor_assign(d);
    }

    /// `self &= rhs` for a single field.
    pub fn bitand_assign_field(&mut self, rhs: DepthField)
        ensures *final(self) == old(self).highest(field_as_depth(rhs)),
    {
        let d = DepthDescriptor::from(rhs);
        self.bitand_assign(d);
    }

    /// `self += rhs` for a tuple in field order.
    pub fn add_assign_tuple(&mut self, rhs: (u64, u64, u64))
        requires old(self).can_add(depth_of(rhs.0, rhs.1, rhs.2)),
        ensures *final(self) == old(self).plus(depth_of(rhs.0, rhs.1, rhs.2)),
    {
        let d = DepthDescriptor::from(rhs);
        self.add_assign(d);
    }

    /// `self -= rhs` for a tuple in field order.
    pub fn sub_assign_tuple(&mut self, rhs: (u64, u64, u64))
        requires old(self).can_sub(depth_of(rhs.0, rhs.1, rhs.2)),
        ensures *final(self) == old(self).minus(depth_of(rhs.0, rhs.1, rhs.2)),
    {
        let d = DepthDescriptor::from(rhs);
        self.sub_assign(d);
    }

    /// `self |= rhs` for a tuple in field order.
    pub fn bitor_assign_tuple(&mut self, rhs: (u64, u64, u64))
        ensures *final(self) == old(self).lowest(depth_of(rhs.0, rhs.1, rhs.2)),
    {
        let d = DepthDescriptor::from(rhs);
        self.bitor_assign(d);
    }

    /// `self &= rhs` for a tuple in field order.
    pub fn bitand_assign_tuple(&mut self, rhs: (u64, u64, u64))
        ensures *final(self) == old(self).highest(depth_of(rhs.0, rhs.1, rhs.2)),
    {
        let d = DepthDescriptor::from(rhs);
        self.bitand_assign(d);
    }
}

impl Default for DepthDescriptor {
    fn default() -> (r: Self)
        ensures r == depth_of(0, 0, 0),
    {
        Self::zero()
    }
}

impl core::ops::Add for DepthDescriptor {
    type Output = DepthDescriptor;

    fn add(self, rhs: Self) -> (r: Self::Output) {
        self.add_depth(rhs)
    }
}

impl vstd::std_specs::ops::AddSpecImpl for DepthDescriptor {
    open spec fn obeys_add_spec() -> bool { true }

    open spec fn add_req(self, rhs: Self) -> bool { self.can_add(rhs) }

    open spec fn add_spec(self, rhs: Self) -> Self { self.plus(rhs) }
}

impl core::ops::Sub for DepthDescriptor {
    type Output = DepthDescriptor;

    fn sub(self, rhs: Self) -> (r: Self::Output) {
        self.sub_depth(rhs)
    }
}

impl vstd::std_specs::ops::SubSpecImpl for DepthDescriptor {
    open spec fn obeys_sub_spec() -> bool { true }

    open spec fn sub_req(self, rhs: Self) -> bool { self.can_sub(rhs) }

    open spec fn sub_spec(self, rhs: Self) -> Self { self.minus(rhs) }
}

impl core::ops::BitOr for DepthDescriptor {
    type Output = DepthDescriptor;

    fn bitor(self, rhs: Self) -> (r: Self::Output) {
        self.lowest_depth(rhs)
    }
}

impl vstd::std_specs::ops::BitOrSpecImpl for DepthDescriptor {
    open spec fn obeys_bitor_spec() -> bool { true }

    open spec fn bitor_req(self, rhs: Self) -> bool { true }

    open spec fn bitor_spec(self, rhs: Self) -> Self { self.lowest(rhs) }
}

impl core::ops::BitAnd for DepthDescriptor {
    type Output = DepthDescriptor;

    fn bitand(self, rhs: Self) -> (r: Self::Output) {
        self.highest_depth(rhs)
    }
}

impl vstd::std_specs::ops::BitAndSpecImpl for DepthDescriptor {
    open spec fn obeys_bitand_spec() -> bool { true }

    open spec fn bitand_req(self, rhs: Self) -> bool { true }

    open spec fn bitand_spec(self, rhs: Self) -> Self { self.highest(rhs) }
}

impl core::ops::Add<(u64, u64, u64)> for DepthDescriptor {
    type Output = DepthDescriptor;

    fn add(self, rhs: (u64, u64, u64)) -> (r: Self::Output) {
        let d = DepthDescriptor::from(rhs);
        self.add_depth(d)
    }
}

impl vstd::std_specs::ops::AddSpecImpl<(u64, u64, u64)> for DepthDescriptor {
    open spec fn obeys_add_spec() -> bool { true }

    open spec fn add_req(self, rhs: (u64, u64, u64)) -> bool {
        self.can_add(depth_of(rhs.0, rhs.1, rhs.2))
    }

    open spec fn add_spec(self, rhs: (u64, u64, u64)) -> Self {
        self.plus(depth_of(rhs.0, rhs.1, rhs.2))
    }
}

/// Subtracting a tuple with `-` adds it, field by field: that is what this operator does,
/// while `-=` with a tuple subtracts it.
impl core::ops::Sub<(u64, u64, u64)> for DepthDescriptor {
    type Output = DepthDescriptor;

    fn sub(self, rhs: (u64, u64, u64)) -> (r: Self::Output) {
        let d = DepthDescriptor::from(rhs);
        self.add_depth(d)
    }
}

impl vstd::std_specs::ops::SubSpecImpl<(u64, u64, u64)> for DepthDescriptor {
    open spec fn obeys_sub_spec() -> bool { true }

    open spec fn sub_req(self, rhs: (u64, u64, u64)) -> bool {
        self.can_add(depth_of(rhs.0, rhs.1, rhs.2))
    }

    open spec fn sub_spec(self, rhs: (u64, u64, u64)) -> Self {
        self.plus(depth_of(rhs.0, rhs.1, rhs.2))
    }
}

impl core::ops::BitOr<(u64, u64, u64)> for DepthDescriptor {
    type Output = DepthDescriptor;

    fn bitor(self, rhs: (u64, u64, u64)) -> (r: Self::Output) {
        let d = DepthDescriptor::from(rhs);
        self.lowest_depth(d)
    }
}

impl vstd::std_specs::ops::BitOrSpecImpl<(u64, u64, u64)> for DepthDescriptor {
    open spec fn obeys_bitor_spec() -> bool { true }

    open spec fn bitor_req(self, rhs: (u64, u64, u64)) -> bool { true }

    open spec fn bitor_spec(self, rhs: (u64, u64, u64)) -> Self {
        self.lowest(depth_of(rhs.0, rhs.1, rhs.2))
    }
}

impl core::ops::BitAnd<(u64, u64, u64)> for DepthDescriptor {
    type Output = DepthDescriptor;

    fn bitand(self, rhs: (u64, u64, u64)) -> (r: Self::Output) {
        let d = DepthDescriptor::from(rhs);
        self.highest_depth(d)
    }
}

impl vstd::std_specs::ops::BitAndSpecImpl<(u64, u64, u64)> for DepthDescriptor {
    open spec fn obeys_bitand_spec() -> bool { true }

    open spec fn bitand_req(self, rhs: (u64, u64, u64)) -> bool { true }

    open spec fn bitand_spec(self, rhs: (u64, u64, u64)) -> Self {
        self.highest(depth_of(rhs.0, rhs.1, rhs.2))
    }
}

impl core::ops::Add<DepthField> for DepthDescriptor {
    type Output = DepthDescriptor;

    fn add(self, rhs: DepthField) -> (r: Self::Output) {
        let d = DepthDescriptor::from(rhs);
        self.add_depth(d)
    }
}

impl vstd::std_specs::ops::AddSpecImpl<DepthField> for DepthDescriptor {
    open spec fn obeys_add_spec() -> bool { true }

    open spec fn add_req(self, rhs: DepthField) -> bool { self.can_add(field_as_depth(rhs)) }

    open spec fn add_spec(self, rhs: DepthField) -> Self { self.plus(field_as_depth(rhs)) }
}

/// Subtracting a field with `-` adds it: that is what this operator does, while `-=` with a
/// field subtracts it.
impl core::ops::Sub<DepthField> for DepthDescriptor {
    type Output = DepthDescriptor;

    fn sub(self, rhs: DepthField) -> (r: Self::Output) {
        let d = DepthDescriptor::from(rhs);
        self.add_depth(d)
    }
}

impl vstd::std_specs::ops::SubSpecImpl<DepthField> for DepthDescriptor {
    open spec fn obeys_sub_spec() -> bool { true }

    open spec fn sub_req(self, rhs: DepthField) -> bool { self.can_add(field_as_depth(rhs)) }

    open spec fn sub_spec(self, rhs: DepthField) -> Self { self.plus(field_as_depth(rhs)) }
}

impl core::ops::BitOr<DepthField> for DepthDescriptor {
    type Output = DepthDescriptor;

    fn bitor(self, rhs: DepthField) -> (r: Self::Output) {
        let d = DepthDescriptor::from(rhs);
        self.lowest_depth(d)
    }
}

impl vstd::std_specs::ops::BitOrSpecImpl<DepthField> for DepthDescriptor {
    open spec fn obeys_bitor_spec() -> bool { true }

    open spec fn bitor_req(self, rhs: DepthField) -> bool { true }

    open spec fn bitor_spec(self, rhs: DepthField) -> Self { self.lowest(field_as_depth(rhs)) }
}

impl core::ops::BitAnd<DepthField> for DepthDescriptor {
    type Output = DepthDescriptor;

    fn bitand(self, rhs: DepthField) -> (r: Self::Output) {
        let d = DepthDescriptor::from(rhs);
        self.highest_depth(d)
    }
}

impl vstd::std_specs::ops::BitAndSpecImpl<DepthField> for DepthDescriptor {
    open spec fn obeys_bitand_spec() -> bool { true }

    open spec fn bitand_req(self, rhs: DepthField) -> bool { true }

    open spec fn bitand_spec(self, rhs: DepthField) -> Self { self.highest(field_as_depth(rhs)) }
}

impl From<(u64, u64, u64)> for DepthDescriptor {
    fn from(value: (u64, u64, u64)) -> (r: Self) {
        DepthDescriptor::new(value.0, value.1, value.2)
    }
}

impl vstd::std_specs::convert::FromSpecImpl<(u64, u64, u64)> for DepthDescriptor {
    open spec fn obeys_from_spec() -> bool { true }

    open spec fn from_spec(v: (u64, u64, u64)) -> Self { depth_of(v.0, v.1, v.2) }
}

impl From<DepthDescriptor> for (u64, u64, u64) {
    fn from(value: DepthDescriptor) -> (r: Self) {
        (value.depth_on_website, value.distance_to_seed, value.total_distance_to_seed)
    }
}

impl vstd::std_specs::convert::FromSpecImpl<DepthDescriptor> for (u64, u64, u64) {
    open spec fn obeys_from_spec() -> bool { true }

    open spec fn from_spec(v: DepthDescriptor) -> Self { v.tuple() }
}

impl From<DepthField> for DepthDescriptor {
    fn from(value: DepthField) -> (r: Self) {
        match value {
            DepthField::DepthOnWebsite(value) => DepthDescriptor::new(value, 0, 0),
            DepthField::DistanceToSeed(value) => DepthDescriptor::new(0, value, 0),
            DepthField::TotalDistanceToSeed(value) => DepthDescriptor::new(0, 0, value),
        }
    }
}

impl vstd::std_specs::convert::FromSpecImpl<DepthField> for DepthDescriptor {
    open spec fn obeys_from_spec() -> bool { true }

    open spec fn from_spec(v: DepthField) -> Self { field_as_depth(v) }
}

impl core::ops::Add<u64> for DepthField {
    type Output = DepthField;

    fn add(self, other: u64) -> (r: DepthField) {
        match self {
            DepthField::DepthOnWebsite(value) => DepthField::DepthOnWebsite(value + other),
            DepthField::DistanceToSeed(value) => DepthField::DistanceToSeed(value + other),
            DepthField::TotalDistanceToSeed(value) => DepthField::TotalDistanceToSeed(value + other),
        }
    }
}

impl vstd::std_specs::ops::AddSpecImpl<u64> for DepthField {
    open spec fn obeys_add_spec() -> bool { true }

    open spec fn add_req(self, rhs: u64) -> bool { field_value(self) + rhs <= u64::MAX }

    open spec fn add_spec(self, rhs: u64) -> Self {
        field_with_value(self, (field_value(self) + rhs) as u64)
    }
}

impl core::ops::Sub<u64> for DepthField {
    type Output = DepthField;

    fn sub(self, other: u64) -> (r: DepthField) {
        match self {
            DepthField::DepthOnWebsite(value) => DepthField::DepthOnWebsite(value - other),
            DepthField::DistanceToSeed(value) => DepthField::DistanceToSeed(value - other),
            DepthField::TotalDistanceToSeed(value) => DepthField::TotalDistanceToSeed(value - other),
        }
    }
}

impl vstd::std_specs::ops::SubSpecImpl<u64> for DepthField {
    open spec fn obeys_sub_spec() -> bool { true }

    open spec fn sub_req(self, rhs: u64) -> bool { rhs <= field_value(self) }

    open spec fn sub_spec(self, rhs: u64) -> Self {
        field_with_value(self, (field_value(self) - rhs) as u64)
    }
}

impl core::ops::BitAnd<u64> for DepthField {
    type Output = DepthField;

    fn bitand(self, other: u64) -> (r: DepthField) {
        match self {
            DepthField::DepthOnWebsite(value) => DepthField::DepthOnWebsite(exec_max(value, other)),
            DepthField::DistanceToSeed(value) => DepthField::DistanceToSeed(exec_max(value, other)),
            DepthField::TotalDistanceToSeed(value) => DepthField::TotalDistanceToSeed(exec_max(value, other)),
        }
    }
}

impl vstd::std_specs::ops::BitAndSpecImpl<u64> for DepthField {
    open spec fn obeys_bitand_spec() -> bool { true }

    open spec fn bitand_req(self, rhs: u64) -> bool { true }

    open spec fn bitand_spec(self, rhs: u64) -> Self {
        field_with_value(self, max_u64(field_value(self), rhs))
    }
}

impl core::ops::BitOr<u64> for DepthField {
    type Output = DepthField;

    fn bitor(self, other: u64) -> (r: DepthField) {
        match self {
            DepthField::DepthOnWebsite(value) => DepthField::DepthOnWebsite(exec_min(value, other)),
            DepthField::DistanceToSeed(value) => DepthField::DistanceToSeed(exec_min(value, other)),
            DepthField::TotalDistanceToSeed(value) => DepthField::TotalDistanceToSeed(exec_min(value, other)),
        }
    }
}

impl vstd::std_specs::ops::BitOrSpecImpl<u64> for DepthField {
    open spec fn obeys_bitor_spec() -> bool { true }

    open spec fn bitor_req(self, rhs: u64) -> bool { true }

    open spec fn bitor_spec(self, rhs: u64) -> Self {
        field_with_value(self, min_u64(field_value(self), rhs))
    }
}

/// Merging to the lowest depth does not depend on the order of the operands.
pub proof fn lemma_lowest_commutative(a: DepthDescriptor, b: DepthDescriptor)
    ensures a.lowest(b) == b.lowest(a),
{
}

/// Merging to the lowest depth can be grouped in any way.
pub proof fn lemma_lowest_associative(a: DepthDescriptor, b: DepthDescriptor, c: DepthDescriptor)
    ensures a.lowest(b).lowest(c) == a.lowest(b.lowest(c)),
{
}

/// Merging a depth with itself leaves it unchanged.
pub proof fn lemma_lowest_idempotent(a: DepthDescriptor)
    ensures a.lowest(a) == a,
{
}

/// The merged depth is field-wise below both operands, and it is the largest such depth.
pub proof fn lemma_lowest_is_greatest_lower_bound(a: DepthDescriptor, b: DepthDescriptor, c: DepthDescriptor)
    ensures
        a.lowest(b).depth_on_website <= a.depth_on_website,
        a.lowest(b).depth_on_website <= b.depth_on_website,
        a.lowest(b).distance_to_seed <= a.distance_to_seed,
        a.lowest(b).distance_to_seed <= b.distance_to_seed,
        a.lowest(b).total_distance_to_seed <= a.total_distance_to_seed,
        a.lowest(b).total_distance_to_seed <= b.total_distance_to_seed,
        (c.depth_on_website <= a.depth_on_website && c.depth_on_website <= b.depth_on_website
            && c.distance_to_seed <= a.distance_to_seed && c.distance_to_seed <= b.distance_to_seed
            && c.total_distance_to_seed <= a.total_distance_to_seed
            && c.total_distance_to_seed <= b.total_distance_to_seed) ==> (
            c.depth_on_website <= a.lowest(b).depth_on_website
            && c.distance_to_seed <= a.lowest(b).distance_to_seed
            && c.total_distance_to_seed <= a.lowest(b).total_distance_to_seed),
{
}

/// The field-wise maximum does not depend on the order of the operands.
pub proof fn lemma_highest_commutative(a: DepthDescriptor, b: DepthDescriptor)
    ensures a.highest(b) == b.highest(a),
{
}

/// Minimum and maximum absorb each other: `a | (a & b) == a` and `a & (a | b) == a`.
pub proof fn lemma_absorption(a: DepthDescriptor, b: DepthDescriptor)
    ensures
        a.lowest(a.highest(b)) == a,
        a.highest(a.lowest(b)) == a,
{
}

/// Subtracting what was added gives back the original depth.
pub proof fn lemma_sub_undoes_add(a: DepthDescriptor, b: DepthDescriptor)
    requires a.can_add(b),
    ensures
        a.plus(b).can_sub(b),
        a.plus(b).minus(b) == a,
{
}

/// Adding the zero depth changes nothing.
pub proof fn lemma_add_zero(a: DepthDescriptor)
    ensures
        a.can_add(depth_of(0, 0, 0)),
        a.plus(depth_of(0, 0, 0)) == a,
{
}

/// Converting a tuple to a depth and back gives the tuple, and the other way round.
pub proof fn lemma_tuple_round_trip(a: DepthDescriptor, t: (u64, u64, u64))
    ensures
        depth_of(t.0, t.1, t.2).tuple() == t,
        depth_of(a.tuple().0, a.tuple().1, a.tuple().2) == a,
{
}

/// Setting a field makes it hold the value and leaves the other fields unchanged.
pub proof fn lemma_set_then_read(a: DepthDescriptor, f: DepthField)
    ensures
        ({
            let b = a.with_field(f);
            match f {
                DepthField::DepthOnWebsite(v) => b.depth_on_website == v
                    && b.distance_to_seed == a.distance_to_seed
                    && b.total_distance_to_seed == a.total_distance_to_seed,
                DepthField::DistanceToSeed(v) => b.distance_to_seed == v
                    && b.depth_on_website == a.depth_on_website
                    && b.total_distance_to_seed == a.total_distance_to_seed,
                DepthField::TotalDistanceToSeed(v) => b.total_distance_to_seed == v
                    && b.depth_on_website == a.depth_on_website
                    && b.distance_to_seed == a.distance_to_seed,
            }
        }),
{
}

/// Adding a field to a depth adds its value to exactly that field.
pub proof fn lemma_add_field(a: DepthDescriptor, f: DepthField)
    requires a.can_add(field_as_depth(f)),
    ensures
        a.plus(field_as_depth(f)) == a.with_field(field_with_value(f, (field_value(match f {
            DepthField::DepthOnWebsite(_) => DepthField::DepthOnWebsite(a.depth_on_website),
            DepthField::DistanceToSeed(_) => DepthField::DistanceToSeed(a.distance_to_seed),
            DepthField::TotalDistanceToSeed(_) => DepthField::TotalDistanceToSeed(a.total_distance_to_seed),
        }) + field_value(f)) as u64)),
{
}

} // verus!
