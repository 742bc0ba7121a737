//! ISL ranges: generic closed, half-open and unbounded intervals with
//! `min`/`max` sentinels and per-boundary inclusivity, instantiated at the
//! seven domains constraints range over (integers, non-negative integers,
//! timestamp precisions, timestamps, decimals, floats, and the unified
//! number tower), together with their construction from Ion values.

use crate::element::{
    dec_eq,
    dec_lt,
    Decimal,
    FloatValue,
    IonElement,
    IonType,
    IonValue,
    TimestampValue,
};
use crate::isl::util::TimestampPrecision;
use crate::isl::IslVersion;
use crate::result::{invalid_schema_error, IonSchemaResult};
use vstd::prelude::*;

verus! {

/// A domain that ranges can be formed over: an ordering for boundary
/// checks and the equality used to detect empty ranges. On floats the
/// ordering is partial: nothing orders against a not-a-number value.
pub trait RangeElement: Sized {
    /// Strictly-less-than in the domain's ordering.
    spec fn lt_spec(&self, other: &Self) -> bool;

    /// Less-than-or-equal in the domain's ordering.
    spec fn le_spec(&self, other: &Self) -> bool;

    /// The domain's equality on values, ignoring representation.
    spec fn eq_spec(&self, other: &Self) -> bool;

    fn value_lt(&self, other: &Self) -> (r: bool)
        ensures
            r == self.lt_spec(other),
    ;

    fn value_le(&self, other: &Self) -> (r: bool)
        ensures
            r == self.le_spec(other),
    ;

    fn value_eq(&self, other: &Self) -> (r: bool)
        ensures
            r == self.eq_spec(other),
    ;
}

impl RangeElement for i128 {
    open spec fn lt_spec(&self, other: &Self) -> bool {
        *self < *other
    }

    open spec fn le_spec(&self, other: &Self) -> bool {
        *self <= *other
    }

    open spec fn eq_spec(&self, other: &Self) -> bool {
        *self == *other
    }

    fn value_lt(&self, other: &Self) -> (r: bool) {
        *self < *other
    }

    fn value_le(&self, other: &Self) -> (r: bool) {
        *self <= *other
    }

    fn value_eq(&self, other: &Self) -> (r: bool) {
        *self == *other
    }
}

impl RangeElement for usize {
    open spec fn lt_spec(&self, other: &Self) -> bool {
        *self < *other
    }

    open spec fn le_spec(&self, other: &Self) -> bool {
        *self <= *other
    }

    open spec fn eq_spec(&self, other: &Self) -> bool {
        *self == *other
    }

    fn value_lt(&self, other: &Self) -> (r: bool) {
        *self < *other
    }

    fn value_le(&self, other: &Self) -> (r: bool) {
        *self <= *other
    }

    fn value_eq(&self, other: &Self) -> (r: bool) {
        *self == *other
    }
}

/// A value of the unified numeric tower: Ion ints, decimals and finite
/// floats all promote to one arbitrary-precision decimal representation
/// and are compared there.
#[derive(Debug, Clone, Copy)]
pub struct Number {
    pub value: Decimal,
}

impl PartialEq for Number {
    /// Numbers compare by the numeric value of their decimal
    /// representation.
    fn eq(&self, other: &Self) -> (r: bool) {
        self.value.eq_value(&other.value)
    }
}

impl vstd::std_specs::cmp::PartialEqSpecImpl for Number {
    open spec fn obeys_eq_spec() -> bool {
        true
    }

    open spec fn eq_spec(&self, other: &Self) -> bool {
        dec_eq(self.value, other.value)
    }
}

impl Number {
    pub fn new(value: Decimal) -> (r: Number)
        ensures
            r.value == value,
    {
        Number { value }
    }

    /// The decimal this number is represented by.
    pub fn decimal_value(&self) -> (r: &Decimal)
        ensures
            *r == self.value,
    {
        &self.value
    }

    /// An integer promoted into the tower.
    pub fn from_int(value: i128) -> (r: Number)
        ensures
            r.value.coefficient == value,
            r.value.scale == 0,
    {
        Number { value: Decimal { coefficient: value, scale: 0 } }
    }

    /// A decimal promoted into the tower.
    pub fn from_decimal(value: &Decimal) -> (r: Number)
        ensures
            r.value == *value,
    {
        Number { value: *value }
    }

    /// A float promoted into the tower: only finite floats denote a
    /// number, so not-a-number and the infinities are rejected.
    pub fn try_from_float(value: &FloatValue) -> (r: IonSchemaResult<Number>)
        ensures
            r is Ok <==> value is Finite,
            r matches Ok(n) ==> value matches FloatValue::Finite(d) && n.value == d,
    {
        match value {
            FloatValue::Finite(d) => Ok(Number { value: *d }),
            _ => invalid_schema_error("Cannot convert given float to Number"),
        }
    }
}

impl PartialOrd for Number {
    /// Numbers order by numeric value; the ordering is total.
    fn partial_cmp(&self, other: &Self) -> (r: Option<core::cmp::Ordering>) {
        self.value.partial_cmp(&other.value)
    }
}

impl vstd::std_specs::cmp::PartialOrdSpecImpl for Number {
    open spec fn obeys_partial_cmp_spec() -> bool {
        true
    }

    open spec fn partial_cmp_spec(&self, other: &Self) -> Option<core::cmp::Ordering> {
        Some(crate::element::spec_dec_cmp(self.value, other.value))
    }
}

impl RangeElement for TimestampPrecision {
    /// Precisions order by rank.
    open spec fn lt_spec(&self, other: &Self) -> bool {
        self.rank_spec() < other.rank_spec()
    }

    open spec fn le_spec(&self, other: &Self) -> bool {
        self.rank_spec() <= other.rank_spec()
    }

    /// Equality here is structural, so `second` and a zero-digit
    /// fractional precision stay distinct even though they rank equally.
    open spec fn eq_spec(&self, other: &Self) -> bool {
        *self == *other
    }

    fn value_lt(&self, other: &Self) -> (r: bool) {
        self.rank() < other.rank()
    }

    fn value_le(&self, other: &Self) -> (r: bool) {
        self.rank() <= other.rank()
    }

    fn value_eq(&self, other: &Self) -> (r: bool) {
        *self == *other
    }
}

impl RangeElement for Decimal {
    open spec fn lt_spec(&self, other: &Self) -> bool {
        dec_lt(*self, *other)
    }

    open spec fn le_spec(&self, other: &Self) -> bool {
        dec_lt(*self, *other) || dec_eq(*self, *other)
    }

    open spec fn eq_spec(&self, other: &Self) -> bool {
        dec_eq(*self, *other)
    }

    fn value_lt(&self, other: &Self) -> (r: bool) {
        self.lt(other)
    }

    fn value_le(&self, other: &Self) -> (r: bool) {
        self.le(other)
    }

    fn value_eq(&self, other: &Self) -> (r: bool) {
        self.eq_value(other)
    }
}

impl RangeElement for Number {
    open spec fn lt_spec(&self, other: &Self) -> bool {
        dec_lt(self.value, other.value)
    }

    open spec fn le_spec(&self, other: &Self) -> bool {
        dec_lt(self.value, other.value) || dec_eq(self.value, other.value)
    }

    open spec fn eq_spec(&self, other: &Self) -> bool {
        dec_eq(self.value, other.value)
    }

    fn value_lt(&self, other: &Self) -> (r: bool) {
        self.value.lt(&other.value)
    }

    fn value_le(&self, other: &Self) -> (r: bool) {
        self.value.le(&other.value)
    }

    fn value_eq(&self, other: &Self) -> (r: bool) {
        self.value.eq_value(&other.value)
    }
}

impl RangeElement for TimestampValue {
    /// Timestamps order by the instant they denote, whatever their
    /// precision or offset.
    open spec fn lt_spec(&self, other: &Self) -> bool {
        dec_lt(self.instant, other.instant)
    }

    open spec fn le_spec(&self, other: &Self) -> bool {
        dec_lt(self.instant, other.instant) || dec_eq(self.instant, other.instant)
    }

    open spec fn eq_spec(&self, other: &Self) -> bool {
        dec_eq(self.instant, other.instant)
    }

    fn value_lt(&self, other: &Self) -> (r: bool) {
        self.instant.lt(&other.instant)
    }

    fn value_le(&self, other: &Self) -> (r: bool) {
        self.instant.le(&other.instant)
    }

    fn value_eq(&self, other: &Self) -> (r: bool) {
        self.instant.eq_value(&other.instant)
    }
}

impl RangeElement for FloatValue {
    /// IEEE-754 ordering: nothing orders against not-a-number, the
    /// infinities bound everything else, and finite values compare as the
    /// decimals they denote (so the two zeros are equal).
    open spec fn lt_spec(&self, other: &Self) -> bool {
        match (self, other) {
            (FloatValue::NotANumber, _) => false,
            (_, FloatValue::NotANumber) => false,
            (FloatValue::NegativeInfinity, FloatValue::NegativeInfinity) => false,
            (FloatValue::NegativeInfinity, _) => true,
            (_, FloatValue::NegativeInfinity) => false,
            (FloatValue::PositiveInfinity, _) => false,
            (_, FloatValue::PositiveInfinity) => true,
            (FloatValue::Finite(a), FloatValue::Finite(b)) => dec_lt(*a, *b),
        }
    }

    open spec fn le_spec(&self, other: &Self) -> bool {
        self.lt_spec(other) || self.eq_spec(other)
    }

    open spec fn eq_spec(&self, other: &Self) -> bool {
        match (self, other) {
            (FloatValue::NegativeInfinity, FloatValue::NegativeInfinity) => true,
            (FloatValue::PositiveInfinity, FloatValue::PositiveInfinity) => true,
            (FloatValue::Finite(a), FloatValue::Finite(b)) => dec_eq(*a, *b),
            _ => false,
        }
    }

    fn value_lt(&self, other: &Self) -> (r: bool) {
        match (self, other) {
            (FloatValue::NotANumber, _) => false,
            (_, FloatValue::NotANumber) => false,
            (FloatValue::NegativeInfinity, FloatValue::NegativeInfinity) => false,
            (FloatValue::NegativeInfinity, _) => true,
            (_, FloatValue::NegativeInfinity) => false,
            (FloatValue::PositiveInfinity, _) => false,
            (_, FloatValue::PositiveInfinity) => true,
            (FloatValue::Finite(a), FloatValue::Finite(b)) => a.lt(b),
        }
    }

    fn value_le(&self, other: &Self) -> (r: bool) {
        match (self, other) {
            (FloatValue::NotANumber, _) => false,
            (_, FloatValue::NotANumber) => false,
            (FloatValue::NegativeInfinity, _) => true,
            (_, FloatValue::NegativeInfinity) => false,
            (_, FloatValue::PositiveInfinity) => true,
            (FloatValue::PositiveInfinity, _) => false,
            (FloatValue::Finite(a), FloatValue::Finite(b)) => a.le(b),
        }
    }

    fn value_eq(&self, other: &Self) -> (r: bool) {
        match (self, other) {
            (FloatValue::NegativeInfinity, FloatValue::NegativeInfinity) => true,
            (FloatValue::PositiveInfinity, FloatValue::PositiveInfinity) => true,
            (FloatValue::Finite(a), FloatValue::Finite(b)) => a.eq_value(b),
            _ => false,
        }
    }
}

/// Whether a boundary admits values equal to it.
#[derive(Debug, Clone, Copy, PartialEq, Eq, Structural)]
pub enum RangeBoundaryType {
    Inclusive,
    Exclusive,
}

/// A range boundary: the `min` or `max` sentinel, or a domain value with
/// its inclusivity.
#[derive(Debug)]
pub enum RangeBoundaryValue<T> {
    Max,
    Min,
    Value(T, RangeBoundaryType),
}

impl<T: RangeElement> RangeBoundaryValue<T> {
    /// Boundary equality as range construction sees it: each sentinel
    /// equals itself, and value boundaries compare by the domain's
    /// equality, ignoring inclusivity.
    pub open spec fn boundary_eq_spec(self, other: Self) -> bool {
        match (self, other) {
            (RangeBoundaryValue::Max, RangeBoundaryValue::Max) => true,
            (RangeBoundaryValue::Max, _) => false,
            (RangeBoundaryValue::Min, RangeBoundaryValue::Min) => true,
            (RangeBoundaryValue::Min, _) => false,
            (RangeBoundaryValue::Value(v1, _), RangeBoundaryValue::Value(v2, _)) => v1.eq_spec(
                &v2,
            ),
            (RangeBoundaryValue::Value(_, _), _) => false,
        }
    }

    /// Whether `self` orders strictly above `other`: `max` above
    /// everything, everything above `min`, and value boundaries by the
    /// domain's ordering.
    pub open spec fn boundary_gt_spec(self, other: Self) -> bool {
        match (self, other) {
            (RangeBoundaryValue::Max, _) => true,
            (_, RangeBoundaryValue::Min) => true,
            (_, RangeBoundaryValue::Max) => false,
            (RangeBoundaryValue::Min, _) => false,
            (RangeBoundaryValue::Value(v1, _), RangeBoundaryValue::Value(v2, _)) => v2.lt_spec(
                &v1,
            ),
        }
    }

    pub open spec fn boundary_type_spec(self) -> RangeBoundaryType {
        match self {
            RangeBoundaryValue::Value(_, t) => t,
            _ => RangeBoundaryType::Inclusive,
        }
    }

    /// The boundary's inclusivity; the sentinels count as inclusive.
    pub fn range_boundary_type(&self) -> (r: &RangeBoundaryType)
        ensures
            *r == self.boundary_type_spec(),
    {
        match self {
            RangeBoundaryValue::Value(_, range_boundary_type) => range_boundary_type,
            _ => &RangeBoundaryType::Inclusive,
        }
    }

    /// The boundary's domain value, when it is not a sentinel.
    pub fn range_boundary_value(&self) -> (r: Option<&T>)
        ensures
            match self {
                RangeBoundaryValue::Value(v, _) => r matches Some(p) && *p == v,
                _ => r is None,
            },
    {
        match self {
            RangeBoundaryValue::Value(v, _) => Some(v),
            _ => None,
        }
    }

    fn boundary_gt(&self, other: &Self) -> (r: bool)
        ensures
            r == self.boundary_gt_spec(*other),
    {
        match (self, other) {
            (RangeBoundaryValue::Max, _) => true,
            (_, RangeBoundaryValue::Min) => true,
            (_, RangeBoundaryValue::Max) => false,
            (RangeBoundaryValue::Min, _) => false,
            (RangeBoundaryValue::Value(v1, _), RangeBoundaryValue::Value(v2, _)) => v2.value_lt(
                v1,
            ),
        }
    }
}

impl<T: RangeElement> From<T> for RangeBoundaryValue<T> {
    /// Any domain value becomes an inclusive boundary.
    fn from(value: T) -> (r: RangeBoundaryValue<T>) {
        RangeBoundaryValue::Value(value, RangeBoundaryType::Inclusive)
    }
}

impl<T: RangeElement> vstd::std_specs::convert::FromSpecImpl<T> for RangeBoundaryValue<T> {
    open spec fn obeys_from_spec() -> bool {
        true
    }

    open spec fn from_spec(v: T) -> Self {
        RangeBoundaryValue::Value(v, RangeBoundaryType::Inclusive)
    }
}

impl<T: RangeElement> PartialEq for RangeBoundaryValue<T> {
    /// Boundary equality disregards inclusivity: two boundaries carrying
    /// the same domain value are equal.
    fn eq(&self, other: &Self) -> (r: bool) {
        match (self, other) {
            (RangeBoundaryValue::Max, RangeBoundaryValue::Max) => true,
            (RangeBoundaryValue::Max, _) => false,
            (RangeBoundaryValue::Min, RangeBoundaryValue::Min) => true,
            (RangeBoundaryValue::Min, _) => false,
            (RangeBoundaryValue::Value(v1, _), RangeBoundaryValue::Value(v2, _)) => v1.value_eq(
                v2,
            ),
            (RangeBoundaryValue::Value(_, _), _) => false,
        }
    }
}

impl<T: RangeElement> vstd::std_specs::cmp::PartialEqSpecImpl for RangeBoundaryValue<T> {
    open spec fn obeys_eq_spec() -> bool {
        true
    }

    open spec fn eq_spec(&self, other: &Self) -> bool {
        self.boundary_eq_spec(*other)
    }
}

/// A generic range over one domain: a lower and an upper boundary.
#[derive(Debug)]
pub struct RangeImpl<T> {
    pub start: RangeBoundaryValue<T>,
    pub end: RangeBoundaryValue<T>,
}

impl<T: RangeElement> RangeImpl<T> {
    /// What makes a pair of boundaries a legal range: they are not equal
    /// with either side exclusive (that range would be empty), and the
    /// lower boundary does not order above the upper. In particular the
    /// lower boundary is never `max` and the upper never `min`.
    pub open spec fn spec_valid(start: RangeBoundaryValue<T>, end: RangeBoundaryValue<T>) -> bool {
        &&& !(start.boundary_eq_spec(end) && (start.boundary_type_spec()
            is Exclusive || end.boundary_type_spec() is Exclusive))
        &&& !start.boundary_gt_spec(end)
    }

    pub open spec fn wf(self) -> bool {
        Self::spec_valid(self.start, self.end)
    }

    /// Builds the range `[start, end]`, rejecting boundary pairs that
    /// `spec_valid` rules out, and exactly those.
    pub fn range(start: RangeBoundaryValue<T>, end: RangeBoundaryValue<T>) -> (r: IonSchemaResult<
        Self,
    >)
        ensures
            r is Ok <==> Self::spec_valid(start, end),
            r matches Ok(ri) ==> ri.start == start && ri.end == end && ri.wf(),
    {
        if start == end && (*start.range_boundary_type() == RangeBoundaryType::Exclusive
            || *end.range_boundary_type() == RangeBoundaryType::Exclusive) {
            return invalid_schema_error("Empty ranges are not allowed");
        }
        if start.boundary_gt(&end) {
            return invalid_schema_error(
                "Lower range boundary value can not be bigger than upper range boundary",
            );
        }
        Ok(RangeImpl { start, end })
    }

    /// Builds a range from two boundary values; equivalent to `range`.
    pub fn new(start: RangeBoundaryValue<T>, end: RangeBoundaryValue<T>) -> (r: IonSchemaResult<
        Self,
    >)
        ensures
            r is Ok <==> Self::spec_valid(start, end),
            r matches Ok(ri) ==> ri.start == start && ri.end == end && ri.wf(),
    {
        Self::range(start, end)
    }

    /// Whether the range admits `value`: the lower boundary admits it
    /// (`min` admits everything, a value boundary by `<=` or `<` per its
    /// inclusivity) and the upper boundary does symmetrically.
    pub open spec fn spec_contains(self, value: T) -> bool {
        (match self.start {
            RangeBoundaryValue::Min => true,
            RangeBoundaryValue::Max => false,
            RangeBoundaryValue::Value(sv, t) => if t is Inclusive {
                sv.le_spec(&value)
            } else {
                sv.lt_spec(&value)
            },
        }) && (match self.end {
            RangeBoundaryValue::Max => true,
            RangeBoundaryValue::Min => false,
            RangeBoundaryValue::Value(ev, t) => if t is Inclusive {
                value.le_spec(&ev)
            } else {
                value.lt_spec(&ev)
            },
        })
    }

    /// Whether `value` lies within the range.
    pub fn contains(&self, value: T) -> (r: bool)
        ensures
            r == self.spec_contains(value),
    {
        let is_in_lower_bound = match &self.start {
            RangeBoundaryValue::Min => true,
            RangeBoundaryValue::Max => false,
            RangeBoundaryValue::Value(start_value, boundary_type) => match boundary_type {
                RangeBoundaryType::Inclusive => start_value.value_le(&value),
                RangeBoundaryType::Exclusive => start_value.value_lt(&value),
            },
        };
        let is_in_upper_bound = match &self.end {
            RangeBoundaryValue::Max => true,
            RangeBoundaryValue::Min => false,
            RangeBoundaryValue::Value(end_value, boundary_type) => match boundary_type {
                RangeBoundaryType::Inclusive => value.value_le(end_value),
                RangeBoundaryType::Exclusive => value.value_lt(end_value),
            },
        };
        is_in_upper_bound && is_in_lower_bound
    }
}

/// Integer ranges.
pub type IntegerRange = RangeImpl<i128>;

/// Non-negative integer ranges.
pub type NonNegativeIntegerRange = RangeImpl<usize>;

/// Float ranges.
pub type FloatRange = RangeImpl<FloatValue>;

/// Decimal ranges.
pub type DecimalRange = RangeImpl<Decimal>;

/// Timestamp ranges.
pub type TimestampRange = RangeImpl<TimestampValue>;

/// Timestamp precision ranges.
pub type TimestampPrecisionRange = RangeImpl<TimestampPrecision>;

/// Number ranges.
pub type NumberRange = RangeImpl<Number>;

/// Which family of ranges an Ion value should be read as; constraints pick
/// the member that fits their operand.
#[derive(Debug, Clone, Copy, PartialEq, Eq, Structural)]
pub enum RangeType {
    /// Non-negative integers starting at 1, as the `precision` constraint
    /// needs.
    Precision,
    /// Non-negative integers, as the length constraints need.
    NonNegativeInteger,
    /// Timestamp precision names.
    TimestampPrecision,
    /// Numbers or timestamps, as `valid_values` needs.
    NumberOrTimestamp,
    /// Whatever typed range the boundary values call for.
    Any,
}

/// A range boundary as parsed from an Ion value, tagged with the domain it
/// belongs to.
#[derive(Debug)]
pub enum TypedRangeBoundaryValue {
    Min,
    Max,
    Integer(RangeBoundaryValue<i128>),
    NonNegativeInteger(RangeBoundaryValue<usize>),
    TimestampPrecision(RangeBoundaryValue<TimestampPrecision>),
    Float(RangeBoundaryValue<FloatValue>),
    Decimal(RangeBoundaryValue<Decimal>),
    Number(RangeBoundaryValue<Number>),
    Timestamp(RangeBoundaryValue<TimestampValue>),
}

/// A parsed typed boundary always wraps an actual value; the sentinels
/// stand alone.
pub open spec fn spec_typed_wf(b: TypedRangeBoundaryValue) -> bool {
    match b {
        TypedRangeBoundaryValue::Min => true,
        TypedRangeBoundaryValue::Max => true,
        TypedRangeBoundaryValue::Integer(rbv) => rbv is Value,
        TypedRangeBoundaryValue::NonNegativeInteger(rbv) => rbv is Value,
        TypedRangeBoundaryValue::TimestampPrecision(rbv) => rbv is Value,
        TypedRangeBoundaryValue::Float(rbv) => rbv is Value,
        TypedRangeBoundaryValue::Decimal(rbv) => rbv is Value,
        TypedRangeBoundaryValue::Number(rbv) => rbv is Value,
        TypedRangeBoundaryValue::Timestamp(rbv) => rbv is Value,
    }
}

/// The integer promoted into the number tower.
pub open spec fn spec_number_of_int(i: i128) -> Number {
    Number { value: Decimal { coefficient: i, scale: 0 } }
}

/// The range `[start, end]` when the pair is legal, and nothing otherwise.
pub open spec fn spec_mk_range<T: RangeElement>(
    start: RangeBoundaryValue<T>,
    end: RangeBoundaryValue<T>,
) -> Option<RangeImpl<T>> {
    if RangeImpl::<T>::spec_valid(start, end) {
        Some(RangeImpl { start, end })
    } else {
        None
    }
}

/// The integer range a pair of typed boundaries describes: both sides must
/// be integers (or a sentinel), and exclusive boundaries around adjacent
/// integers leave no admissible value and are rejected.
pub open spec fn spec_int_range(
    start: TypedRangeBoundaryValue,
    end: TypedRangeBoundaryValue,
) -> Option<RangeImpl<i128>> {
    match (start, end) {
        (
            TypedRangeBoundaryValue::Integer(RangeBoundaryValue::Value(v1, t1)),
            TypedRangeBoundaryValue::Integer(RangeBoundaryValue::Value(v2, t2)),
        ) => {
            if v2 == v1 + 1 && t1 is Exclusive && t2 is Exclusive {
                None
            } else {
                spec_mk_range(RangeBoundaryValue::Value(v1, t1), RangeBoundaryValue::Value(v2, t2))
            }
        },
        (TypedRangeBoundaryValue::Min, TypedRangeBoundaryValue::Integer(v2)) => spec_mk_range(
            RangeBoundaryValue::Min,
            v2,
        ),
        (TypedRangeBoundaryValue::Integer(v1), TypedRangeBoundaryValue::Max) => spec_mk_range(
            v1,
            RangeBoundaryValue::Max,
        ),
        _ => None,
    }
}

/// As `spec_int_range`, over non-negative integers.
pub open spec fn spec_non_negative_int_range(
    start: TypedRangeBoundaryValue,
    end: TypedRangeBoundaryValue,
) -> Option<RangeImpl<usize>> {
    match (start, end) {
        (
            TypedRangeBoundaryValue::NonNegativeInteger(RangeBoundaryValue::Value(v1, t1)),
            TypedRangeBoundaryValue::NonNegativeInteger(RangeBoundaryValue::Value(v2, t2)),
        ) => {
            if v2 == v1 + 1 && t1 is Exclusive && t2 is Exclusive {
                None
            } else {
                spec_mk_range(RangeBoundaryValue::Value(v1, t1), RangeBoundaryValue::Value(v2, t2))
            }
        },
        (TypedRangeBoundaryValue::Min, TypedRangeBoundaryValue::NonNegativeInteger(v2)) => spec_mk_range(
            RangeBoundaryValue::Min,
            v2,
        ),
        (TypedRangeBoundaryValue::NonNegativeInteger(v1), TypedRangeBoundaryValue::Max) => spec_mk_range(
            v1,
            RangeBoundaryValue::Max,
        ),
        _ => None,
    }
}

/// The timestamp precision range a pair of typed boundaries describes.
pub open spec fn spec_timestamp_precision_range(
    start: TypedRangeBoundaryValue,
    end: TypedRangeBoundaryValue,
) -> Option<RangeImpl<TimestampPrecision>> {
    match (start, end) {
        (
            TypedRangeBoundaryValue::TimestampPrecision(v1),
            TypedRangeBoundaryValue::TimestampPrecision(v2),
        ) => spec_mk_range(v1, v2),
        (TypedRangeBoundaryValue::Min, TypedRangeBoundaryValue::TimestampPrecision(v2)) => spec_mk_range(
            RangeBoundaryValue::Min,
            v2,
        ),
        (TypedRangeBoundaryValue::TimestampPrecision(v1), TypedRangeBoundaryValue::Max) => spec_mk_range(
            v1,
            RangeBoundaryValue::Max,
        ),
        _ => None,
    }
}

/// The float range a pair of typed boundaries describes.
pub open spec fn spec_float_range(
    start: TypedRangeBoundaryValue,
    end: TypedRangeBoundaryValue,
) -> Option<RangeImpl<FloatValue>> {
    match (start, end) {
        (TypedRangeBoundaryValue::Float(v1), TypedRangeBoundaryValue::Float(v2)) => spec_mk_range(
            v1,
            v2,
        ),
        (TypedRangeBoundaryValue::Min, TypedRangeBoundaryValue::Float(v2)) => spec_mk_range(
            RangeBoundaryValue::Min,
            v2,
        ),
        (TypedRangeBoundaryValue::Float(v1), TypedRangeBoundaryValue::Max) => spec_mk_range(
            v1,
            RangeBoundaryValue::Max,
        ),
        _ => None,
    }
}

/// The decimal range a pair of typed boundaries describes.
pub open spec fn spec_decimal_range(
    start: TypedRangeBoundaryValue,
    end: TypedRangeBoundaryValue,
) -> Option<RangeImpl<Decimal>> {
    match (start, end) {
        (TypedRangeBoundaryValue::Decimal(v1), TypedRangeBoundaryValue::Decimal(v2)) => spec_mk_range(
            v1,
            v2,
        ),
        (TypedRangeBoundaryValue::Min, TypedRangeBoundaryValue::Decimal(v2)) => spec_mk_range(
            RangeBoundaryValue::Min,
            v2,
        ),
        (TypedRangeBoundaryValue::Decimal(v1), TypedRangeBoundaryValue::Max) => spec_mk_range(
            v1,
            RangeBoundaryValue::Max,
        ),
        _ => None,
    }
}

/// The number range a pair of typed boundaries describes.
pub open spec fn spec_number_range(
    start: TypedRangeBoundaryValue,
    end: TypedRangeBoundaryValue,
) -> Option<RangeImpl<Number>> {
    match (start, end) {
        (TypedRangeBoundaryValue::Number(v1), TypedRangeBoundaryValue::Number(v2)) => spec_mk_range(
            v1,
            v2,
        ),
        (TypedRangeBoundaryValue::Min, TypedRangeBoundaryValue::Number(v2)) => spec_mk_range(
            RangeBoundaryValue::Min,
            v2,
        ),
        (TypedRangeBoundaryValue::Number(v1), TypedRangeBoundaryValue::Max) => spec_mk_range(
            v1,
            RangeBoundaryValue::Max,
        ),
        _ => None,
    }
}

/// The timestamp range a pair of typed boundaries describes.
pub open spec fn spec_timestamp_range(
    start: TypedRangeBoundaryValue,
    end: TypedRangeBoundaryValue,
) -> Option<RangeImpl<TimestampValue>> {
    match (start, end) {
        (TypedRangeBoundaryValue::Timestamp(v1), TypedRangeBoundaryValue::Timestamp(v2)) => spec_mk_range(
            v1,
            v2,
        ),
        (TypedRangeBoundaryValue::Min, TypedRangeBoundaryValue::Timestamp(v2)) => spec_mk_range(
            RangeBoundaryValue::Min,
            v2,
        ),
        (TypedRangeBoundaryValue::Timestamp(v1), TypedRangeBoundaryValue::Max) => spec_mk_range(
            v1,
            RangeBoundaryValue::Max,
        ),
        _ => None,
    }
}

/// The typed range a pair of typed boundaries describes: the sentinels may
/// not stand together, the lower boundary may not be `max` nor the upper
/// `min`, and otherwise the domain of the typed side decides.
pub open spec fn spec_validate_and_construct(
    start: TypedRangeBoundaryValue,
    end: TypedRangeBoundaryValue,
) -> Option<Range> {
    if start is Min && end is Max {
        None
    } else if start is Max {
        None
    } else if end is Min {
        None
    } else if start is Integer || end is Integer {
        match spec_int_range(start, end) {
            Some(ri) => Some(Range::Integer(ri)),
            None => None,
        }
    } else if start is NonNegativeInteger || end is NonNegativeInteger {
        match spec_non_negative_int_range(start, end) {
            Some(ri) => Some(Range::NonNegativeInteger(ri)),
            None => None,
        }
    } else if start is TimestampPrecision || end is TimestampPrecision {
        match spec_timestamp_precision_range(start, end) {
            Some(ri) => Some(Range::TimestampPrecision(ri)),
            None => None,
        }
    } else if start is Float || end is Float {
        match spec_float_range(start, end) {
            Some(ri) => Some(Range::Float(ri)),
            None => None,
        }
    } else if start is Decimal || end is Decimal {
        match spec_decimal_range(start, end) {
            Some(ri) => Some(Range::Decimal(ri)),
            None => None,
        }
    } else if start is Number || end is Number {
        match spec_number_range(start, end) {
            Some(ri) => Some(Range::Number(ri)),
            None => None,
        }
    } else if start is Timestamp || end is Timestamp {
        match spec_timestamp_range(start, end) {
            Some(ri) => Some(Range::Timestamp(ri)),
            None => None,
        }
    } else {
        None
    }
}

impl TypedRangeBoundaryValue {
    /// The typed boundary an Ion value denotes under a given range family:
    /// `exclusive::` sets exclusivity; `min`/`max` (never exclusive) are
    /// the sentinels; other symbols name timestamp precisions; and
    /// numeric or timestamp scalars land in the domain the family calls
    /// for.
    pub open spec fn spec_from_ion(
        boundary: IonElement,
        range_type: RangeType,
        isl_version: IslVersion,
    ) -> Option<TypedRangeBoundaryValue> {
        let bt = if boundary.has_annotation_spec("exclusive"@) {
            RangeBoundaryType::Exclusive
        } else {
            RangeBoundaryType::Inclusive
        };
        match boundary.value {
            IonValue::Symbol(opt_text) => match opt_text {
                None => None,
                Some(text) => {
                    if text@ == "min"@ {
                        if bt is Exclusive {
                            None
                        } else {
                            Some(TypedRangeBoundaryValue::Min)
                        }
                    } else if text@ == "max"@ {
                        if bt is Exclusive {
                            None
                        } else {
                            Some(TypedRangeBoundaryValue::Max)
                        }
                    } else {
                        match TimestampPrecision::spec_of_text(text@) {
                            Some(p) => Some(
                                TypedRangeBoundaryValue::TimestampPrecision(
                                    RangeBoundaryValue::Value(p, bt),
                                ),
                            ),
                            None => None,
                        }
                    }
                },
            },
            IonValue::Int(i) => {
                if range_type is Precision || range_type is NonNegativeInteger {
                    match Range::spec_validate_non_negative(i, range_type) {
                        Some(u) => Some(
                            TypedRangeBoundaryValue::NonNegativeInteger(
                                RangeBoundaryValue::Value(u, bt),
                            ),
                        ),
                        None => None,
                    }
                } else if range_type is Any {
                    Some(TypedRangeBoundaryValue::Integer(RangeBoundaryValue::Value(i, bt)))
                } else if range_type is TimestampPrecision {
                    None
                } else {
                    Some(
                        TypedRangeBoundaryValue::Number(
                            RangeBoundaryValue::Value(spec_number_of_int(i), bt),
                        ),
                    )
                }
            },
            IonValue::Decimal(d) => {
                if range_type is NumberOrTimestamp {
                    Some(
                        TypedRangeBoundaryValue::Number(
                            RangeBoundaryValue::Value(Number { value: d }, bt),
                        ),
                    )
                } else if range_type is Any {
                    Some(TypedRangeBoundaryValue::Decimal(RangeBoundaryValue::Value(d, bt)))
                } else {
                    None
                }
            },
            IonValue::Float(f) => {
                if range_type is NumberOrTimestamp {
                    match f {
                        FloatValue::Finite(d) => Some(
                            TypedRangeBoundaryValue::Number(
                                RangeBoundaryValue::Value(Number { value: d }, bt),
                            ),
                        ),
                        _ => None,
                    }
                } else if range_type is Any {
                    Some(TypedRangeBoundaryValue::Float(RangeBoundaryValue::Value(f, bt)))
                } else {
                    None
                }
            },
            IonValue::Timestamp(ts) => {
                if range_type is NumberOrTimestamp || range_type is Any {
                    if isl_version == IslVersion::V1_0 && ts.offset_minutes is None {
                        None
                    } else {
                        Some(TypedRangeBoundaryValue::Timestamp(RangeBoundaryValue::Value(ts, bt)))
                    }
                } else {
                    None
                }
            },
            _ => None,
        }
    }

    /// Parses one range boundary from an Ion value.
    pub fn from_ion_element(
        boundary: &IonElement,
        range_type: RangeType,
        isl_version: IslVersion,
    ) -> (r: IonSchemaResult<TypedRangeBoundaryValue>)
        ensures
            r is Ok <==> Self::spec_from_ion(*boundary, range_type, isl_version) is Some,
            r matches Ok(b) ==> Self::spec_from_ion(*boundary, range_type, isl_version) == Some(b)
                && spec_typed_wf(b),
    {
        let range_boundary_type = if boundary.has_annotation("exclusive") {
            RangeBoundaryType::Exclusive
        } else {
            RangeBoundaryType::Inclusive
        };
        match &boundary.value {
            IonValue::Symbol(opt_text) => {
                let text = match opt_text {
                    Some(t) => t,
                    None => {
                        return invalid_schema_error(
                            "Range can not be constructed from symbol with unknown text",
                        );
                    },
                };
                let is_min = crate::text::str_eq(text.as_str(), "min");
                let is_max = crate::text::str_eq(text.as_str(), "max");
                if (is_min || is_max) && range_boundary_type == RangeBoundaryType::Exclusive {
                    return invalid_schema_error(
                        "Exclusive min or max are not allowed for range boundary values",
                    );
                }
                if is_min {
                    Ok(TypedRangeBoundaryValue::Min)
                } else if is_max {
                    Ok(TypedRangeBoundaryValue::Max)
                } else {
                    match TimestampPrecision::try_from(text.as_str()) {
                        Ok(p) => Ok(
                            TypedRangeBoundaryValue::TimestampPrecision(
                                RangeBoundaryValue::Value(p, range_boundary_type),
                            ),
                        ),
                        Err(e) => Err(e),
                    }
                }
            },
            IonValue::Int(i) => {
                match range_type {
                    RangeType::Precision | RangeType::NonNegativeInteger => {
                        match Range::validate_non_negative_integer_range_boundary_value(
                            *i,
                            &range_type,
                        ) {
                            Ok(u) => Ok(
                                TypedRangeBoundaryValue::NonNegativeInteger(
                                    RangeBoundaryValue::Value(u, range_boundary_type),
                                ),
                            ),
                            Err(e) => Err(e),
                        }
                    },
                    RangeType::Any => Ok(
                        TypedRangeBoundaryValue::Integer(
                            RangeBoundaryValue::Value(*i, range_boundary_type),
                        ),
                    ),
                    RangeType::TimestampPrecision => invalid_schema_error(
                        "Timestamp precision ranges can not be constructed for integer boundary values",
                    ),
                    RangeType::NumberOrTimestamp => Ok(
                        TypedRangeBoundaryValue::Number(
                            RangeBoundaryValue::Value(Number::from_int(*i), range_boundary_type),
                        ),
                    ),
                }
            },
            IonValue::Decimal(d) => {
                match range_type {
                    RangeType::NumberOrTimestamp => Ok(
                        TypedRangeBoundaryValue::Number(
                            RangeBoundaryValue::Value(Number::from_decimal(d), range_boundary_type),
                        ),
                    ),
                    RangeType::Any => Ok(
                        TypedRangeBoundaryValue::Decimal(
                            RangeBoundaryValue::Value(*d, range_boundary_type),
                        ),
                    ),
                    _ => invalid_schema_error(
                        "these ranges can not be constructed for decimal boundary values",
                    ),
                }
            },
            IonValue::Float(f) => {
                match range_type {
                    RangeType::NumberOrTimestamp => {
                        match Number::try_from_float(f) {
                            Ok(n) => Ok(
                                TypedRangeBoundaryValue::Number(
                                    RangeBoundaryValue::Value(n, range_boundary_type),
                                ),
                            ),
                            Err(e) => Err(e),
                        }
                    },
                    RangeType::Any => Ok(
                        TypedRangeBoundaryValue::Float(
                            RangeBoundaryValue::Value(*f, range_boundary_type),
                        ),
                    ),
                    _ => invalid_schema_error(
                        "these ranges can not be constructed for float boundary values",
                    ),
                }
            },
            IonValue::Timestamp(ts) => {
                match range_type {
                    RangeType::NumberOrTimestamp | RangeType::Any => {
                        if isl_version == IslVersion::V1_0 && ts.offset_minutes.is_none() {
                            invalid_schema_error(
                                "Timestamp range boundary can not have an unknown offset",
                            )
                        } else {
                            Ok(
                                TypedRangeBoundaryValue::Timestamp(
                                    RangeBoundaryValue::Value(*ts, range_boundary_type),
                                ),
                            )
                        }
                    },
                    _ => invalid_schema_error(
                        "these ranges can not be constructed for timestamp boundary values",
                    ),
                }
            },
            _ => invalid_schema_error("Unsupported range boundary type specified"),
        }
    }
}

/// The tagged-union facade over the seven typed ranges.
#[derive(Debug)]
pub enum Range {
    Integer(RangeImpl<i128>),
    NonNegativeInteger(RangeImpl<usize>),
    TimestampPrecision(RangeImpl<TimestampPrecision>),
    Timestamp(RangeImpl<TimestampValue>),
    Decimal(RangeImpl<Decimal>),
    Float(RangeImpl<FloatValue>),
    Number(RangeImpl<Number>),
}

/// Every typed range inside a `Range` satisfies its constructor's validity
/// condition.
pub open spec fn spec_range_wf(r: Range) -> bool {
    match r {
        Range::Integer(ri) => ri.wf(),
        Range::NonNegativeInteger(ri) => ri.wf(),
        Range::TimestampPrecision(ri) => ri.wf(),
        Range::Timestamp(ri) => ri.wf(),
        Range::Decimal(ri) => ri.wf(),
        Range::Float(ri) => ri.wf(),
        Range::Number(ri) => ri.wf(),
    }
}

/// The numeric value of a non-negative-integer boundary once inclusivity
/// is folded in: `min` is 0, `max` is the largest machine size, and an
/// exclusive boundary steps past its value.
pub open spec fn spec_non_negative_bound(b: RangeBoundaryValue<usize>) -> int {
    match b {
        RangeBoundaryValue::Max => usize::MAX as int,
        RangeBoundaryValue::Min => 0,
        RangeBoundaryValue::Value(v, RangeBoundaryType::Inclusive) => v as int,
        RangeBoundaryValue::Value(v, RangeBoundaryType::Exclusive) => v as int + 1,
    }
}

/// Whether the mathematical integer `i` lies within a non-negative-integer
/// range; used when a range over machine sizes is checked against an
/// arbitrary integer. The range's domain is the non-negative integers, so
/// a `min` lower bound still admits nothing below zero.
pub open spec fn spec_int_in_non_negative_range(ri: RangeImpl<usize>, i: int) -> bool {
    (match ri.start {
        RangeBoundaryValue::Min => 0 <= i,
        RangeBoundaryValue::Max => false,
        RangeBoundaryValue::Value(s, RangeBoundaryType::Inclusive) => s <= i,
        RangeBoundaryValue::Value(s, RangeBoundaryType::Exclusive) => s < i,
    }) && (match ri.end {
        RangeBoundaryValue::Max => true,
        RangeBoundaryValue::Min => false,
        RangeBoundaryValue::Value(e, RangeBoundaryType::Inclusive) => i <= e,
        RangeBoundaryValue::Value(e, RangeBoundaryType::Exclusive) => i < e,
    })
}

fn int_in_non_negative_range(ri: &RangeImpl<usize>, i: i128) -> (r: bool)
    ensures
        r == spec_int_in_non_negative_range(*ri, i as int),
{
    let lower_ok = match &ri.start {
        RangeBoundaryValue::Min => 0 <= i,
        RangeBoundaryValue::Max => false,
        RangeBoundaryValue::Value(s, RangeBoundaryType::Inclusive) => (*s as i128) <= i,
        RangeBoundaryValue::Value(s, RangeBoundaryType::Exclusive) => (*s as i128) < i,
    };
    let upper_ok = match &ri.end {
        RangeBoundaryValue::Max => true,
        RangeBoundaryValue::Min => false,
        RangeBoundaryValue::Value(e, RangeBoundaryType::Inclusive) => i <= (*e as i128),
        RangeBoundaryValue::Value(e, RangeBoundaryType::Exclusive) => i < (*e as i128),
    };
    lower_ok && upper_ok
}

impl Range {
    /// The machine-size bounds of a non-negative integer range, inclusive
    /// on both ends; nothing for the other range families.
    pub fn non_negative_range_boundaries(&self) -> (r: Option<(usize, usize)>)
        requires
            self matches Range::NonNegativeInteger(ri) ==> spec_non_negative_bound(ri.start)
                <= usize::MAX && spec_non_negative_bound(ri.end) <= usize::MAX,
        ensures
            match self {
                Range::NonNegativeInteger(ri) => r matches Some(b) && b.0 == spec_non_negative_bound(
                    ri.start,
                ) && b.1 == spec_non_negative_bound(ri.end),
                _ => r is None,
            },
    {
        match self {
            Range::NonNegativeInteger(ri) => {
                let start: usize = match &ri.start {
                    RangeBoundaryValue::Max => usize::MAX,
                    RangeBoundaryValue::Min => 0,
                    RangeBoundaryValue::Value(val, range_boundary_type) => {
                        match range_boundary_type {
                            RangeBoundaryType::Inclusive => *val,
                            RangeBoundaryType::Exclusive => *val + 1,
                        }
                    },
                };
                let end: usize = match &ri.end {
                    RangeBoundaryValue::Max => usize::MAX,
                    RangeBoundaryValue::Min => 0,
                    RangeBoundaryValue::Value(val, range_boundary_type) => {
                        match range_boundary_type {
                            RangeBoundaryType::Inclusive => *val,
                            RangeBoundaryType::Exclusive => *val + 1,
                        }
                    },
                };
                Some((start, end))
            },
            _ => None,
        }
    }

    /// Whether `value` lies within the range: a null never does, a value
    /// of the wrong Ion type never does, and numeric values promote into
    /// number ranges (a float that denotes no number lies in none).
    pub open spec fn spec_contains(self, value: IonElement) -> bool {
        if value.value is Null {
            false
        } else {
            match self {
                Range::Integer(ri) => match value.value {
                    IonValue::Int(i) => ri.spec_contains(i),
                    _ => false,
                },
                Range::NonNegativeInteger(ri) => match value.value {
                    IonValue::Int(i) => spec_int_in_non_negative_range(ri, i as int),
                    _ => false,
                },
                Range::TimestampPrecision(ri) => match value.value {
                    IonValue::Timestamp(ts) => ri.spec_contains(
                        TimestampPrecision::spec_from_timestamp(ts),
                    ),
                    _ => false,
                },
                Range::Timestamp(ri) => match value.value {
                    IonValue::Timestamp(ts) => ri.spec_contains(ts),
                    _ => false,
                },
                Range::Float(ri) => match value.value {
                    IonValue::Float(f) => ri.spec_contains(f),
                    _ => false,
                },
                Range::Decimal(ri) => match value.value {
                    IonValue::Decimal(d) => ri.spec_contains(d),
                    _ => false,
                },
                Range::Number(ri) => match value.value {
                    IonValue::Int(i) => ri.spec_contains(spec_number_of_int(i)),
                    IonValue::Float(f) => match f {
                        FloatValue::Finite(d) => ri.spec_contains(Number { value: d }),
                        _ => false,
                    },
                    IonValue::Decimal(d) => ri.spec_contains(Number { value: d }),
                    _ => false,
                },
            }
        }
    }

    /// Whether the given Ion value is within the range.
    pub fn contains(&self, value: &IonElement) -> (r: bool)
        ensures
            r == self.spec_contains(*value),
    {
        if value.is_null() {
            return false;
        }
        match self {
            Range::Integer(int_range) => match &value.value {
                IonValue::Int(i) => int_range.contains(*i),
                _ => false,
            },
            Range::NonNegativeInteger(int_non_neg_range) => match &value.value {
                IonValue::Int(i) => int_in_non_negative_range(int_non_neg_range, *i),
                _ => false,
            },
            Range::TimestampPrecision(timestamp_precision_range) => match &value.value {
                IonValue::Timestamp(ts) => {
                    let precision = TimestampPrecision::from_timestamp(ts);
                    timestamp_precision_range.contains(precision)
                },
                _ => false,
            },
            Range::Timestamp(timestamp_range) => match &value.value {
                IonValue::Timestamp(ts) => timestamp_range.contains(*ts),
                _ => false,
            },
            Range::Float(float_range) => match &value.value {
                IonValue::Float(f) => float_range.contains(*f),
                _ => false,
            },
            Range::Decimal(decimal_range) => match &value.value {
                IonValue::Decimal(d) => decimal_range.contains(*d),
                _ => false,
            },
            Range::Number(number_range) => match &value.value {
                IonValue::Int(i) => number_range.contains(Number::from_int(*i)),
                IonValue::Float(f) => match Number::try_from_float(f) {
                    Ok(n) => number_range.contains(n),
                    Err(_) => false,
                },
                IonValue::Decimal(d) => number_range.contains(Number::from_decimal(d)),
                _ => false,
            },
        }
    }

    /// The non-negative integer range `[0, 1]`: an occurrence that may be
    /// present once.
    pub fn optional() -> (r: Range)
        ensures
            r matches Range::NonNegativeInteger(ri) && ri.start == RangeBoundaryValue::Value(
                0usize,
                RangeBoundaryType::Inclusive,
            ) && ri.end == RangeBoundaryValue::Value(1usize, RangeBoundaryType::Inclusive),
    {
        match RangeImpl::<usize>::range(
            RangeBoundaryValue::Value(0usize, RangeBoundaryType::Inclusive),
            RangeBoundaryValue::Value(1usize, RangeBoundaryType::Inclusive),
        ) {
            Ok(ri) => Range::NonNegativeInteger(ri),
            Err(_) => {
                proof {
                    assert(false);
                }
                unreached()
            },
        }
    }

    /// The non-negative integer range `[1, 1]`: an occurrence that must be
    /// present exactly once.
    pub fn required() -> (r: Range)
        ensures
            r matches Range::NonNegativeInteger(ri) && ri.start == RangeBoundaryValue::Value(
                1usize,
                RangeBoundaryType::Inclusive,
            ) && ri.end == RangeBoundaryValue::Value(1usize, RangeBoundaryType::Inclusive),
    {
        match RangeImpl::<usize>::range(
            RangeBoundaryValue::Value(1usize, RangeBoundaryType::Inclusive),
            RangeBoundaryValue::Value(1usize, RangeBoundaryType::Inclusive),
        ) {
            Ok(ri) => Range::NonNegativeInteger(ri),
            Err(_) => {
                proof {
                    assert(false);
                }
                unreached()
            },
        }
    }

    /// The machine size a non-negative boundary value denotes, when the
    /// range family asks for one: at least 1 for precisions, at least 0
    /// otherwise, and small enough for the machine.
    pub open spec fn spec_validate_non_negative(value: i128, range_type: RangeType) -> Option<
        usize,
    > {
        let min_value: int = if range_type is Precision {
            1
        } else {
            0
        };
        if min_value <= value && value <= usize::MAX {
            Some(value as usize)
        } else {
            None
        }
    }

    /// Checks a non-negative integer boundary value for the given range
    /// family.
    pub fn validate_non_negative_integer_range_boundary_value(
        value: i128,
        range_type: &RangeType,
    ) -> (r: IonSchemaResult<usize>)
        ensures
            r is Ok <==> Self::spec_validate_non_negative(value, *range_type) is Some,
            r matches Ok(u) ==> Self::spec_validate_non_negative(value, *range_type) == Some(u),
    {
        let min_value: i128 = if *range_type == RangeType::Precision {
            1
        } else {
            0
        };
        if min_value <= value && value <= (usize::MAX as i128) {
            Ok(value as usize)
        } else {
            invalid_schema_error(
                "Expected non negative integer for range boundary values",
            )
        }
    }

    /// Checks a pair of typed boundaries and builds the typed range they
    /// describe.
    pub fn validate_and_construct_range(
        start: TypedRangeBoundaryValue,
        end: TypedRangeBoundaryValue,
    ) -> (r: IonSchemaResult<Range>)
        requires
            spec_typed_wf(start),
            spec_typed_wf(end),
        ensures
            r is Ok <==> spec_validate_and_construct(start, end) is Some,
            r matches Ok(rng) ==> spec_validate_and_construct(start, end) == Some(rng)
                && spec_range_wf(rng),
    {
        proof {
            lemma_validate_and_construct_wf(start, end);
        }
        match (&start, &end) {
            (TypedRangeBoundaryValue::Min, TypedRangeBoundaryValue::Max) => invalid_schema_error(
                "Range boundaries can not be min and max together (i.e. range::[min, max] is not allowed)",
            ),
            (TypedRangeBoundaryValue::Max, _) => invalid_schema_error(
                "Lower range boundary value must not be max",
            ),
            (_, TypedRangeBoundaryValue::Min) => invalid_schema_error(
                "Upper range boundary value must not be min",
            ),
            (_, TypedRangeBoundaryValue::Integer(_)) | (TypedRangeBoundaryValue::Integer(_), _) => {
                match Self::int_range_from_typed_boundary_value(start, end) {
                    Ok(ri) => Ok(Range::Integer(ri)),
                    Err(e) => Err(e),
                }
            },
            (_, TypedRangeBoundaryValue::NonNegativeInteger(_))
                | (TypedRangeBoundaryValue::NonNegativeInteger(_), _) => {
                match Self::int_non_negative_range_from_typed_boundary_value(start, end) {
                    Ok(ri) => Ok(Range::NonNegativeInteger(ri)),
                    Err(e) => Err(e),
                }
            },
            (_, TypedRangeBoundaryValue::TimestampPrecision(_))
                | (TypedRangeBoundaryValue::TimestampPrecision(_), _) => {
                match Self::timestamp_precision_range_from_typed_boundary_value(start, end) {
                    Ok(ri) => Ok(Range::TimestampPrecision(ri)),
                    Err(e) => Err(e),
                }
            },
            (_, TypedRangeBoundaryValue::Float(_)) | (TypedRangeBoundaryValue::Float(_), _) => {
                match Self::float_range_from_typed_boundary_value(start, end) {
                    Ok(ri) => Ok(Range::Float(ri)),
                    Err(e) => Err(e),
                }
            },
            (_, TypedRangeBoundaryValue::Decimal(_)) | (TypedRangeBoundaryValue::Decimal(_), _) => {
                match Self::decimal_range_from_typed_boundary_value(start, end) {
                    Ok(ri) => Ok(Range::Decimal(ri)),
                    Err(e) => Err(e),
                }
            },
            (_, TypedRangeBoundaryValue::Number(_)) | (TypedRangeBoundaryValue::Number(_), _) => {
                match Self::number_range_from_typed_boundary_value(start, end) {
                    Ok(ri) => Ok(Range::Number(ri)),
                    Err(e) => Err(e),
                }
            },
            (_, TypedRangeBoundaryValue::Timestamp(_))
                | (TypedRangeBoundaryValue::Timestamp(_), _) => {
                match Self::timestamp_range_from_typed_boundary_value(start, end) {
                    Ok(ri) => Ok(Range::Timestamp(ri)),
                    Err(e) => Err(e),
                }
            },
        }
    }

    /// The range an Ion value denotes under a given family: a bare integer
    /// or a bare precision symbol is a one-point range, and a two-element
    /// list annotated `range` carries a boundary pair.
    pub open spec fn spec_from_ion(
        value: IonElement,
        range_type: RangeType,
        isl_version: IslVersion,
    ) -> Option<Range> {
        match value.value {
            IonValue::Int(i) => {
                if range_type is Precision || range_type is NonNegativeInteger {
                    match Self::spec_validate_non_negative(i, range_type) {
                        Some(u) => Some(
                            Range::NonNegativeInteger(
                                RangeImpl {
                                    start: RangeBoundaryValue::Value(
                                        u,
                                        RangeBoundaryType::Inclusive,
                                    ),
                                    end: RangeBoundaryValue::Value(u, RangeBoundaryType::Inclusive),
                                },
                            ),
                        ),
                        None => None,
                    }
                } else if range_type is TimestampPrecision {
                    None
                } else if range_type is Any {
                    Some(
                        Range::Integer(
                            RangeImpl {
                                start: RangeBoundaryValue::Value(i, RangeBoundaryType::Inclusive),
                                end: RangeBoundaryValue::Value(i, RangeBoundaryType::Inclusive),
                            },
                        ),
                    )
                } else {
                    Some(
                        Range::Number(
                            RangeImpl {
                                start: RangeBoundaryValue::Value(
                                    spec_number_of_int(i),
                                    RangeBoundaryType::Inclusive,
                                ),
                                end: RangeBoundaryValue::Value(
                                    spec_number_of_int(i),
                                    RangeBoundaryType::Inclusive,
                                ),
                            },
                        ),
                    )
                }
            },
            IonValue::Symbol(opt_text) => match opt_text {
                None => None,
                Some(text) => {
                    if range_type is TimestampPrecision {
                        match TimestampPrecision::spec_of_text(text@) {
                            Some(p) => Some(
                                Range::TimestampPrecision(
                                    RangeImpl {
                                        start: RangeBoundaryValue::Value(
                                            p,
                                            RangeBoundaryType::Inclusive,
                                        ),
                                        end: RangeBoundaryValue::Value(
                                            p,
                                            RangeBoundaryType::Inclusive,
                                        ),
                                    },
                                ),
                            ),
                            None => None,
                        }
                    } else {
                        None
                    }
                },
            },
            IonValue::List(items) => {
                if !value.has_annotation_spec("range"@) {
                    None
                } else if items@.len() != 2 {
                    None
                } else {
                    let t = items@[0].ion_type_spec();
                    if t == IonType::Symbol || t == IonType::Int || t == IonType::Float || t
                        == IonType::Decimal || t == IonType::Timestamp {
                        match TypedRangeBoundaryValue::spec_from_ion(
                            items@[0],
                            range_type,
                            isl_version,
                        ) {
                            Some(b1) => match TypedRangeBoundaryValue::spec_from_ion(
                                items@[1],
                                range_type,
                                isl_version,
                            ) {
                                Some(b2) => spec_validate_and_construct(b1, b2),
                                None => None,
                            },
                            None => None,
                        }
                    } else {
                        None
                    }
                }
            },
            _ => None,
        }
    }

    /// Parses an Ion value into a range of the given family.
    pub fn from_ion_element(
        value: &IonElement,
        range_type: RangeType,
        isl_version: IslVersion,
    ) -> (r: IonSchemaResult<Range>)
        ensures
            r is Ok <==> Self::spec_from_ion(*value, range_type, isl_version) is Some,
            r matches Ok(rng) ==> Self::spec_from_ion(*value, range_type, isl_version) == Some(
                rng,
            ) && spec_range_wf(rng),
    {
        proof {
            lemma_from_ion_range_well_formed(*value, range_type, isl_version);
        }
        match &value.value {
            IonValue::Int(i) => {
                match range_type {
                    RangeType::Precision | RangeType::NonNegativeInteger => {
                        let u = match Self::validate_non_negative_integer_range_boundary_value(
                            *i,
                            &range_type,
                        ) {
                            Ok(u) => u,
                            Err(e) => {
                                return Err(e);
                            },
                        };
                        match RangeImpl::<usize>::range(
                            RangeBoundaryValue::Value(u, RangeBoundaryType::Inclusive),
                            RangeBoundaryValue::Value(u, RangeBoundaryType::Inclusive),
                        ) {
                            Ok(ri) => Ok(Range::NonNegativeInteger(ri)),
                            Err(_) => {
                                proof {
                                    assert(false);
                                }
                                unreached()
                            },
                        }
                    },
                    RangeType::TimestampPrecision => invalid_schema_error(
                        "Timestamp precision ranges can not be constructed from an integer value",
                    ),
                    RangeType::Any => {
                        match RangeImpl::<i128>::range(
                            RangeBoundaryValue::Value(*i, RangeBoundaryType::Inclusive),
                            RangeBoundaryValue::Value(*i, RangeBoundaryType::Inclusive),
                        ) {
                            Ok(ri) => Ok(Range::Integer(ri)),
                            Err(_) => {
                                proof {
                                    assert(false);
                                }
                                unreached()
                            },
                        }
                    },
                    RangeType::NumberOrTimestamp => {
                        let n = Number::from_int(*i);
                        match NumberRange::new(
                            RangeBoundaryValue::Value(n, RangeBoundaryType::Inclusive),
                            RangeBoundaryValue::Value(n, RangeBoundaryType::Inclusive),
                        ) {
                            Ok(ri) => Ok(Range::Number(ri)),
                            Err(_) => {
                                proof {
                                    assert(false);
                                }
                                unreached()
                            },
                        }
                    },
                }
            },
            IonValue::Symbol(opt_text) => {
                let text = match opt_text {
                    Some(t) => t,
                    None => {
                        return invalid_schema_error(
                            "Range can not be constructed from symbol with unknown text",
                        );
                    },
                };
                if range_type == RangeType::TimestampPrecision {
                    let p = match TimestampPrecision::try_from(text.as_str()) {
                        Ok(p) => p,
                        Err(e) => {
                            return Err(e);
                        },
                    };
                    match TimestampPrecisionRange::new(
                        RangeBoundaryValue::Value(p, RangeBoundaryType::Inclusive),
                        RangeBoundaryValue::Value(p, RangeBoundaryType::Inclusive),
                    ) {
                        Ok(ri) => Ok(Range::TimestampPrecision(ri)),
                        Err(_) => {
                            proof {
                                assert(false);
                            }
                            unreached()
                        },
                    }
                } else {
                    invalid_schema_error("these ranges can not be constructed from a symbol value")
                }
            },
            IonValue::List(items) => {
                if !value.has_annotation("range") {
                    return invalid_schema_error(
                        "An element representing a range must have the annotation `range`.",
                    );
                }
                if items.len() != 2 {
                    return invalid_schema_error(
                        "Ranges must contain two values representing the minimum and maximum ends of range.",
                    );
                }
                let start_elem = &items[0];
                let end_elem = &items[1];
                let t = start_elem.ion_type();
                match t {
                    IonType::Symbol
                    | IonType::Int
                    | IonType::Float
                    | IonType::Decimal
                    | IonType::Timestamp => {
                        let b1 = match TypedRangeBoundaryValue::from_ion_element(
                            start_elem,
                            range_type,
                            isl_version,
                        ) {
                            Ok(b) => b,
                            Err(e) => {
                                return Err(e);
                            },
                        };
                        let b2 = match TypedRangeBoundaryValue::from_ion_element(
                            end_elem,
                            range_type,
                            isl_version,
                        ) {
                            Ok(b) => b,
                            Err(e) => {
                                return Err(e);
                            },
                        };
                        Self::validate_and_construct_range(b1, b2)
                    },
                    _ => invalid_schema_error("Unsupported range type specified"),
                }
            },
            _ => invalid_schema_error("Ranges can not be constructed from a value of this type"),
        }
    }

    /// Builds an integer range from typed boundaries; at least one side
    /// must be an integer boundary, and a mismatched other side is a
    /// boundary-type error.
    pub fn int_range_from_typed_boundary_value(
        start: TypedRangeBoundaryValue,
        end: TypedRangeBoundaryValue,
    ) -> (r: IonSchemaResult<RangeImpl<i128>>)
        requires
            start is Integer || end is Integer,
            spec_typed_wf(start),
            spec_typed_wf(end),
        ensures
            r is Ok <==> spec_int_range(start, end) is Some,
            r matches Ok(ri) ==> spec_int_range(start, end) == Some(ri),
    {
        match (start, end) {
            (
                TypedRangeBoundaryValue::Integer(RangeBoundaryValue::Value(v1, v1_type)),
                TypedRangeBoundaryValue::Integer(RangeBoundaryValue::Value(v2, v2_type)),
            ) => {
                if v1 < i128::MAX && v2 == v1 + 1 && v1_type == RangeBoundaryType::Exclusive
                    && v2_type == RangeBoundaryType::Exclusive {
                    invalid_schema_error("No valid values in the Integer range")
                } else {
                    RangeImpl::range(
                        RangeBoundaryValue::Value(v1, v1_type),
                        RangeBoundaryValue::Value(v2, v2_type),
                    )
                }
            },
            (TypedRangeBoundaryValue::Min, TypedRangeBoundaryValue::Integer(v2)) => RangeImpl::range(
                RangeBoundaryValue::Min,
                v2,
            ),
            (TypedRangeBoundaryValue::Integer(v1), TypedRangeBoundaryValue::Max) => RangeImpl::range(
                v1,
                RangeBoundaryValue::Max,
            ),
            (TypedRangeBoundaryValue::Integer(RangeBoundaryValue::Value(_, _)), _)
                | (_, TypedRangeBoundaryValue::Integer(RangeBoundaryValue::Value(_, _))) => invalid_schema_error(
                "Range boundaries must have the same types",
            ),
            _ => {
                proof {
                    assert(false);
                }
                unreached()
            },
        }
    }

    /// Builds a non-negative integer range from typed boundaries.
    pub fn int_non_negative_range_from_typed_boundary_value(
        start: TypedRangeBoundaryValue,
        end: TypedRangeBoundaryValue,
    ) -> (r: IonSchemaResult<RangeImpl<usize>>)
        requires
            start is NonNegativeInteger || end is NonNegativeInteger,
            spec_typed_wf(start),
            spec_typed_wf(end),
        ensures
            r is Ok <==> spec_non_negative_int_range(start, end) is Some,
            r matches Ok(ri) ==> spec_non_negative_int_range(start, end) == Some(ri),
    {
        match (start, end) {
            (
                TypedRangeBoundaryValue::NonNegativeInteger(RangeBoundaryValue::Value(v1, v1_type)),
                TypedRangeBoundaryValue::NonNegativeInteger(RangeBoundaryValue::Value(v2, v2_type)),
            ) => {
                if v2 > v1 && v2 - v1 == 1 && v1_type == RangeBoundaryType::Exclusive && v2_type
                    == RangeBoundaryType::Exclusive {
                    invalid_schema_error("No valid values in the Integer range")
                } else {
                    RangeImpl::range(
                        RangeBoundaryValue::Value(v1, v1_type),
                        RangeBoundaryValue::Value(v2, v2_type),
                    )
                }
            },
            (TypedRangeBoundaryValue::Min, TypedRangeBoundaryValue::NonNegativeInteger(v2)) => RangeImpl::range(
                RangeBoundaryValue::Min,
                v2,
            ),
            (TypedRangeBoundaryValue::NonNegativeInteger(v1), TypedRangeBoundaryValue::Max) => RangeImpl::range(
                v1,
                RangeBoundaryValue::Max,
            ),
            (TypedRangeBoundaryValue::NonNegativeInteger(RangeBoundaryValue::Value(_, _)), _)
                | (
                _,
                TypedRangeBoundaryValue::NonNegativeInteger(RangeBoundaryValue::Value(_, _)),
            ) => invalid_schema_error("Range boundaries should have same types"),
            _ => {
                proof {
                    assert(false);
                }
                unreached()
            },
        }
    }

    /// Builds a timestamp precision range from typed boundaries.
    pub fn timestamp_precision_range_from_typed_boundary_value(
        start: TypedRangeBoundaryValue,
        end: TypedRangeBoundaryValue,
    ) -> (r: IonSchemaResult<RangeImpl<TimestampPrecision>>)
        requires
            start is TimestampPrecision || end is TimestampPrecision,
            spec_typed_wf(start),
            spec_typed_wf(end),
        ensures
            r is Ok <==> spec_timestamp_precision_range(start, end) is Some,
            r matches Ok(ri) ==> spec_timestamp_precision_range(start, end) == Some(ri),
    {
        match (start, end) {
            (
                TypedRangeBoundaryValue::TimestampPrecision(v1),
                TypedRangeBoundaryValue::TimestampPrecision(v2),
            ) => RangeImpl::range(v1, v2),
            (TypedRangeBoundaryValue::Min, TypedRangeBoundaryValue::TimestampPrecision(v2)) => RangeImpl::range(
                RangeBoundaryValue::Min,
                v2,
            ),
            (TypedRangeBoundaryValue::TimestampPrecision(v1), TypedRangeBoundaryValue::Max) => RangeImpl::range(
                v1,
                RangeBoundaryValue::Max,
            ),
            (TypedRangeBoundaryValue::TimestampPrecision(RangeBoundaryValue::Value(_, _)), _)
                | (
                _,
                TypedRangeBoundaryValue::TimestampPrecision(RangeBoundaryValue::Value(_, _)),
            ) => invalid_schema_error("Range boundaries should have same types"),
            _ => {
                proof {
                    assert(false);
                }
                unreached()
            },
        }
    }

    /// Builds a float range from typed boundaries.
    pub fn float_range_from_typed_boundary_value(
        start: TypedRangeBoundaryValue,
        end: TypedRangeBoundaryValue,
    ) -> (r: IonSchemaResult<RangeImpl<FloatValue>>)
        requires
            start is Float || end is Float,
            spec_typed_wf(start),
            spec_typed_wf(end),
        ensures
            r is Ok <==> spec_float_range(start, end) is Some,
            r matches Ok(ri) ==> spec_float_range(start, end) == Some(ri),
    {
        match (start, end) {
            (TypedRangeBoundaryValue::Float(v1), TypedRangeBoundaryValue::Float(v2)) => RangeImpl::range(
                v1,
                v2,
            ),
            (TypedRangeBoundaryValue::Min, TypedRangeBoundaryValue::Float(v2)) => RangeImpl::range(
                RangeBoundaryValue::Min,
                v2,
            ),
            (TypedRangeBoundaryValue::Float(v1), TypedRangeBoundaryValue::Max) => RangeImpl::range(
                v1,
                RangeBoundaryValue::Max,
            ),
            (TypedRangeBoundaryValue::Float(RangeBoundaryValue::Value(_, _)), _)
                | (_, TypedRangeBoundaryValue::Float(RangeBoundaryValue::Value(_, _))) => invalid_schema_error(
                "Range boundaries should have same types",
            ),
            _ => {
                proof {
                    assert(false);
                }
                unreached()
            },
        }
    }

    /// Builds a decimal range from typed boundaries.
    pub fn decimal_range_from_typed_boundary_value(
        start: TypedRangeBoundaryValue,
        end: TypedRangeBoundaryValue,
    ) -> (r: IonSchemaResult<RangeImpl<Decimal>>)
        requires
            start is Decimal || end is Decimal,
            spec_typed_wf(start),
            spec_typed_wf(end),
        ensures
            r is Ok <==> spec_decimal_range(start, end) is Some,
            r matches Ok(ri) ==> spec_decimal_range(start, end) == Some(ri),
    {
        match (start, end) {
            (TypedRangeBoundaryValue::Decimal(v1), TypedRangeBoundaryValue::Decimal(v2)) => RangeImpl::range(
                v1,
                v2,
            ),
            (TypedRangeBoundaryValue::Min, TypedRangeBoundaryValue::Decimal(v2)) => RangeImpl::range(
                RangeBoundaryValue::Min,
                v2,
            ),
            (TypedRangeBoundaryValue::Decimal(v1), TypedRangeBoundaryValue::Max) => RangeImpl::range(
                v1,
                RangeBoundaryValue::Max,
            ),
            (TypedRangeBoundaryValue::Decimal(RangeBoundaryValue::Value(_, _)), _)
                | (_, TypedRangeBoundaryValue::Decimal(RangeBoundaryValue::Value(_, _))) => invalid_schema_error(
                "Range boundaries should have same types",
            ),
            _ => {
                proof {
                    assert(false);
                }
                unreached()
            },
        }
    }

    /// Builds a number range from typed boundaries.
    pub fn number_range_from_typed_boundary_value(
        start: TypedRangeBoundaryValue,
        end: TypedRangeBoundaryValue,
    ) -> (r: IonSchemaResult<RangeImpl<Number>>)
        requires
            start is Number || end is Number,
            spec_typed_wf(start),
            spec_typed_wf(end),
        ensures
            r is Ok <==> spec_number_range(start, end) is Some,
            r matches Ok(ri) ==> spec_number_range(start, end) == Some(ri),
    {
        match (start, end) {
            (TypedRangeBoundaryValue::Number(v1), TypedRangeBoundaryValue::Number(v2)) => RangeImpl::range(
                v1,
                v2,
            ),
            (TypedRangeBoundaryValue::Min, TypedRangeBoundaryValue::Number(v2)) => RangeImpl::range(
                RangeBoundaryValue::Min,
                v2,
            ),
            (TypedRangeBoundaryValue::Number(v1), TypedRangeBoundaryValue::Max) => RangeImpl::range(
                v1,
                RangeBoundaryValue::Max,
            ),
            (TypedRangeBoundaryValue::Number(RangeBoundaryValue::Value(_, _)), _)
                | (_, TypedRangeBoundaryValue::Number(RangeBoundaryValue::Value(_, _))) => invalid_schema_error(
                "Range boundaries should have same types",
            ),
            _ => {
                proof {
                    assert(false);
                }
                unreached()
            },
        }
    }

    /// Builds a timestamp range from typed boundaries.
    pub fn timestamp_range_from_typed_boundary_value(
        start: TypedRangeBoundaryValue,
        end: TypedRangeBoundaryValue,
    ) -> (r: IonSchemaResult<RangeImpl<TimestampValue>>)
        requires
            start is Timestamp || end is Timestamp,
            spec_typed_wf(start),
            spec_typed_wf(end),
        ensures
            r is Ok <==> spec_timestamp_range(start, end) is Some,
            r matches Ok(ri) ==> spec_timestamp_range(start, end) == Some(ri),
    {
        match (start, end) {
            (TypedRangeBoundaryValue::Timestamp(v1), TypedRangeBoundaryValue::Timestamp(v2)) => RangeImpl::range(
                v1,
                v2,
            ),
            (TypedRangeBoundaryValue::Min, TypedRangeBoundaryValue::Timestamp(v2)) => RangeImpl::range(
                RangeBoundaryValue::Min,
                v2,
            ),
            (TypedRangeBoundaryValue::Timestamp(v1), TypedRangeBoundaryValue::Max) => RangeImpl::range(
                v1,
                RangeBoundaryValue::Max,
            ),
            (TypedRangeBoundaryValue::Timestamp(RangeBoundaryValue::Value(_, _)), _)
                | (_, TypedRangeBoundaryValue::Timestamp(RangeBoundaryValue::Value(_, _))) => invalid_schema_error(
                "Range boundaries should have same types",
            ),
            _ => {
                proof {
                    assert(false);
                }
                unreached()
            },
        }
    }
}

impl From<usize> for RangeImpl<usize> {
    /// The one-point range `[value, value]`.
    fn from(non_negative_int_value: usize) -> (r: Self) {
        match RangeImpl::range(
            RangeBoundaryValue::Value(non_negative_int_value, RangeBoundaryType::Inclusive),
            RangeBoundaryValue::Value(non_negative_int_value, RangeBoundaryType::Inclusive),
        ) {
            Ok(ri) => ri,
            Err(_) => {
                proof {
                    assert(false);
                }
                unreached()
            },
        }
    }
}

impl vstd::std_specs::convert::FromSpecImpl<usize> for RangeImpl<usize> {
    open spec fn obeys_from_spec() -> bool {
        true
    }

    open spec fn from_spec(v: usize) -> Self {
        RangeImpl {
            start: RangeBoundaryValue::Value(v, RangeBoundaryType::Inclusive),
            end: RangeBoundaryValue::Value(v, RangeBoundaryType::Inclusive),
        }
    }
}

impl From<i128> for RangeImpl<i128> {
    /// The one-point range `[value, value]`.
    fn from(int_value: i128) -> (r: Self) {
        match RangeImpl::range(
            RangeBoundaryValue::Value(int_value, RangeBoundaryType::Inclusive),
            RangeBoundaryValue::Value(int_value, RangeBoundaryType::Inclusive),
        ) {
            Ok(ri) => ri,
            Err(_) => {
                proof {
                    assert(false);
                }
                unreached()
            },
        }
    }
}

impl vstd::std_specs::convert::FromSpecImpl<i128> for RangeImpl<i128> {
    open spec fn obeys_from_spec() -> bool {
        true
    }

    open spec fn from_spec(v: i128) -> Self {
        RangeImpl {
            start: RangeBoundaryValue::Value(v, RangeBoundaryType::Inclusive),
            end: RangeBoundaryValue::Value(v, RangeBoundaryType::Inclusive),
        }
    }
}

impl RangeImpl<TimestampPrecision> {
    /// The one-point range over the precision a symbol names.
    pub fn try_from(value: &str) -> (r: IonSchemaResult<Self>)
        ensures
            r is Ok <==> TimestampPrecision::spec_of_text(value@) is Some,
            r matches Ok(ri) ==> TimestampPrecision::spec_of_text(value@) matches Some(p)
                && ri.start == RangeBoundaryValue::Value(p, RangeBoundaryType::Inclusive)
                && ri.end == RangeBoundaryValue::Value(p, RangeBoundaryType::Inclusive),
    {
        let timestamp_precision = match TimestampPrecision::try_from(value) {
            Ok(p) => p,
            Err(e) => {
                return Err(e);
            },
        };
        match RangeImpl::range(
            RangeBoundaryValue::Value(timestamp_precision, RangeBoundaryType::Inclusive),
            RangeBoundaryValue::Value(timestamp_precision, RangeBoundaryType::Inclusive),
        ) {
            Ok(ri) => Ok(ri),
            Err(_) => {
                proof {
                    assert(false);
                }
                unreached()
            },
        }
    }
}

impl From<IntegerRange> for Range {
    fn from(value: IntegerRange) -> (r: Self) {
        Range::Integer(value)
    }
}

impl vstd::std_specs::convert::FromSpecImpl<IntegerRange> for Range {
    open spec fn obeys_from_spec() -> bool {
        true
    }

    open spec fn from_spec(v: IntegerRange) -> Self {
        Range::Integer(v)
    }
}

impl From<NonNegativeIntegerRange> for Range {
    fn from(value: NonNegativeIntegerRange) -> (r: Self) {
        Range::NonNegativeInteger(value)
    }
}

impl vstd::std_specs::convert::FromSpecImpl<NonNegativeIntegerRange> for Range {
    open spec fn obeys_from_spec() -> bool {
        true
    }

    open spec fn from_spec(v: NonNegativeIntegerRange) -> Self {
        Range::NonNegativeInteger(v)
    }
}

impl From<FloatRange> for Range {
    fn from(value: FloatRange) -> (r: Self) {
        Range::Float(value)
    }
}

impl vstd::std_specs::convert::FromSpecImpl<FloatRange> for Range {
    open spec fn obeys_from_spec() -> bool {
        true
    }

    open spec fn from_spec(v: FloatRange) -> Self {
        Range::Float(v)
    }
}

impl From<DecimalRange> for Range {
    fn from(value: DecimalRange) -> (r: Self) {
        Range::Decimal(value)
    }
}

impl vstd::std_specs::convert::FromSpecImpl<DecimalRange> for Range {
    open spec fn obeys_from_spec() -> bool {
        true
    }

    open spec fn from_spec(v: DecimalRange) -> Self {
        Range::Decimal(v)
    }
}

impl From<TimestampRange> for Range {
    fn from(value: TimestampRange) -> (r: Self) {
        Range::Timestamp(value)
    }
}

impl vstd::std_specs::convert::FromSpecImpl<TimestampRange> for Range {
    open spec fn obeys_from_spec() -> bool {
        true
    }

    open spec fn from_spec(v: TimestampRange) -> Self {
        Range::Timestamp(v)
    }
}

impl From<TimestampPrecisionRange> for Range {
    fn from(value: TimestampPrecisionRange) -> (r: Self) {
        Range::TimestampPrecision(value)
    }
}

impl vstd::std_specs::convert::FromSpecImpl<TimestampPrecisionRange> for Range {
    open spec fn obeys_from_spec() -> bool {
        true
    }

    open spec fn from_spec(v: TimestampPrecisionRange) -> Self {
        Range::TimestampPrecision(v)
    }
}

impl From<NumberRange> for Range {
    fn from(value: NumberRange) -> (r: Self) {
        Range::Number(value)
    }
}

impl vstd::std_specs::convert::FromSpecImpl<NumberRange> for Range {
    open spec fn obeys_from_spec() -> bool {
        true
    }

    open spec fn from_spec(v: NumberRange) -> Self {
        Range::Number(v)
    }
}

/// Law: a well-formed range never has `max` as its lower boundary nor
/// `min` as its upper.
pub proof fn lemma_wf_excludes_inverted_sentinels<T: RangeElement>(ri: RangeImpl<T>)
    requires
        ri.wf(),
    ensures
        !(ri.start is Max),
        !(ri.end is Min),
{
}

/// Law: boundaries that are equal with either side exclusive describe an
/// empty range, and never construct.
pub proof fn lemma_empty_range_rejected<T: RangeElement>(
    start: RangeBoundaryValue<T>,
    end: RangeBoundaryValue<T>,
)
    requires
        start.boundary_eq_spec(end),
        start.boundary_type_spec() is Exclusive || end.boundary_type_spec() is Exclusive,
    ensures
        !RangeImpl::<T>::spec_valid(start, end),
{
}

/// Law: over the integers, exclusive boundaries around two adjacent
/// values leave no admissible integer, and are rejected.
pub proof fn lemma_adjacent_exclusive_integers_rejected(k: i128)
    requires
        k < i128::MAX,
    ensures
        spec_int_range(
            TypedRangeBoundaryValue::Integer(
                RangeBoundaryValue::Value(k, RangeBoundaryType::Exclusive),
            ),
            TypedRangeBoundaryValue::Integer(
                RangeBoundaryValue::Value((k + 1) as i128, RangeBoundaryType::Exclusive),
            ),
        ) is None,
{
}

/// Law: the `min` and `max` sentinels together never describe a range.
pub proof fn lemma_min_max_rejected()
    ensures
        spec_validate_and_construct(
            TypedRangeBoundaryValue::Min,
            TypedRangeBoundaryValue::Max,
        ) is None,
{
}

/// Law: a range from `min` up to an inclusive boundary `k` admits exactly
/// the values ordered at or below `k`.
pub proof fn lemma_min_to_inclusive_upper_contains<T: RangeElement>(
    ri: RangeImpl<T>,
    k: T,
    v: T,
)
    requires
        ri.start is Min,
        ri.end == RangeBoundaryValue::Value(k, RangeBoundaryType::Inclusive),
    ensures
        ri.spec_contains(v) <==> v.le_spec(&k),
{
}

/// Law: a pair of typed boundaries only ever constructs a well-formed
/// range.
pub proof fn lemma_validate_and_construct_wf(
    start: TypedRangeBoundaryValue,
    end: TypedRangeBoundaryValue,
)
    ensures
        spec_validate_and_construct(start, end) matches Some(r) ==> spec_range_wf(r),
{
}

/// Law: any range parsed from an Ion value is well formed, so membership
/// in it is exactly the boundary check that `RangeImpl::contains` states:
/// the lower boundary admits the value and the upper boundary does.
pub proof fn lemma_from_ion_range_well_formed(
    value: IonElement,
    range_type: RangeType,
    isl_version: IslVersion,
)
    ensures
        Range::spec_from_ion(value, range_type, isl_version) matches Some(r) ==> spec_range_wf(r),
{
    if Range::spec_from_ion(value, range_type, isl_version) is Some {
        match value.value {
            IonValue::List(items) => {
                if value.has_annotation_spec("range"@) && items@.len() == 2 {
                    match TypedRangeBoundaryValue::spec_from_ion(
                        items@[0],
                        range_type,
                        isl_version,
                    ) {
                        Some(b1) => {
                            match TypedRangeBoundaryValue::spec_from_ion(
                                items@[1],
                                range_type,
                                isl_version,
                            ) {
                                Some(b2) => {
                                    lemma_validate_and_construct_wf(b1, b2);
                                },
                                None => {},
                            }
                        },
                        None => {},
                    }
                }
            },
            _ => {},
        }
    }
}

} // verus!
