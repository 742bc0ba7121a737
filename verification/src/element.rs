//! Plain-value model of the Ion values that the schema machinery reads: a
//! tagged element with annotations, whose scalar payloads (integers,
//! decimals, floats, timestamps) are held as plain data so that every rule
//! written over them can be verified.

use vstd::arithmetic::power::pow;
use vstd::prelude::*;

verus! {

/// An arbitrary-precision decimal number with the value
/// `coefficient * 10^(-scale)`.
///
/// This is the unified representation behind Ion decimals, the numeric
/// tower used by number ranges, and the instant of a timestamp. The
/// coefficient is bounded by `i128`; values needing a wider coefficient are
/// outside this model.
#[derive(Debug, Clone, Copy)]
pub struct Decimal {
    pub coefficient: i128,
    pub scale: i64,
}

/// The common scale both operands can be brought to without rounding.
pub open spec fn common_scale(a: Decimal, b: Decimal) -> int {
    if a.scale >= b.scale {
        a.scale as int
    } else {
        b.scale as int
    }
}

/// The integer `d.coefficient * 10^(at_scale - d.scale)`, i.e. the numeric
/// value of `d` multiplied by `10^at_scale`.
pub open spec fn scaled_coefficient(d: Decimal, at_scale: int) -> int
    recommends
        d.scale <= at_scale,
{
    d.coefficient * pow(10, (at_scale - d.scale) as nat)
}

/// Numeric strictly-less-than on decimal values.
pub open spec fn dec_lt(a: Decimal, b: Decimal) -> bool {
    scaled_coefficient(a, common_scale(a, b)) < scaled_coefficient(b, common_scale(a, b))
}

/// Numeric equality on decimal values (`1.00` equals `1`).
pub open spec fn dec_eq(a: Decimal, b: Decimal) -> bool {
    scaled_coefficient(a, common_scale(a, b)) == scaled_coefficient(b, common_scale(a, b))
}

/// Scaling to a higher common scale multiplies the scaled coefficient by
/// the corresponding power of ten.
proof fn lemma_scaled_at_higher_scale(d: Decimal, m: int, m2: int)
    requires
        d.scale <= m <= m2,
    ensures
        scaled_coefficient(d, m2) == scaled_coefficient(d, m) * pow(10, (m2 - m) as nat),
{
    assert((m2 - d.scale) as nat == (m - d.scale) as nat + (m2 - m) as nat);
    vstd::arithmetic::power::lemma_pow_adds(10, (m - d.scale) as nat, (m2 - m) as nat);
    vstd::arithmetic::mul::lemma_mul_is_associative(
        d.coefficient as int,
        pow(10, (m - d.scale) as nat),
        pow(10, (m2 - m) as nat),
    );
}

/// Comparing at any common scale at or above both operands' scales agrees
/// with the order's definition.
pub proof fn lemma_dec_lt_at_scale(a: Decimal, b: Decimal, m: int)
    requires
        a.scale <= m,
        b.scale <= m,
    ensures
        dec_lt(a, b) <==> scaled_coefficient(a, m) < scaled_coefficient(b, m),
{
    let m0 = common_scale(a, b);
    let p = pow(10, (m - m0) as nat);
    vstd::arithmetic::power::lemma_pow_positive(10, (m - m0) as nat);
    lemma_scaled_at_higher_scale(a, m0, m);
    lemma_scaled_at_higher_scale(b, m0, m);
    if scaled_coefficient(a, m0) < scaled_coefficient(b, m0) {
        vstd::arithmetic::mul::lemma_mul_strict_inequality(
            scaled_coefficient(a, m0),
            scaled_coefficient(b, m0),
            p,
        );
    }
    if scaled_coefficient(a, m) < scaled_coefficient(b, m) {
        vstd::arithmetic::mul::lemma_mul_strict_inequality_converse(
            scaled_coefficient(a, m0),
            scaled_coefficient(b, m0),
            p,
        );
    }
}

/// As `lemma_dec_lt_at_scale`, for equality.
pub proof fn lemma_dec_eq_at_scale(a: Decimal, b: Decimal, m: int)
    requires
        a.scale <= m,
        b.scale <= m,
    ensures
        dec_eq(a, b) <==> scaled_coefficient(a, m) == scaled_coefficient(b, m),
{
    let m0 = common_scale(a, b);
    let p = pow(10, (m - m0) as nat);
    vstd::arithmetic::power::lemma_pow_positive(10, (m - m0) as nat);
    lemma_scaled_at_higher_scale(a, m0, m);
    lemma_scaled_at_higher_scale(b, m0, m);
    if scaled_coefficient(a, m0) < scaled_coefficient(b, m0) {
        vstd::arithmetic::mul::lemma_mul_strict_inequality(
            scaled_coefficient(a, m0),
            scaled_coefficient(b, m0),
            p,
        );
    }
    if scaled_coefficient(b, m0) < scaled_coefficient(a, m0) {
        vstd::arithmetic::mul::lemma_mul_strict_inequality(
            scaled_coefficient(b, m0),
            scaled_coefficient(a, m0),
            p,
        );
    }
}

/// Law: the numeric order on decimals sorts any two values exactly one
/// way: below, equal, or above.
pub proof fn lemma_dec_trichotomy(a: Decimal, b: Decimal)
    ensures
        dec_lt(a, b) || dec_eq(a, b) || dec_lt(b, a),
        dec_lt(a, b) ==> !dec_eq(a, b) && !dec_lt(b, a),
        dec_eq(a, b) ==> !dec_lt(a, b) && !dec_lt(b, a),
{
}

/// Law: the numeric order on decimals is transitive.
pub proof fn lemma_dec_lt_transitive(a: Decimal, b: Decimal, c: Decimal)
    requires
        dec_lt(a, b),
        dec_lt(b, c),
    ensures
        dec_lt(a, c),
{
    let m0 = common_scale(a, b);
    let m = if m0 >= c.scale {
        m0
    } else {
        c.scale as int
    };
    lemma_dec_lt_at_scale(a, b, m);
    lemma_dec_lt_at_scale(b, c, m);
    lemma_dec_lt_at_scale(a, c, m);
}

/// Law: numerically equal decimals compare alike against any third value.
pub proof fn lemma_dec_eq_respects_lt(a: Decimal, b: Decimal, c: Decimal)
    requires
        dec_eq(b, c),
    ensures
        dec_lt(a, b) <==> dec_lt(a, c),
        dec_lt(b, a) <==> dec_lt(c, a),
        dec_eq(a, b) <==> dec_eq(a, c),
{
    let m1 = common_scale(a, b);
    let m2 = common_scale(b, c);
    let m3 = if m1 >= m2 {
        m1
    } else {
        m2
    };
    lemma_dec_eq_at_scale(b, c, m3);
    lemma_dec_lt_at_scale(a, b, m3);
    lemma_dec_lt_at_scale(a, c, m3);
    lemma_dec_lt_at_scale(b, a, m3);
    lemma_dec_lt_at_scale(c, a, m3);
    lemma_dec_eq_at_scale(a, b, m3);
    lemma_dec_eq_at_scale(a, c, m3);
}

/// Relies on `bigdecimal::BigDecimal::cmp` (its arguments built with
/// `BigDecimal::new` and `BigInt::from`): a `BigDecimal` with integer
/// coefficient `c` and scale `s` denotes the number `c * 10^(-s)`, and
/// `cmp` orders two such numbers by numeric value.
#[verifier::external_body]
fn dec_cmp(a: &Decimal, b: &Decimal) -> (r: i8)
    ensures
        (r == -1i8) <==> dec_lt(*a, *b),
        (r == 0i8) <==> dec_eq(*a, *b),
        (r == 1i8) <==> dec_lt(*b, *a),
{
    let x = bigdecimal::BigDecimal::new(
        bigdecimal::num_bigint::BigInt::from(a.coefficient),
        a.scale,
    );
    let y = bigdecimal::BigDecimal::new(
        bigdecimal::num_bigint::BigInt::from(b.coefficient),
        b.scale,
    );
    match x.cmp(&y) {
        core::cmp::Ordering::Less => -1,
        core::cmp::Ordering::Equal => 0,
        core::cmp::Ordering::Greater => 1,
    }
}

impl Decimal {
    /// Numeric strictly-less-than.
    pub fn lt(&self, other: &Decimal) -> (r: bool)
        ensures
            r == dec_lt(*self, *other),
    {
        dec_cmp(self, other) == -1
    }

    /// Numeric less-than-or-equal.
    pub fn le(&self, other: &Decimal) -> (r: bool)
        ensures
            r == (dec_lt(*self, *other) || dec_eq(*self, *other)),
    {
        let c = dec_cmp(self, other);
        c == -1 || c == 0
    }

    /// Numeric equality, ignoring how many trailing zeros each side carries.
    pub fn eq_value(&self, other: &Decimal) -> (r: bool)
        ensures
            r == dec_eq(*self, *other),
    {
        dec_cmp(self, other) == 0
    }
}

impl PartialEq for Decimal {
    /// Decimals compare by numeric value: `1.00` equals `1`.
    fn eq(&self, other: &Self) -> (r: bool) {
        self.eq_value(other)
    }
}

impl vstd::std_specs::cmp::PartialEqSpecImpl for Decimal {
    open spec fn obeys_eq_spec() -> bool {
        true
    }

    open spec fn eq_spec(&self, other: &Self) -> bool {
        dec_eq(*self, *other)
    }
}

/// The ordering on decimal values: below, equal, or above by numeric
/// value.
pub open spec fn spec_dec_cmp(a: Decimal, b: Decimal) -> core::cmp::Ordering {
    if dec_lt(a, b) {
        core::cmp::Ordering::Less
    } else if dec_eq(a, b) {
        core::cmp::Ordering::Equal
    } else {
        core::cmp::Ordering::Greater
    }
}

impl PartialOrd for Decimal {
    /// Decimals order by numeric value; the ordering is total.
    fn partial_cmp(&self, other: &Self) -> (r: Option<core::cmp::Ordering>) {
        let c = dec_cmp(self, other);
        if c == -1 {
            Some(core::cmp::Ordering::Less)
        } else if c == 0 {
            Some(core::cmp::Ordering::Equal)
        } else {
            Some(core::cmp::Ordering::Greater)
        }
    }
}

impl vstd::std_specs::cmp::PartialOrdSpecImpl for Decimal {
    open spec fn obeys_partial_cmp_spec() -> bool {
        true
    }

    open spec fn partial_cmp_spec(&self, other: &Self) -> Option<core::cmp::Ordering> {
        Some(spec_dec_cmp(*self, *other))
    }
}

/// The date-time resolution an Ion timestamp was written with, before any
/// fractional seconds are taken into account.
#[derive(Debug, Clone, Copy, PartialEq, Eq, Structural)]
pub enum Precision {
    Year,
    Month,
    Day,
    HourAndMinute,
    Second,
}

/// Plain-value model of an Ion timestamp: the instant it denotes (seconds,
/// as an exact decimal), the resolution it was written with, and its UTC
/// offset, if known.
#[derive(Debug, Clone, Copy)]
pub struct TimestampValue {
    /// Seconds since a fixed epoch; comparisons between timestamps compare
    /// these instants.
    pub instant: Decimal,
    pub precision: Precision,
    /// Number of fractional-second digits, when the precision reaches
    /// seconds and the source spelled any out.
    pub fractional_seconds_scale: Option<i64>,
    /// Offset from UTC in minutes; `None` models the unknown offset
    /// (`-00:00`).
    pub offset_minutes: Option<i32>,
}

/// Plain-value model of an Ion float: IEEE-754 binary64 values, with every
/// finite value held as the exact decimal it denotes.
#[derive(Debug, Clone, Copy)]
pub enum FloatValue {
    NegativeInfinity,
    Finite(Decimal),
    PositiveInfinity,
    NotANumber,
}

impl PartialEq for TimestampValue {
    /// Timestamps compare equal when they denote the same instant.
    fn eq(&self, other: &Self) -> (r: bool) {
        self.instant.eq_value(&other.instant)
    }
}

impl vstd::std_specs::cmp::PartialEqSpecImpl for TimestampValue {
    open spec fn obeys_eq_spec() -> bool {
        true
    }

    open spec fn eq_spec(&self, other: &Self) -> bool {
        dec_eq(self.instant, other.instant)
    }
}

impl PartialEq for FloatValue {
    /// IEEE-754 equality: not-a-number equals nothing, and the two zeros
    /// are equal.
    fn eq(&self, other: &Self) -> (r: bool) {
        match (self, other) {
            (FloatValue::NegativeInfinity, FloatValue::NegativeInfinity) => true,
            (FloatValue::PositiveInfinity, FloatValue::PositiveInfinity) => true,
            (FloatValue::Finite(a), FloatValue::Finite(b)) => a.eq_value(b),
            _ => false,
        }
    }
}

impl vstd::std_specs::cmp::PartialEqSpecImpl for FloatValue {
    open spec fn obeys_eq_spec() -> bool {
        true
    }

    open spec fn eq_spec(&self, other: &Self) -> bool {
        match (self, other) {
            (FloatValue::NegativeInfinity, FloatValue::NegativeInfinity) => true,
            (FloatValue::PositiveInfinity, FloatValue::PositiveInfinity) => true,
            (FloatValue::Finite(a), FloatValue::Finite(b)) => dec_eq(*a, *b),
            _ => false,
        }
    }
}

impl PartialOrd for TimestampValue {
    /// Timestamps order by the instant they denote; the ordering is
    /// total.
    fn partial_cmp(&self, other: &Self) -> (r: Option<core::cmp::Ordering>) {
        self.instant.partial_cmp(&other.instant)
    }
}

impl vstd::std_specs::cmp::PartialOrdSpecImpl for TimestampValue {
    open spec fn obeys_partial_cmp_spec() -> bool {
        true
    }

    open spec fn partial_cmp_spec(&self, other: &Self) -> Option<core::cmp::Ordering> {
        Some(spec_dec_cmp(self.instant, other.instant))
    }
}

impl PartialOrd for FloatValue {
    /// IEEE-754 ordering: nothing orders against not-a-number, the
    /// infinities bound the finite values, and finite values order as
    /// the decimals they denote.
    fn partial_cmp(&self, other: &Self) -> (r: Option<core::cmp::Ordering>) {
        match (self, other) {
            (FloatValue::NotANumber, _) => None,
            (_, FloatValue::NotANumber) => None,
            (FloatValue::NegativeInfinity, FloatValue::NegativeInfinity) => Some(
                core::cmp::Ordering::Equal,
            ),
            (FloatValue::NegativeInfinity, _) => Some(core::cmp::Ordering::Less),
            (_, FloatValue::NegativeInfinity) => Some(core::cmp::Ordering::Greater),
            (FloatValue::PositiveInfinity, FloatValue::PositiveInfinity) => Some(
                core::cmp::Ordering::Equal,
            ),
            (_, FloatValue::PositiveInfinity) => Some(core::cmp::Ordering::Less),
            (FloatValue::PositiveInfinity, _) => Some(core::cmp::Ordering::Greater),
            (FloatValue::Finite(a), FloatValue::Finite(b)) => a.partial_cmp(b),
        }
    }
}

impl vstd::std_specs::cmp::PartialOrdSpecImpl for FloatValue {
    open spec fn obeys_partial_cmp_spec() -> bool {
        true
    }

    open spec fn partial_cmp_spec(&self, other: &Self) -> Option<core::cmp::Ordering> {
        match (self, other) {
            (FloatValue::NotANumber, _) => None,
            (_, FloatValue::NotANumber) => None,
            (FloatValue::NegativeInfinity, FloatValue::NegativeInfinity) => Some(
                core::cmp::Ordering::Equal,
            ),
            (FloatValue::NegativeInfinity, _) => Some(core::cmp::Ordering::Less),
            (_, FloatValue::NegativeInfinity) => Some(core::cmp::Ordering::Greater),
            (FloatValue::PositiveInfinity, FloatValue::PositiveInfinity) => Some(
                core::cmp::Ordering::Equal,
            ),
            (_, FloatValue::PositiveInfinity) => Some(core::cmp::Ordering::Less),
            (FloatValue::PositiveInfinity, _) => Some(core::cmp::Ordering::Greater),
            (FloatValue::Finite(a), FloatValue::Finite(b)) => Some(spec_dec_cmp(*a, *b)),
        }
    }
}

/// The Ion type tags.
#[derive(Debug, Clone, Copy, PartialEq, Eq, Structural)]
pub enum IonType {
    Null,
    Bool,
    Int,
    Float,
    Decimal,
    Timestamp,
    Symbol,
    String,
    Clob,
    Blob,
    List,
    SExp,
    Struct,
}

/// The payload of an Ion element. A typed null carries the type it is a
/// null of; a symbol's text is `None` when unknown.
#[derive(Debug)]
pub enum IonValue {
    Null(IonType),
    Bool(bool),
    Int(i128),
    Float(FloatValue),
    Decimal(Decimal),
    Timestamp(TimestampValue),
    Symbol(Option<String>),
    String(String),
    Clob(Vec<u8>),
    Blob(Vec<u8>),
    List(Vec<IonElement>),
    SExp(Vec<IonElement>),
    Struct(Vec<(String, IonElement)>),
}

impl IonValue {
    /// The Ion type tag of this payload; a typed null reports the type it
    /// is a null of.
    pub open spec fn ion_type_spec(&self) -> IonType {
        match self {
            IonValue::Null(t) => *t,
            IonValue::Bool(_) => IonType::Bool,
            IonValue::Int(_) => IonType::Int,
            IonValue::Float(_) => IonType::Float,
            IonValue::Decimal(_) => IonType::Decimal,
            IonValue::Timestamp(_) => IonType::Timestamp,
            IonValue::Symbol(_) => IonType::Symbol,
            IonValue::String(_) => IonType::String,
            IonValue::Clob(_) => IonType::Clob,
            IonValue::Blob(_) => IonType::Blob,
            IonValue::List(_) => IonType::List,
            IonValue::SExp(_) => IonType::SExp,
            IonValue::Struct(_) => IonType::Struct,
        }
    }
}

/// Plain-value model of an Ion element: an ordered list of annotation
/// texts and a payload.
#[derive(Debug)]
pub struct IonElement {
    pub annotations: Vec<String>,
    pub value: IonValue,
}

impl IonElement {
    /// An element without annotations.
    pub fn of(value: IonValue) -> (r: IonElement)
        ensures
            r.value == value,
            r.annotations@.len() == 0,
    {
        IonElement { annotations: Vec::new(), value }
    }

    pub open spec fn ion_type_spec(&self) -> IonType {
        self.value.ion_type_spec()
    }

    /// The Ion type tag of this element.
    pub fn ion_type(&self) -> (t: IonType)
        ensures
            t == self.ion_type_spec(),
    {
        match &self.value {
            IonValue::Null(t) => *t,
            IonValue::Bool(_) => IonType::Bool,
            IonValue::Int(_) => IonType::Int,
            IonValue::Float(_) => IonType::Float,
            IonValue::Decimal(_) => IonType::Decimal,
            IonValue::Timestamp(_) => IonType::Timestamp,
            IonValue::Symbol(_) => IonType::Symbol,
            IonValue::String(_) => IonType::String,
            IonValue::Clob(_) => IonType::Clob,
            IonValue::Blob(_) => IonType::Blob,
            IonValue::List(_) => IonType::List,
            IonValue::SExp(_) => IonType::SExp,
            IonValue::Struct(_) => IonType::Struct,
        }
    }

    pub open spec fn is_null_spec(&self) -> bool {
        self.value is Null
    }

    /// Whether the element is a null of any Ion type.
    pub fn is_null(&self) -> (r: bool)
        ensures
            r == self.is_null_spec(),
    {
        match &self.value {
            IonValue::Null(_) => true,
            _ => false,
        }
    }

    /// Whether some annotation on the element reads exactly `a`.
    pub open spec fn has_annotation_spec(&self, a: Seq<char>) -> bool {
        exists|i: int| 0 <= i < self.annotations@.len() && self.annotations@[i]@ == a
    }

    /// Whether some annotation on the element reads differently from `a`.
    pub open spec fn has_other_annotation_spec(&self, a: Seq<char>) -> bool {
        exists|i: int| 0 <= i < self.annotations@.len() && self.annotations@[i]@ != a
    }

    pub fn has_annotation(&self, a: &str) -> (r: bool)
        ensures
            r == self.has_annotation_spec(a@),
    {
        let n = self.annotations.len();
        let mut i: usize = 0;
        while i < n
            invariant
                i <= n,
                n == self.annotations@.len(),
                forall|j: int| 0 <= j < i ==> self.annotations@[j]@ != a@,
            decreases n - i,
        {
            if crate::text::str_eq(self.annotations[i].as_str(), a) {
                proof {
                    assert(0 <= i < self.annotations@.len() && self.annotations@[i as int]@
                        == a@);
                }
                return true;
            }
            i += 1;
        }
        false
    }

    pub fn has_other_annotation(&self, a: &str) -> (r: bool)
        ensures
            r == self.has_other_annotation_spec(a@),
    {
        let n = self.annotations.len();
        let mut i: usize = 0;
        while i < n
            invariant
                i <= n,
                n == self.annotations@.len(),
                forall|j: int| 0 <= j < i ==> self.annotations@[j]@ == a@,
            decreases n - i,
        {
            if !crate::text::str_eq(self.annotations[i].as_str(), a) {
                proof {
                    assert(0 <= i < self.annotations@.len() && self.annotations@[i as int]@
                        != a@);
                }
                return true;
            }
            i += 1;
        }
        false
    }
}

} // verus!
