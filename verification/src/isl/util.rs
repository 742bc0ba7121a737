//! Value-level helpers shared by constraints: annotation descriptions,
//! timestamp precisions and offsets, and IEEE-754 interchange formats.

use crate::element::{IonElement, Precision, TimestampValue};
use crate::isl::isl_range::{Range, RangeType};
use crate::isl::IslVersion;
use crate::result::{invalid_schema_error, IonSchemaResult};
use crate::text::str_eq;
use vstd::prelude::*;
use vstd::string::StrSliceExecFns;

verus! {

/// One annotation expected by the `annotations` constraint: its text and
/// whether it must be present.
#[derive(Debug)]
pub struct Annotation {
    pub isl_version: IslVersion,
    pub value: String,
    pub is_required: bool,
}

impl Annotation {
    pub fn new(value: String, is_required: bool, isl_version: IslVersion) -> (r: Annotation)
        ensures
            r.value@ == value@,
            r.is_required == is_required,
            r.isl_version == isl_version,
    {
        Annotation { value, is_required, isl_version }
    }

    /// The annotation's text.
    pub fn value(&self) -> (r: &String)
        ensures
            r@ == self.value@,
    {
        &self.value
    }

    /// Whether the annotation must occur on a matching value.
    pub fn is_required(&self) -> (r: bool)
        ensures
            r == self.is_required,
    {
        self.is_required
    }

    /// Whether an annotation spelled as `value` in a schema document is
    /// required: an explicit `required::` wins, then a list-level
    /// `required` unless overridden by `optional::`, and otherwise
    /// annotations default to optional.
    pub open spec fn spec_is_annotation_required(
        value: IonElement,
        list_level_required: bool,
    ) -> bool {
        if value.has_annotation_spec("required"@) {
            true
        } else if list_level_required {
            !value.has_annotation_spec("optional"@)
        } else {
            false
        }
    }

    pub fn is_annotation_required(value: &IonElement, list_level_required: bool) -> (r: bool)
        ensures
            r == Self::spec_is_annotation_required(*value, list_level_required),
    {
        if value.has_annotation("required") {
            true
        } else if list_level_required {
            !value.has_annotation("optional")
        } else {
            false
        }
    }
}

/// The precision of an Ion timestamp as ranked by the
/// `timestamp_precision` constraint, ordered from years down to
/// fractions of a second.
#[derive(Debug, Clone, Copy, PartialEq, Eq, Structural)]
pub enum TimestampPrecision {
    Year,
    Month,
    Day,
    Minute,
    Second,
    Millisecond,
    Microsecond,
    Nanosecond,
    OtherFractionalSeconds(i64),
}

impl TimestampPrecision {
    /// The rank that orders precisions; fractional-second precisions rank
    /// by their number of fractional digits.
    pub open spec fn rank_spec(&self) -> int {
        match self {
            TimestampPrecision::Year => -4,
            TimestampPrecision::Month => -3,
            TimestampPrecision::Day => -2,
            TimestampPrecision::Minute => -1,
            TimestampPrecision::Second => 0,
            TimestampPrecision::Millisecond => 3,
            TimestampPrecision::Microsecond => 6,
            TimestampPrecision::Nanosecond => 9,
            TimestampPrecision::OtherFractionalSeconds(scale) => *scale as int,
        }
    }

    pub fn rank(&self) -> (r: i64)
        ensures
            r == self.rank_spec(),
    {
        match self {
            TimestampPrecision::Year => -4,
            TimestampPrecision::Month => -3,
            TimestampPrecision::Day => -2,
            TimestampPrecision::Minute => -1,
            TimestampPrecision::Second => 0,
            TimestampPrecision::Millisecond => 3,
            TimestampPrecision::Microsecond => 6,
            TimestampPrecision::Nanosecond => 9,
            TimestampPrecision::OtherFractionalSeconds(scale) => *scale,
        }
    }

    /// The precision a timestamp value was written with: its date-time
    /// resolution, refined by how many fractional-second digits it spells
    /// out (none being whole seconds).
    pub open spec fn spec_from_timestamp(timestamp_value: TimestampValue) -> TimestampPrecision {
        match timestamp_value.precision {
            Precision::Year => TimestampPrecision::Year,
            Precision::Month => TimestampPrecision::Month,
            Precision::Day => TimestampPrecision::Day,
            Precision::HourAndMinute => TimestampPrecision::Minute,
            Precision::Second => {
                let scale = match timestamp_value.fractional_seconds_scale {
                    None => 0,
                    Some(s) => s as int,
                };
                if scale == 0 {
                    TimestampPrecision::Second
                } else if scale == 3 {
                    TimestampPrecision::Millisecond
                } else if scale == 6 {
                    TimestampPrecision::Microsecond
                } else if scale == 9 {
                    TimestampPrecision::Nanosecond
                } else {
                    TimestampPrecision::OtherFractionalSeconds(
                        timestamp_value.fractional_seconds_scale.unwrap(),
                    )
                }
            },
        }
    }

    pub fn from_timestamp(timestamp_value: &TimestampValue) -> (r: TimestampPrecision)
        ensures
            r == Self::spec_from_timestamp(*timestamp_value),
    {
        match timestamp_value.precision {
            Precision::Year => TimestampPrecision::Year,
            Precision::Month => TimestampPrecision::Month,
            Precision::Day => TimestampPrecision::Day,
            Precision::HourAndMinute => TimestampPrecision::Minute,
            Precision::Second => {
                let scale = match timestamp_value.fractional_seconds_scale {
                    None => 0,
                    Some(s) => s,
                };
                match scale {
                    0 => TimestampPrecision::Second,
                    3 => TimestampPrecision::Millisecond,
                    6 => TimestampPrecision::Microsecond,
                    9 => TimestampPrecision::Nanosecond,
                    _ => TimestampPrecision::OtherFractionalSeconds(scale),
                }
            },
        }
    }

    /// How two precisions order: by rank alone, so `second` and a
    /// zero-digit fractional-seconds precision compare as equal here even
    /// though they are distinct values.
    pub open spec fn spec_rank_cmp(&self, other: &TimestampPrecision) -> core::cmp::Ordering {
        if self.rank_spec() < other.rank_spec() {
            core::cmp::Ordering::Less
        } else if self.rank_spec() == other.rank_spec() {
            core::cmp::Ordering::Equal
        } else {
            core::cmp::Ordering::Greater
        }
    }

    /// The precision named by a symbol in a schema document; `hour` is an
    /// alias for `minute`.
    pub open spec fn spec_of_text(s: Seq<char>) -> Option<TimestampPrecision> {
        if s == "year"@ {
            Some(TimestampPrecision::Year)
        } else if s == "month"@ {
            Some(TimestampPrecision::Month)
        } else if s == "day"@ {
            Some(TimestampPrecision::Day)
        } else if s == "minute"@ || s == "hour"@ {
            Some(TimestampPrecision::Minute)
        } else if s == "second"@ {
            Some(TimestampPrecision::Second)
        } else if s == "millisecond"@ {
            Some(TimestampPrecision::Millisecond)
        } else if s == "microsecond"@ {
            Some(TimestampPrecision::Microsecond)
        } else if s == "nanosecond"@ {
            Some(TimestampPrecision::Nanosecond)
        } else {
            None
        }
    }

    /// Parses a precision name, failing on any symbol outside the known
    /// set.
    pub fn try_from(value: &str) -> (r: IonSchemaResult<TimestampPrecision>)
        ensures
            match r {
                Ok(p) => Self::spec_of_text(value@) == Some(p),
                Err(_) => Self::spec_of_text(value@) is None,
            },
    {
        if str_eq(value, "year") {
            Ok(TimestampPrecision::Year)
        } else if str_eq(value, "month") {
            Ok(TimestampPrecision::Month)
        } else if str_eq(value, "day") {
            Ok(TimestampPrecision::Day)
        } else if str_eq(value, "minute") || str_eq(value, "hour") {
            Ok(TimestampPrecision::Minute)
        } else if str_eq(value, "second") {
            Ok(TimestampPrecision::Second)
        } else if str_eq(value, "millisecond") {
            Ok(TimestampPrecision::Millisecond)
        } else if str_eq(value, "microsecond") {
            Ok(TimestampPrecision::Microsecond)
        } else if str_eq(value, "nanosecond") {
            Ok(TimestampPrecision::Nanosecond)
        } else {
            invalid_schema_error("Invalid timestamp precision specified")
        }
    }
}

impl PartialOrd for TimestampPrecision {
    /// Precisions order by rank; the ordering is total.
    fn partial_cmp(&self, other: &TimestampPrecision) -> (r: Option<core::cmp::Ordering>) {
        let self_rank = self.rank();
        let other_rank = other.rank();
        if self_rank < other_rank {
            Some(core::cmp::Ordering::Less)
        } else if self_rank == other_rank {
            Some(core::cmp::Ordering::Equal)
        } else {
            Some(core::cmp::Ordering::Greater)
        }
    }
}

impl vstd::std_specs::cmp::PartialOrdSpecImpl for TimestampPrecision {
    open spec fn obeys_partial_cmp_spec() -> bool {
        true
    }

    open spec fn partial_cmp_spec(&self, other: &TimestampPrecision) -> Option<
        core::cmp::Ordering,
    > {
        Some(self.spec_rank_cmp(other))
    }
}

/// A timestamp offset from UTC: either a known signed number of minutes,
/// or the unknown offset written `-00:00`.
#[derive(Debug, Clone, Copy, PartialEq, Eq, Structural)]
pub enum TimestampOffset {
    Known(i32),
    Unknown,
}

/// Whether `c` is an ASCII decimal digit.
pub open spec fn spec_is_digit(c: char) -> bool {
    48 <= c as int && c as int <= 57
}

/// The numeric value of an ASCII decimal digit.
pub open spec fn spec_digit_val(c: char) -> int {
    c as int - 48
}

/// The digit's value, or `None` when `c` is no ASCII digit.
fn digit_of(c: char) -> (r: Option<i32>)
    ensures
        match r {
            Some(d) => spec_is_digit(c) && d == spec_digit_val(c),
            None => !spec_is_digit(c),
        },
{
    let u = c as u32;
    if 48 <= u && u <= 57 {
        Some((u - 48) as i32)
    } else {
        None
    }
}

impl TimestampOffset {
    /// The offset denoted by a `[+|-]hh:mm` string: `-00:00` denotes the
    /// unknown offset; otherwise hours must be below 24 and minutes below
    /// 60, and the result is the signed total in minutes.
    pub open spec fn spec_of_text(s: Seq<char>) -> Option<TimestampOffset> {
        if s.len() != 6 {
            None
        } else if s[0] == '-' && s[1] == '0' && s[2] == '0' && s[3] == ':' && s[4] == '0' && s[5]
            == '0' {
            Some(TimestampOffset::Unknown)
        } else if s[3] == ':' && (s[0] == '+' || s[0] == '-') && spec_is_digit(s[1])
            && spec_is_digit(s[2]) && spec_is_digit(s[4]) && spec_is_digit(s[5]) {
            let sign: int = if s[0] == '-' {
                -1
            } else {
                1
            };
            let hours = spec_digit_val(s[1]) * 10 + spec_digit_val(s[2]);
            let minutes = spec_digit_val(s[4]) * 10 + spec_digit_val(s[5]);
            if hours < 24 && minutes < 60 {
                Some(TimestampOffset::Known((sign * (hours * 60 + minutes)) as i32))
            } else {
                None
            }
        } else {
            None
        }
    }

    /// Parses a `[+|-]hh:mm` offset string.
    pub fn try_from(string_value: &str) -> (r: IonSchemaResult<TimestampOffset>)
        ensures
            match r {
                Ok(o) => Self::spec_of_text(string_value@) == Some(o),
                Err(_) => Self::spec_of_text(string_value@) is None,
            },
    {
        let n = string_value.unicode_len();
        if n != 6 {
            return invalid_schema_error(
                "`timestamp_offset` values must be of the form \"[+|-]hh:mm\"",
            );
        }
        let c0 = string_value.get_char(0);
        let c1 = string_value.get_char(1);
        let c2 = string_value.get_char(2);
        let c3 = string_value.get_char(3);
        let c4 = string_value.get_char(4);
        let c5 = string_value.get_char(5);
        if c0 == '-' && c1 == '0' && c2 == '0' && c3 == ':' && c4 == '0' && c5 == '0' {
            return Ok(TimestampOffset::Unknown);
        }
        if c3 != ':' {
            return invalid_schema_error(
                "`timestamp_offset` values must be of the form \"[+|-]hh:mm\"",
            );
        }
        let sign: i32 = if c0 == '-' {
            -1
        } else if c0 == '+' {
            1
        } else {
            return invalid_schema_error("unrecognized `timestamp_offset` sign");
        };
        let d1 = match digit_of(c1) {
            Some(d) => d,
            None => {
                return invalid_schema_error("invalid timestamp offset");
            },
        };
        let d2 = match digit_of(c2) {
            Some(d) => d,
            None => {
                return invalid_schema_error("invalid timestamp offset");
            },
        };
        let d4 = match digit_of(c4) {
            Some(d) => d,
            None => {
                return invalid_schema_error("invalid timestamp offset");
            },
        };
        let d5 = match digit_of(c5) {
            Some(d) => d,
            None => {
                return invalid_schema_error("invalid timestamp offset");
            },
        };
        let hours = d1 * 10 + d2;
        let minutes = d4 * 10 + d5;
        if hours < 24 && minutes < 60 {
            Ok(TimestampOffset::Known(sign * (hours * 60 + minutes)))
        } else {
            invalid_schema_error("invalid timestamp offset")
        }
    }

    /// The offset carried by a timestamp value, minutes when known.
    pub fn from_minutes(value: Option<i32>) -> (r: TimestampOffset)
        ensures
            match value {
                None => r == TimestampOffset::Unknown,
                Some(offset_in_minutes) => r == TimestampOffset::Known(offset_in_minutes),
            },
    {
        match value {
            None => TimestampOffset::Unknown,
            Some(offset_in_minutes) => TimestampOffset::Known(offset_in_minutes),
        }
    }
}

/// One operand of the `valid_values` constraint: either a number or
/// timestamp range, or a single Ion value matched by equality.
#[derive(Debug)]
pub enum ValidValue {
    Range(Range),
    Element(IonElement),
}

impl ValidValue {
    /// The valid-value an Ion element denotes: with a `range` annotation
    /// it is a number-or-timestamp range; any other annotation is
    /// rejected; otherwise it is the element itself.
    pub open spec fn spec_from_ion(value: IonElement, isl_version: IslVersion) -> Option<
        ValidValue,
    > {
        if value.has_annotation_spec("range"@) {
            match Range::spec_from_ion(value, RangeType::NumberOrTimestamp, isl_version) {
                Some(r) => Some(ValidValue::Range(r)),
                None => None,
            }
        } else if value.has_other_annotation_spec("range"@) {
            None
        } else {
            Some(ValidValue::Element(value))
        }
    }

    /// Reads one `valid_values` operand from an Ion value.
    pub fn from_ion_element(value: IonElement, isl_version: IslVersion) -> (r: IonSchemaResult<
        ValidValue,
    >)
        ensures
            r is Ok <==> Self::spec_from_ion(value, isl_version) is Some,
            r matches Ok(v) ==> Self::spec_from_ion(value, isl_version) == Some(v),
            r matches Ok(ValidValue::Range(rng)) ==> crate::isl::isl_range::spec_range_wf(rng),
    {
        proof {
            crate::isl::isl_range::lemma_from_ion_range_well_formed(
                value,
                RangeType::NumberOrTimestamp,
                isl_version,
            );
        }
        if value.has_annotation("range") {
            match Range::from_ion_element(&value, RangeType::NumberOrTimestamp, isl_version) {
                Ok(rng) => Ok(ValidValue::Range(rng)),
                Err(e) => Err(e),
            }
        } else if value.has_other_annotation("range") {
            invalid_schema_error(
                "Annotations are not allowed for valid_values constraint except `range` annotation",
            )
        } else {
            Ok(ValidValue::Element(value))
        }
    }
}

/// The three IEEE-754 binary interchange formats the `ieee754_float`
/// constraint can demand exact representability in.
#[derive(Debug, Clone, Copy, PartialEq, Eq, Structural)]
pub enum Ieee754InterchangeFormat {
    Binary16,
    Binary32,
    Binary64,
}

impl Ieee754InterchangeFormat {
    /// The format named by a symbol in a schema document.
    pub open spec fn spec_of_text(s: Seq<char>) -> Option<Ieee754InterchangeFormat> {
        if s == "binary16"@ {
            Some(Ieee754InterchangeFormat::Binary16)
        } else if s == "binary32"@ {
            Some(Ieee754InterchangeFormat::Binary32)
        } else if s == "binary64"@ {
            Some(Ieee754InterchangeFormat::Binary64)
        } else {
            None
        }
    }

    /// The name under which the format appears in schemas.
    pub open spec fn spec_name(&self) -> Seq<char> {
        match self {
            Ieee754InterchangeFormat::Binary16 => "binary16"@,
            Ieee754InterchangeFormat::Binary32 => "binary32"@,
            Ieee754InterchangeFormat::Binary64 => "binary64"@,
        }
    }

    /// The name under which the format appears in schemas.
    pub fn name(&self) -> (r: String)
        ensures
            r@ == self.spec_name(),
    {
        let text: &str = match self {
            Ieee754InterchangeFormat::Binary16 => "binary16",
            Ieee754InterchangeFormat::Binary32 => "binary32",
            Ieee754InterchangeFormat::Binary64 => "binary64",
        };
        text.to_owned()
    }

    /// Parses a format name, failing on anything but the three binary
    /// interchange formats.
    pub fn try_from(string_value: &str) -> (r: IonSchemaResult<Ieee754InterchangeFormat>)
        ensures
            match r {
                Ok(f) => Self::spec_of_text(string_value@) == Some(f),
                Err(_) => Self::spec_of_text(string_value@) is None,
            },
    {
        if str_eq(string_value, "binary16") {
            Ok(Ieee754InterchangeFormat::Binary16)
        } else if str_eq(string_value, "binary32") {
            Ok(Ieee754InterchangeFormat::Binary32)
        } else if str_eq(string_value, "binary64") {
            Ok(Ieee754InterchangeFormat::Binary64)
        } else {
            invalid_schema_error("unrecognized `ieee754_float` value")
        }
    }
}

} // verus!
