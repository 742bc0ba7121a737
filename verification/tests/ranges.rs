use ion_schema::element::{Decimal, FloatValue, IonElement, IonValue, Precision, TimestampValue};
use ion_schema::isl::isl_range::{
    Range, RangeBoundaryType, RangeBoundaryValue, RangeImpl, RangeType,
};
use ion_schema::isl::IslVersion;

fn int_elem(i: i128) -> IonElement {
    IonElement::of(IonValue::Int(i))
}

fn dec_elem(coefficient: i128, scale: i64) -> IonElement {
    IonElement::of(IonValue::Decimal(Decimal { coefficient, scale }))
}

fn float_elem(f: FloatValue) -> IonElement {
    IonElement::of(IonValue::Float(f))
}

fn finite(coefficient: i128, scale: i64) -> FloatValue {
    FloatValue::Finite(Decimal { coefficient, scale })
}

fn sym_elem(text: &str) -> IonElement {
    IonElement::of(IonValue::Symbol(Some(text.to_string())))
}

fn ts_elem(instant_seconds: i128, precision: Precision, offset: Option<i32>) -> IonElement {
    IonElement::of(IonValue::Timestamp(TimestampValue {
        instant: Decimal {
            coefficient: instant_seconds,
            scale: 0,
        },
        precision,
        fractional_seconds_scale: None,
        offset_minutes: offset,
    }))
}

fn exclusive(mut e: IonElement) -> IonElement {
    e.annotations.push("exclusive".to_string());
    e
}

fn range_list(start: IonElement, end: IonElement) -> IonElement {
    IonElement {
        annotations: vec!["range".to_string()],
        value: IonValue::List(vec![start, end]),
    }
}

fn parse_any(value: &IonElement) -> Range {
    Range::from_ion_element(value, RangeType::Any, IslVersion::V1_0).unwrap()
}

#[test]
fn integer_range_contains_matches_bounds() {
    let r = parse_any(&range_list(int_elem(1), exclusive(int_elem(5))));
    assert!(r.contains(&int_elem(1)));
    assert!(r.contains(&int_elem(4)));
    assert!(!r.contains(&int_elem(5)));
    assert!(!r.contains(&int_elem(0)));
}

#[test]
fn empty_integer_range_is_rejected() {
    let same = range_list(exclusive(int_elem(5)), exclusive(int_elem(5)));
    assert!(Range::from_ion_element(&same, RangeType::Any, IslVersion::V1_0).is_err());
    let adjacent = range_list(exclusive(int_elem(5)), exclusive(int_elem(6)));
    assert!(Range::from_ion_element(&adjacent, RangeType::Any, IslVersion::V1_0).is_err());
}

#[test]
fn empty_range_rejected_at_construction() {
    let r = RangeImpl::<i128>::range(
        RangeBoundaryValue::Value(7, RangeBoundaryType::Exclusive),
        RangeBoundaryValue::Value(7, RangeBoundaryType::Exclusive),
    );
    assert!(r.is_err());
    let reversed = RangeImpl::<i128>::range(
        RangeBoundaryValue::Value(9, RangeBoundaryType::Inclusive),
        RangeBoundaryValue::Value(3, RangeBoundaryType::Inclusive),
    );
    assert!(reversed.is_err());
}

#[test]
fn min_max_sentinel_pair_is_rejected() {
    let r = range_list(sym_elem("min"), sym_elem("max"));
    assert!(Range::from_ion_element(&r, RangeType::Any, IslVersion::V1_0).is_err());
}

#[test]
fn min_to_upper_contains_everything_below() {
    let r = parse_any(&range_list(sym_elem("min"), int_elem(5)));
    assert!(r.contains(&int_elem(-1000)));
    assert!(r.contains(&int_elem(5)));
    assert!(!r.contains(&int_elem(6)));
}

#[test]
fn value_to_max_contains_everything_above() {
    let r = parse_any(&range_list(int_elem(5), sym_elem("max")));
    assert!(r.contains(&int_elem(5)));
    assert!(r.contains(&int_elem(1000000)));
    assert!(!r.contains(&int_elem(4)));
}

#[test]
fn exclusive_sentinels_are_rejected() {
    let r = range_list(exclusive(sym_elem("min")), int_elem(5));
    assert!(Range::from_ion_element(&r, RangeType::Any, IslVersion::V1_0).is_err());
    let r = range_list(int_elem(5), exclusive(sym_elem("max")));
    assert!(Range::from_ion_element(&r, RangeType::Any, IslVersion::V1_0).is_err());
}

#[test]
fn range_annotation_is_required_on_lists() {
    let bare = IonElement::of(IonValue::List(vec![int_elem(1), int_elem(2)]));
    assert!(Range::from_ion_element(&bare, RangeType::Any, IslVersion::V1_0).is_err());
}

#[test]
fn range_lists_must_have_two_elements() {
    let three = IonElement {
        annotations: vec!["range".to_string()],
        value: IonValue::List(vec![int_elem(1), int_elem(2), int_elem(3)]),
    };
    assert!(Range::from_ion_element(&three, RangeType::Any, IslVersion::V1_0).is_err());
}

#[test]
fn heterogeneous_boundaries_are_rejected() {
    let r = range_list(float_elem(finite(15, 1)), int_elem(5));
    assert!(Range::from_ion_element(&r, RangeType::Any, IslVersion::V1_0).is_err());
    let r = range_list(dec_elem(15, 1), int_elem(5));
    assert!(Range::from_ion_element(&r, RangeType::Any, IslVersion::V1_0).is_err());
}

#[test]
fn decimal_range_compares_by_numeric_value() {
    // range::[1.5, 2.5] over decimals of varied scales
    let r = parse_any(&range_list(dec_elem(15, 1), dec_elem(25, 1)));
    assert!(r.contains(&dec_elem(2, 0)));
    assert!(r.contains(&dec_elem(20000, 4)));
    assert!(r.contains(&dec_elem(15, 1)));
    assert!(!r.contains(&dec_elem(3, 0)));
    assert!(!r.contains(&dec_elem(149, 2)));
    // a decimal range does not admit ints or floats
    assert!(!r.contains(&int_elem(2)));
    assert!(!r.contains(&float_elem(finite(2, 0))));
}

#[test]
fn number_range_promotes_ints_floats_and_decimals() {
    // range::[0, 1] as valid_values reads it
    let r = Range::from_ion_element(
        &range_list(int_elem(0), int_elem(1)),
        RangeType::NumberOrTimestamp,
        IslVersion::V1_0,
    )
    .unwrap();
    assert!(r.contains(&dec_elem(5, 1))); // 0.5
    assert!(!r.contains(&float_elem(finite(15, 1)))); // 1.5e0
    assert!(r.contains(&int_elem(1)));
    assert!(r.contains(&dec_elem(100, 2))); // 1.00
    assert!(r.contains(&float_elem(finite(0, 0))));
    assert!(!r.contains(&float_elem(FloatValue::NotANumber)));
    assert!(!r.contains(&float_elem(FloatValue::PositiveInfinity)));
}

#[test]
fn number_range_with_float_boundaries() {
    let r = Range::from_ion_element(
        &range_list(float_elem(finite(-5, 1)), float_elem(finite(5, 1))),
        RangeType::NumberOrTimestamp,
        IslVersion::V1_0,
    )
    .unwrap();
    assert!(r.contains(&int_elem(0)));
    assert!(r.contains(&dec_elem(5, 1)));
    assert!(!r.contains(&int_elem(1)));
    // a not-a-number boundary is rejected outright
    let bad = range_list(float_elem(FloatValue::NotANumber), float_elem(finite(5, 1)));
    assert!(Range::from_ion_element(&bad, RangeType::NumberOrTimestamp, IslVersion::V1_0).is_err());
}

#[test]
fn adjacent_exclusive_non_negative_integers_rejected() {
    let empty = range_list(exclusive(int_elem(1)), exclusive(int_elem(2)));
    assert!(
        Range::from_ion_element(&empty, RangeType::NonNegativeInteger, IslVersion::V1_0).is_err()
    );
    let ok = range_list(exclusive(int_elem(1)), exclusive(int_elem(3)));
    let r = Range::from_ion_element(&ok, RangeType::NonNegativeInteger, IslVersion::V1_0).unwrap();
    assert!(r.contains(&int_elem(2)));
    assert!(!r.contains(&int_elem(1)));
    assert!(!r.contains(&int_elem(3)));
}

#[test]
fn exclusive_precision_boundaries() {
    let r = Range::from_ion_element(
        &range_list(exclusive(sym_elem("year")), sym_elem("second")),
        RangeType::TimestampPrecision,
        IslVersion::V1_0,
    )
    .unwrap();
    assert!(!r.contains(&ts_elem(0, Precision::Year, Some(0))));
    assert!(r.contains(&ts_elem(0, Precision::Month, Some(0))));
    assert!(r.contains(&ts_elem(0, Precision::Second, Some(0))));
}

#[test]
fn decimal_comparison_handles_extreme_scales() {
    // 1 * 10^(-huge scale) is a tiny positive number
    let tiny = dec_elem(1, i64::MAX);
    let one = dec_elem(1, 0);
    let r = parse_any(&range_list(dec_elem(0, 0), one));
    assert!(r.contains(&tiny));
    let huge = dec_elem(1, i64::MIN + 1);
    assert!(!r.contains(&huge));
    let below = dec_elem(-1, i64::MAX);
    assert!(!r.contains(&below));
}

#[test]
fn nulls_are_never_contained() {
    let r = parse_any(&range_list(int_elem(1), int_elem(10)));
    let null_int = IonElement::of(IonValue::Null(ion_schema::element::IonType::Int));
    assert!(!r.contains(&null_int));
}

#[test]
fn precision_range_type_requires_positive_integers() {
    assert!(Range::from_ion_element(&int_elem(0), RangeType::Precision, IslVersion::V1_0).is_err());
    let r =
        Range::from_ion_element(&int_elem(3), RangeType::Precision, IslVersion::V1_0).unwrap();
    assert!(r.contains(&int_elem(3)));
    assert!(!r.contains(&int_elem(2)));
}

#[test]
fn non_negative_range_rejects_negative_boundaries() {
    let r = range_list(int_elem(-1), int_elem(4));
    assert!(Range::from_ion_element(&r, RangeType::NonNegativeInteger, IslVersion::V1_0).is_err());
}

#[test]
fn non_negative_integer_contains_is_mathematical() {
    let r = Range::from_ion_element(
        &range_list(int_elem(0), int_elem(10)),
        RangeType::NonNegativeInteger,
        IslVersion::V1_0,
    )
    .unwrap();
    assert!(r.contains(&int_elem(0)));
    assert!(r.contains(&int_elem(10)));
    assert!(!r.contains(&int_elem(-1)));
    assert!(!r.contains(&int_elem(11)));
}

#[test]
fn min_bounded_non_negative_range_excludes_negatives() {
    let r = Range::from_ion_element(
        &range_list(sym_elem("min"), int_elem(10)),
        RangeType::NonNegativeInteger,
        IslVersion::V1_0,
    )
    .unwrap();
    assert!(r.contains(&int_elem(0)));
    assert!(r.contains(&int_elem(10)));
    assert!(!r.contains(&int_elem(-5)));
    assert!(!r.contains(&int_elem(11)));
}

#[test]
fn non_negative_range_boundaries_fold_in_exclusivity() {
    let r = Range::from_ion_element(
        &range_list(int_elem(1), exclusive(int_elem(5))),
        RangeType::NonNegativeInteger,
        IslVersion::V1_0,
    )
    .unwrap();
    assert_eq!(r.non_negative_range_boundaries(), Some((1, 5 + 1)));
    let any = parse_any(&range_list(int_elem(1), int_elem(5)));
    assert_eq!(any.non_negative_range_boundaries(), None);
}

#[test]
fn optional_and_required_occurrence_ranges() {
    let optional = Range::optional();
    assert!(optional.contains(&int_elem(0)));
    assert!(optional.contains(&int_elem(1)));
    assert!(!optional.contains(&int_elem(2)));
    let required = Range::required();
    assert!(!required.contains(&int_elem(0)));
    assert!(required.contains(&int_elem(1)));
    assert!(!required.contains(&int_elem(2)));
}

#[test]
fn timestamp_precision_range_from_symbols() {
    // S5: range::[month, day]
    let r = Range::from_ion_element(
        &range_list(sym_elem("month"), sym_elem("day")),
        RangeType::TimestampPrecision,
        IslVersion::V1_0,
    )
    .unwrap();
    assert!(r.contains(&ts_elem(0, Precision::Month, Some(0))));
    assert!(r.contains(&ts_elem(0, Precision::Day, Some(0))));
    assert!(!r.contains(&ts_elem(0, Precision::Year, Some(0))));
    assert!(!r.contains(&ts_elem(0, Precision::HourAndMinute, Some(0))));
}

#[test]
fn bare_precision_symbol_is_a_one_point_range() {
    let r = Range::from_ion_element(
        &sym_elem("minute"),
        RangeType::TimestampPrecision,
        IslVersion::V1_0,
    )
    .unwrap();
    assert!(r.contains(&ts_elem(0, Precision::HourAndMinute, Some(0))));
    assert!(!r.contains(&ts_elem(0, Precision::Day, Some(0))));
}

#[test]
fn unknown_precision_symbol_is_rejected() {
    let r = Range::from_ion_element(
        &sym_elem("century"),
        RangeType::TimestampPrecision,
        IslVersion::V1_0,
    );
    assert!(r.is_err());
}

#[test]
fn timestamp_range_compares_instants() {
    let r = Range::from_ion_element(
        &range_list(
            ts_elem(100, Precision::Second, Some(0)),
            ts_elem(200, Precision::Second, Some(0)),
        ),
        RangeType::Any,
        IslVersion::V1_0,
    )
    .unwrap();
    assert!(r.contains(&ts_elem(150, Precision::Second, Some(0))));
    assert!(r.contains(&ts_elem(150, Precision::Second, None)));
    assert!(!r.contains(&ts_elem(201, Precision::Second, Some(0))));
}

#[test]
fn unknown_offset_timestamp_boundary_rejected_under_v1_0() {
    let r = range_list(
        ts_elem(100, Precision::Second, None),
        ts_elem(200, Precision::Second, Some(0)),
    );
    assert!(Range::from_ion_element(&r, RangeType::Any, IslVersion::V1_0).is_err());
    assert!(Range::from_ion_element(&r, RangeType::Any, IslVersion::V2_0).is_ok());
}

#[test]
fn unknown_symbol_text_cannot_form_a_range() {
    let unknown = IonElement::of(IonValue::Symbol(None));
    assert!(
        Range::from_ion_element(&unknown, RangeType::TimestampPrecision, IslVersion::V1_0)
            .is_err()
    );
}

#[test]
fn singleton_ranges_from_plain_values() {
    let ri = RangeImpl::<i128>::from(5);
    let r = Range::from(ri);
    assert!(r.contains(&int_elem(5)));
    assert!(!r.contains(&int_elem(4)));
    let rn = Range::from(RangeImpl::<usize>::from(2usize));
    assert!(rn.contains(&int_elem(2)));
    assert!(!rn.contains(&int_elem(3)));
}

#[test]
fn precision_range_from_symbol_text() {
    let ri = RangeImpl::try_from("day").unwrap();
    let r = Range::from(ri);
    assert!(r.contains(&ts_elem(0, Precision::Day, Some(0))));
    assert!(!r.contains(&ts_elem(0, Precision::Month, Some(0))));
    assert!(RangeImpl::try_from("sometime").is_err());
}

#[test]
fn strings_cannot_form_ranges() {
    let s = IonElement::of(IonValue::String("hello".to_string()));
    assert!(Range::from_ion_element(&s, RangeType::Any, IslVersion::V1_0).is_err());
}
