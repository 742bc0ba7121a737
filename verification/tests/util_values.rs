use ion_schema::element::{Decimal, FloatValue, IonElement, IonValue, Precision, TimestampValue};
use ion_schema::isl::util::{
    Annotation, Ieee754InterchangeFormat, TimestampOffset, TimestampPrecision, ValidValue,
};
use ion_schema::isl::IslVersion;

fn annotated(texts: &[&str], value: IonValue) -> IonElement {
    IonElement {
        annotations: texts.iter().map(|t| t.to_string()).collect(),
        value,
    }
}

fn ts(precision: Precision, fractional_seconds_scale: Option<i64>) -> TimestampValue {
    TimestampValue {
        instant: Decimal {
            coefficient: 0,
            scale: 0,
        },
        precision,
        fractional_seconds_scale,
        offset_minutes: Some(0),
    }
}

#[test]
fn annotation_new_keeps_fields() {
    let a = Annotation::new("city".to_string(), true, IslVersion::V1_0);
    assert_eq!(a.value(), "city");
    assert!(a.is_required());
}

#[test]
fn annotation_requiredness_follows_the_rules() {
    let plain = IonElement::of(IonValue::Symbol(Some("a".to_string())));
    let required = annotated(&["required"], IonValue::Symbol(Some("a".to_string())));
    let optional = annotated(&["optional"], IonValue::Symbol(Some("a".to_string())));
    // explicit required:: wins
    assert!(Annotation::is_annotation_required(&required, false));
    assert!(Annotation::is_annotation_required(&required, true));
    // list-level required applies unless overridden
    assert!(Annotation::is_annotation_required(&plain, true));
    assert!(!Annotation::is_annotation_required(&optional, true));
    // default is optional
    assert!(!Annotation::is_annotation_required(&plain, false));
    assert!(!Annotation::is_annotation_required(&optional, false));
}

#[test]
fn timestamp_precision_parses_known_names() {
    assert_eq!(
        TimestampPrecision::try_from("year").unwrap(),
        TimestampPrecision::Year
    );
    assert_eq!(
        TimestampPrecision::try_from("month").unwrap(),
        TimestampPrecision::Month
    );
    assert_eq!(
        TimestampPrecision::try_from("day").unwrap(),
        TimestampPrecision::Day
    );
    assert_eq!(
        TimestampPrecision::try_from("minute").unwrap(),
        TimestampPrecision::Minute
    );
    assert_eq!(
        TimestampPrecision::try_from("second").unwrap(),
        TimestampPrecision::Second
    );
    assert_eq!(
        TimestampPrecision::try_from("millisecond").unwrap(),
        TimestampPrecision::Millisecond
    );
    assert_eq!(
        TimestampPrecision::try_from("microsecond").unwrap(),
        TimestampPrecision::Microsecond
    );
    assert_eq!(
        TimestampPrecision::try_from("nanosecond").unwrap(),
        TimestampPrecision::Nanosecond
    );
}

#[test]
fn hour_is_an_alias_for_minute() {
    assert_eq!(
        TimestampPrecision::try_from("hour").unwrap(),
        TimestampPrecision::Minute
    );
}

#[test]
fn unknown_precision_names_are_rejected() {
    assert!(TimestampPrecision::try_from("decade").is_err());
    assert!(TimestampPrecision::try_from("").is_err());
}

#[test]
fn precision_of_a_timestamp_value() {
    assert_eq!(
        TimestampPrecision::from_timestamp(&ts(Precision::Year, None)),
        TimestampPrecision::Year
    );
    assert_eq!(
        TimestampPrecision::from_timestamp(&ts(Precision::HourAndMinute, None)),
        TimestampPrecision::Minute
    );
    assert_eq!(
        TimestampPrecision::from_timestamp(&ts(Precision::Second, None)),
        TimestampPrecision::Second
    );
    assert_eq!(
        TimestampPrecision::from_timestamp(&ts(Precision::Second, Some(3))),
        TimestampPrecision::Millisecond
    );
    assert_eq!(
        TimestampPrecision::from_timestamp(&ts(Precision::Second, Some(6))),
        TimestampPrecision::Microsecond
    );
    assert_eq!(
        TimestampPrecision::from_timestamp(&ts(Precision::Second, Some(9))),
        TimestampPrecision::Nanosecond
    );
    assert_eq!(
        TimestampPrecision::from_timestamp(&ts(Precision::Second, Some(2))),
        TimestampPrecision::OtherFractionalSeconds(2)
    );
}

#[test]
fn precisions_order_by_rank() {
    assert!(TimestampPrecision::Year < TimestampPrecision::Month);
    assert!(TimestampPrecision::Day < TimestampPrecision::Minute);
    assert!(TimestampPrecision::Minute < TimestampPrecision::Second);
    assert!(TimestampPrecision::Millisecond < TimestampPrecision::Nanosecond);
    assert!(TimestampPrecision::OtherFractionalSeconds(2) > TimestampPrecision::Second);
    // equal ranks are incomparable only in the sense of strictness
    assert!(!(TimestampPrecision::OtherFractionalSeconds(0) < TimestampPrecision::Second));
    assert!(!(TimestampPrecision::OtherFractionalSeconds(0) > TimestampPrecision::Second));
    // but they stay distinct values
    assert!(TimestampPrecision::OtherFractionalSeconds(0) != TimestampPrecision::Second);
}

#[test]
fn model_values_order_numerically() {
    let one = Decimal {
        coefficient: 1,
        scale: 0,
    };
    let one_hundredths = Decimal {
        coefficient: 100,
        scale: 2,
    };
    let two = Decimal {
        coefficient: 2,
        scale: 0,
    };
    assert!(one == one_hundredths);
    assert!(one < two);
    assert!(two > one_hundredths);
    let nan = FloatValue::NotANumber;
    assert!(nan != nan);
    assert!(!(nan < FloatValue::PositiveInfinity));
    assert!(!(nan > FloatValue::PositiveInfinity));
    assert!(FloatValue::NegativeInfinity < FloatValue::Finite(one));
    assert!(FloatValue::Finite(two) < FloatValue::PositiveInfinity);
    assert!(FloatValue::Finite(one) == FloatValue::Finite(one_hundredths));
}

#[test]
fn timestamp_offset_parses_known_offsets() {
    assert_eq!(
        TimestampOffset::try_from("+07:30").unwrap(),
        TimestampOffset::Known(450)
    );
    assert_eq!(
        TimestampOffset::try_from("-05:30").unwrap(),
        TimestampOffset::Known(-330)
    );
    assert_eq!(
        TimestampOffset::try_from("+00:00").unwrap(),
        TimestampOffset::Known(0)
    );
    assert_eq!(
        TimestampOffset::try_from("+23:59").unwrap(),
        TimestampOffset::Known(23 * 60 + 59)
    );
}

#[test]
fn minus_zero_offset_means_unknown() {
    assert_eq!(
        TimestampOffset::try_from("-00:00").unwrap(),
        TimestampOffset::Unknown
    );
}

#[test]
fn malformed_offsets_are_rejected() {
    assert!(TimestampOffset::try_from("+24:00").is_err());
    assert!(TimestampOffset::try_from("+00:60").is_err());
    assert!(TimestampOffset::try_from("07:30").is_err());
    assert!(TimestampOffset::try_from("+0730").is_err());
    assert!(TimestampOffset::try_from("+07-30").is_err());
    assert!(TimestampOffset::try_from("+7:30").is_err());
    assert!(TimestampOffset::try_from("").is_err());
}

#[test]
fn offset_from_minutes() {
    assert_eq!(TimestampOffset::from_minutes(None), TimestampOffset::Unknown);
    assert_eq!(
        TimestampOffset::from_minutes(Some(420)),
        TimestampOffset::Known(420)
    );
}

#[test]
fn ieee754_formats_parse_by_name() {
    assert_eq!(
        Ieee754InterchangeFormat::try_from("binary16").unwrap(),
        Ieee754InterchangeFormat::Binary16
    );
    assert_eq!(
        Ieee754InterchangeFormat::try_from("binary32").unwrap(),
        Ieee754InterchangeFormat::Binary32
    );
    assert_eq!(
        Ieee754InterchangeFormat::try_from("binary64").unwrap(),
        Ieee754InterchangeFormat::Binary64
    );
    assert!(Ieee754InterchangeFormat::try_from("binary128").is_err());
    assert_eq!(Ieee754InterchangeFormat::Binary32.name(), "binary32");
}

#[test]
fn valid_value_reads_ranges_and_plain_elements() {
    let range_elem = annotated(
        &["range"],
        IonValue::List(vec![
            IonElement::of(IonValue::Int(0)),
            IonElement::of(IonValue::Int(10)),
        ]),
    );
    match ValidValue::from_ion_element(range_elem, IslVersion::V1_0).unwrap() {
        ValidValue::Range(r) => {
            assert!(r.contains(&IonElement::of(IonValue::Int(5))));
            assert!(!r.contains(&IonElement::of(IonValue::Int(11))));
        }
        ValidValue::Element(_) => panic!("expected a range"),
    }
    let plain = IonElement::of(IonValue::Int(7));
    match ValidValue::from_ion_element(plain, IslVersion::V1_0).unwrap() {
        ValidValue::Element(e) => match e.value {
            IonValue::Int(i) => assert_eq!(i, 7),
            _ => panic!("expected the int back"),
        },
        ValidValue::Range(_) => panic!("expected a plain element"),
    }
}

#[test]
fn valid_value_rejects_foreign_annotations() {
    let bad = annotated(&["weird"], IonValue::Int(7));
    assert!(ValidValue::from_ion_element(bad, IslVersion::V1_0).is_err());
    // `range` itself wins over the other-annotation check
    let mixed = annotated(
        &["range", "weird"],
        IonValue::List(vec![
            IonElement::of(IonValue::Int(0)),
            IonElement::of(IonValue::Int(10)),
        ]),
    );
    assert!(matches!(
        ValidValue::from_ion_element(mixed, IslVersion::V1_0),
        Ok(ValidValue::Range(_))
    ));
}
