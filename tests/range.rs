use openai_protocols::error::{ProtocolError, RangeAxis};
use openai_protocols::fixed::Fixed;
use openai_protocols::range::{scale_value, validate_range, RangeValue};

fn fx(micros: i64) -> Fixed {
    Fixed::from_micros(micros)
}

#[test]
fn test_validate_range() {
    assert_eq!(
        validate_range(Some(fx(500_000)), &(fx(0), fx(1_000_000))).unwrap(),
        Some(fx(500_000))
    );
    assert_eq!(
        validate_range(Some(fx(0)), &(fx(0), fx(1_000_000))).unwrap(),
        Some(fx(0))
    );
    assert_eq!(
        validate_range(Some(fx(1_000_000)), &(fx(1_000_000), fx(1_000_000))).unwrap(),
        Some(fx(1_000_000))
    );
    assert_eq!(validate_range(Some(1_i32), &(1, 1)).unwrap(), Some(1));
    assert_eq!(
        validate_range(Some(fx(1_100_000)), &(fx(0), fx(1_000_000)))
            .unwrap_err()
            .to_string(),
        "Value 1.1 is out of range [0, 1]"
    );
    assert_eq!(
        validate_range(Some(fx(-100_000)), &(fx(0), fx(1_000_000)))
            .unwrap_err()
            .to_string(),
        "Value -0.1 is out of range [0, 1]"
    );
}

#[test]
fn test_scaled_value() {
    assert_eq!(
        scale_value(&fx(500_000), &(fx(0), fx(1_000_000)), &(fx(0), fx(2_000_000))).unwrap(),
        fx(1_000_000)
    );
    assert_eq!(
        scale_value(&fx(0), &(fx(0), fx(1_000_000)), &(fx(0), fx(2_000_000))).unwrap(),
        fx(0)
    );
    assert_eq!(
        scale_value(
            &fx(-1_000_000),
            &(fx(-2_000_000), fx(2_000_000)),
            &(fx(1_000_000), fx(2_000_000))
        )
        .unwrap(),
        fx(1_250_000)
    );
    assert!(scale_value(&fx(1_000_000), &(fx(1_000_000), fx(1_000_000)), &(fx(0), fx(2_000_000))).is_err());
}

#[test]
fn validate_range_absent_value_passes() {
    assert_eq!(validate_range::<Fixed>(None, &(fx(0), fx(1_000_000))).unwrap(), None);
    assert_eq!(validate_range::<i32>(None, &(5, 1)).unwrap(), None);
}

#[test]
fn validate_range_reports_integers() {
    let e = validate_range(Some(-7_i64), &(-3, 12)).unwrap_err();
    assert_eq!(e.to_string(), "Value -7 is out of range [-3, 12]");
    assert_eq!(e.value, "-7");
    let e = validate_range(Some(40_u32), &(0, 39)).unwrap_err();
    assert_eq!(e.to_string(), "Value 40 is out of range [0, 39]");
}

#[test]
fn validate_range_bounds_inclusive() {
    let range = (fx(-2_000_000), fx(2_000_000));
    assert_eq!(validate_range(Some(fx(-2_000_000)), &range).unwrap(), Some(fx(-2_000_000)));
    assert_eq!(validate_range(Some(fx(2_000_000)), &range).unwrap(), Some(fx(2_000_000)));
    assert!(validate_range(Some(fx(2_000_001)), &range).is_err());
    assert!(validate_range(Some(fx(-2_000_001)), &range).is_err());
}

#[test]
fn scale_value_example_quarter() {
    let r = scale_value(
        &fx(-1_000_000),
        &(fx(-2_000_000), fx(2_000_000)),
        &(fx(1_000_000), fx(2_000_000)),
    )
    .unwrap();
    assert_eq!(r.micros, 1_250_000);
    assert_eq!(r.text(), "1.25");
}

#[test]
fn scale_value_endpoints() {
    let src = (fx(3_000_000), fx(-1_500_000));
    let dst = (fx(7_000_000), fx(250_000));
    assert_eq!(scale_value(&src.0, &src, &dst).unwrap(), dst.0);
    assert_eq!(scale_value(&src.1, &src, &dst).unwrap(), dst.1);
}

#[test]
fn scale_value_extrapolates_and_rounds_down() {
    assert_eq!(
        scale_value(&fx(3_000_000), &(fx(0), fx(1_000_000)), &(fx(0), fx(2_000_000))).unwrap(),
        fx(6_000_000)
    );
    assert_eq!(
        scale_value(&fx(1), &(fx(0), fx(3)), &(fx(0), fx(1))).unwrap(),
        fx(0)
    );
    assert_eq!(
        scale_value(&fx(-1), &(fx(0), fx(3)), &(fx(0), fx(1))).unwrap(),
        fx(-1)
    );
}

#[test]
fn scale_value_degenerate_ranges() {
    match scale_value(&fx(1), &(fx(0), fx(1)), &(fx(5), fx(5))) {
        Err(ProtocolError::DegenerateRange { axis }) => assert_eq!(axis, RangeAxis::Destination),
        other => panic!("unexpected {:?}", other),
    }
    match scale_value(&fx(1), &(fx(4), fx(4)), &(fx(0), fx(1))) {
        Err(ProtocolError::DegenerateRange { axis }) => assert_eq!(axis, RangeAxis::Source),
        other => panic!("unexpected {:?}", other),
    }
    match scale_value(&fx(1), &(fx(4), fx(4)), &(fx(2), fx(2))) {
        Err(ProtocolError::DegenerateRange { axis }) => assert_eq!(axis, RangeAxis::Destination),
        other => panic!("unexpected {:?}", other),
    }
}

#[test]
fn fixed_text_shortest_form() {
    assert_eq!(fx(0).text(), "0");
    assert_eq!(fx(2_000_000).text(), "2");
    assert_eq!(fx(-250_000).text(), "-0.25");
    assert_eq!(fx(1).text(), "0.000001");
    assert_eq!(fx(12_030_400).text(), "12.0304");
    assert_eq!(fx(i64::MIN).text(), "-9223372036854.775808");
    assert_eq!(Fixed::from_units(-3).render(), "-3");
}

#[test]
fn protocol_error_messages() {
    let e = scale_value(&fx(0), &(fx(0), fx(1)), &(fx(3), fx(3))).unwrap_err();
    assert_eq!(e.to_string(), "dst range is 0");
    let e = scale_value(&fx(0), &(fx(2), fx(2)), &(fx(3), fx(4))).unwrap_err();
    assert_eq!(e.to_string(), "src range is 0");
    let e = ProtocolError::TooManyStopSequences { count: 12 };
    assert_eq!(e.to_string(), "at most 4 stop conditions are allowed, got 12");
    let e = ProtocolError::InconsistentBackendOutput { detail: "no choice 3".to_string() };
    assert_eq!(e.to_string(), "inconsistent backend output: no choice 3");
}
