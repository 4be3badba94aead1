use skia::PathFillType;

#[test]
fn fill_types_have_distinct_codes() {
    assert_eq!(PathFillType::winding().to_native(), 0);
    assert_eq!(PathFillType::even_odd().to_native(), 1);
    assert_eq!(PathFillType::inverse_winding().to_native(), 2);
    assert_eq!(PathFillType::inverse_even_odd().to_native(), 3);
}

#[test]
fn fill_type_round_trips_through_code() {
    for f in [
        PathFillType::winding(),
        PathFillType::inverse_winding(),
        PathFillType::even_odd(),
        PathFillType::inverse_even_odd(),
    ] {
        assert_eq!(PathFillType::from_native(f.to_native()), Some(f));
    }
    assert_eq!(PathFillType::from_native(4), None);
    assert_eq!(PathFillType::inverse_even_odd(), PathFillType::EvenOdd { inverse: true });
}
