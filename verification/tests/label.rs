use nexus_sim::label::format_coord;

#[test]
fn whole_units_get_two_zero_decimals() {
    assert_eq!(format_coord(0), "0.00");
    assert_eq!(format_coord(100000), "100.00");
    assert_eq!(format_coord(1000), "1.00");
}

#[test]
fn negative_values_keep_the_sign() {
    assert_eq!(format_coord(-30000), "-30.00");
    assert_eq!(format_coord(-40000), "-40.00");
    assert_eq!(format_coord(-500), "-0.50");
}

#[test]
fn magnitudes_round_half_away_from_zero() {
    assert_eq!(format_coord(455), "0.46");
    assert_eq!(format_coord(454), "0.45");
    assert_eq!(format_coord(445), "0.45");
    assert_eq!(format_coord(999), "1.00");
    assert_eq!(format_coord(-455), "-0.46");
}

#[test]
fn fractions_keep_leading_zeros() {
    assert_eq!(format_coord(10), "0.01");
    assert_eq!(format_coord(2500), "2.50");
    assert_eq!(format_coord(12340), "12.34");
}
