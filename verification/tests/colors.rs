use nexus_sim::colors::battery_colors;
use nexus_sim::colors::Rgb;

#[test]
fn zero_battery_is_black() {
    assert_eq!(battery_colors(0), Rgb { r: 0, g: 0, b: 0 });
}

#[test]
fn negative_battery_is_black() {
    assert_eq!(battery_colors(-5000), Rgb { r: 0, g: 0, b: 0 });
}

#[test]
fn critical_band_is_dark_red() {
    assert_eq!(battery_colors(500), Rgb { r: 500, g: 0, b: 0 });
    assert_eq!(battery_colors(10), Rgb { r: 500, g: 0, b: 0 });
    assert_eq!(battery_colors(1000), Rgb { r: 500, g: 0, b: 0 });
}

#[test]
fn gradient_at_three_quarters() {
    assert_eq!(battery_colors(75000), Rgb { r: 250, g: 750, b: 0 });
}

#[test]
fn gradient_components_sum_to_full() {
    for b in [1001i64, 1500, 25000, 50000, 99999, 100000, 250000] {
        let c = battery_colors(b);
        assert_eq!(c.r + c.g, 1000);
        assert_eq!(c.b, 0);
    }
}

#[test]
fn overfull_battery_clamps_to_green() {
    assert_eq!(battery_colors(200000), Rgb { r: 0, g: 1000, b: 0 });
}

#[test]
fn rgb_new_clamps_components() {
    let c = Rgb::new(-5, 500, 2000);
    assert_eq!(c, Rgb { r: 0, g: 500, b: 1000 });
}

#[test]
fn rgb_black_is_zero() {
    assert_eq!(Rgb::black(), Rgb { r: 0, g: 0, b: 0 });
}
