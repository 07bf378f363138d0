//! Conversion of raw readings to AQI, on concrete values.

use purple_air::aqi::raw_to_aqi;

// Readings are passed in thousandths of a ug/m^3; AQI comes back in tenths.

#[test]
fn breakpoints_are_exact() {
    assert_eq!(raw_to_aqi(0), 0);
    assert_eq!(raw_to_aqi(12100), 510);
    assert_eq!(raw_to_aqi(35500), 1010);
    assert_eq!(raw_to_aqi(55500), 1510);
    assert_eq!(raw_to_aqi(150500), 2010);
    assert_eq!(raw_to_aqi(250500), 3010);
    assert_eq!(raw_to_aqi(350500), 4010);
}

#[test]
fn saturates_at_maximum() {
    assert_eq!(raw_to_aqi(500500), 5000);
    assert_eq!(raw_to_aqi(1000000), 5000);
    assert_eq!(raw_to_aqi(i64::MAX), 5000);
}

#[test]
fn midpoint_of_second_segment() {
    // 23.8 ug/m^3 is halfway between 12.1 and 35.5, so its AQI is halfway
    // between 51 and 101.
    assert_eq!(raw_to_aqi(23800), 760);
    let reading: f64 = 23.8;
    let aqi: f64 = raw_to_aqi((reading * 1000.0) as i64) as f64 / 10.0;
    assert_eq!(aqi, 76.0);
}

#[test]
fn negative_readings_clamp_to_zero() {
    assert_eq!(raw_to_aqi(-1), 0);
    assert_eq!(raw_to_aqi(-500000), 0);
}

#[test]
fn non_decreasing_on_samples() {
    let samples: Vec<i64> = vec![
        -10, 0, 1, 500, 5000, 12099, 12100, 12101, 23800, 35500, 40000, 55500, 90000, 150500,
        200000, 250500, 300000, 350500, 450000, 500499, 500500, 600000,
    ];
    let mut last: u64 = 0;
    for r in samples {
        let a = raw_to_aqi(r);
        assert!(a >= last, "aqi fell at {}", r);
        last = a;
    }
}

#[test]
fn stays_inside_enclosing_pair() {
    assert!(raw_to_aqi(5000) <= 510);
    assert!(raw_to_aqi(20000) >= 510 && raw_to_aqi(20000) <= 1010);
    assert!(raw_to_aqi(400000) >= 4010 && raw_to_aqi(400000) <= 5000);
}
