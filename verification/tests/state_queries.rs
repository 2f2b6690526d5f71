//! The derived-value queries of `GlobalState` on concrete states.

use millcalc::state::GlobalState;

#[test]
fn default_state_fields() {
    let s = GlobalState::default();
    assert_eq!(s.diameter(), 8000);
    assert_eq!(s.flute_count(), 2);
    assert_eq!(s.min_rpm(), 3000);
    assert_eq!(s.max_rpm(), 24000);
    assert_eq!(s.selected_rpm(), 13000);
    assert!(!s.diameter_error());
    assert!(!s.flute_count_error());
}

#[test]
fn rpm_range_for_soft_wood_at_8mm() {
    // Soft wood cuts at 300..600 m/min; at 8 mm the spindle range is
    // speed * 1000 / (8 * pi), about 11936.6..23873.2 rev/min, floored.
    let s = GlobalState::default();
    let (lo, hi) = s.rpm_range().unwrap();
    assert_eq!((lo, hi), (11936, 23873));
    // Within a rev/min of the real-valued conversion.
    let exact_lo = 300.0 * 1000.0 / (8.0 * std::f64::consts::PI);
    let exact_hi = 600.0 * 1000.0 / (8.0 * std::f64::consts::PI);
    assert!((lo as f64 - exact_lo).abs() < 1.0);
    assert!((hi as f64 - exact_hi).abs() < 1.0);
}

#[test]
fn rpm_range_is_degenerate_without_a_positive_diameter() {
    let mut s = GlobalState::default();
    s.set_diameter(0);
    assert_eq!(s.rpm_range(), None);
    s.set_diameter(-5000);
    assert_eq!(s.rpm_range(), None);
}

#[test]
fn cut_speed_readout_at_default() {
    // 8 mm * pi * 13000 rev/min / 1000 is about 326.7256 m/min; the readout
    // is in thousandths of m/min.
    let s = GlobalState::default();
    let readout = s.cut_speed();
    assert_eq!(readout, 326725);
    let exact = 8.0 * std::f64::consts::PI * 13000.0 / 1000.0;
    assert!((readout as f64 / 1000.0 - exact).abs() < 0.01);
}

#[test]
fn feed_range_at_default() {
    // Soft wood at 8 mm is an exact table hit: 0.037..0.070 mm per tooth.
    // At 13000 rev/min with 2 flutes: 962..1820 mm/min, in um/min here.
    let s = GlobalState::default();
    assert_eq!(s.feed_range(), (962000, 1820000));
}

#[test]
fn setters_replace_single_fields() {
    let mut s = GlobalState::default();
    s.set_flute_count(4);
    assert_eq!(s.flute_count(), 4);
    s.set_min_rpm(5000);
    s.set_max_rpm(20000);
    s.set_selected_rpm(10000);
    assert_eq!((s.min_rpm(), s.max_rpm(), s.selected_rpm()), (5000, 20000, 10000));
    s.set_diameter_error(true);
    assert!(s.diameter_error());
    s.set_flute_count_error(true);
    assert!(s.flute_count_error());
    // The untouched fields keep their values.
    assert_eq!(s.diameter(), 8000);
}

#[test]
fn feed_range_scales_with_rpm_and_flutes() {
    let mut s = GlobalState::default();
    s.set_selected_rpm(1000);
    s.set_flute_count(1);
    // 1000 rev/min * 1 flute * 0.037..0.070 mm -> 37..70 mm/min.
    assert_eq!(s.feed_range(), (37000, 70000));
}
