//! The text-commit rules: commit on parse success, flag on failure, keep
//! the last valid value, and suppress updates that change nothing.

use millcalc::catalog::Material;
use millcalc::state::GlobalState;

#[test]
fn diameter_commit_on_parse_success() {
    let s = GlobalState::default();
    // Unparsable text sets the flag and keeps the last valid diameter.
    let (s1, changed1) = s.commit_diameter_text(b"abc");
    assert!(changed1);
    assert!(s1.diameter_error());
    assert_eq!(s1.diameter(), 8000);
    // Valid text afterwards clears the flag and commits the value.
    let (s2, changed2) = s1.commit_diameter_text(b"10.5");
    assert!(changed2);
    assert!(!s2.diameter_error());
    assert_eq!(s2.diameter(), 10500);
}

#[test]
fn diameter_commit_suppresses_noop() {
    let s = GlobalState::default();
    let (s1, changed1) = s.commit_diameter_text(b"10.5");
    assert!(changed1);
    let (s2, changed2) = s1.commit_diameter_text(b"10.5");
    assert!(!changed2);
    assert_eq!(s2, s1);
    // Re-committing the current value with the flag clear is a no-op too.
    let (s3, changed3) = s.commit_diameter_text(b"8");
    assert!(!changed3);
    assert_eq!(s3, s);
}

#[test]
fn diameter_error_is_set_once() {
    let s = GlobalState::default();
    let (s1, changed1) = s.commit_diameter_text(b"garbage");
    assert!(changed1 && s1.diameter_error());
    let (s2, changed2) = s1.commit_diameter_text(b"more garbage");
    assert!(!changed2);
    assert_eq!(s2, s1);
}

#[test]
fn flute_count_commit_rules() {
    let s = GlobalState::default();
    let (s1, changed1) = s.commit_flute_count_text(b"4");
    assert!(changed1);
    assert_eq!(s1.flute_count(), 4);
    assert!(!s1.flute_count_error());
    // Out of range for a u8 count: an error, value kept.
    let (s2, changed2) = s1.commit_flute_count_text(b"300");
    assert!(changed2);
    assert!(s2.flute_count_error());
    assert_eq!(s2.flute_count(), 4);
    // A later valid commit clears the flag.
    let (s3, changed3) = s2.commit_flute_count_text(b"4");
    assert!(changed3);
    assert!(!s3.flute_count_error());
    assert_eq!(s3.flute_count(), 4);
    // Same value, flag already clear: suppressed.
    let (s4, changed4) = s3.commit_flute_count_text(b"4");
    assert!(!changed4);
    assert_eq!(s4, s3);
}

#[test]
fn select_material_suppresses_noop() {
    let s = GlobalState::default();
    let (s1, changed1) = s.select_material(Material::WoodSoft);
    assert!(!changed1);
    assert_eq!(s1, s);
    let (s2, changed2) = s.select_material(Material::Copper);
    assert!(changed2);
    assert_eq!(*s2.material(), Material::Copper);
}

#[test]
fn select_rpm_suppresses_noop() {
    let s = GlobalState::default();
    let (s1, changed1) = s.select_rpm(13000);
    assert!(!changed1);
    assert_eq!(s1, s);
    let (s2, changed2) = s.select_rpm(9000);
    assert!(changed2);
    assert_eq!(s2.selected_rpm(), 9000);
}

#[test]
fn material_switch_round_trip_restores_rpm_range() {
    let s = GlobalState::default();
    let before = s.rpm_range();
    let (s1, _) = s.select_material(Material::Aluminium);
    let (s2, _) = s1.select_material(Material::WoodSoft);
    assert_eq!(s2, s);
    assert_eq!(s2.rpm_range(), before);
}
