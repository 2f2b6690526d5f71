//! The interpolation's edge policy and its exact arithmetic, on concrete
//! diameters. All diameters are in micrometres and all feeds in nanometres.

use millcalc::catalog::Material;
use millcalc::interp::feed_per_flute;

#[test]
fn clamp_below_smallest_diameter() {
    // 2 mm is below the smallest tabulated 4 mm: the smallest row as-is.
    assert_eq!(feed_per_flute(Material::Aluminium, 2000), (5000, 15000));
    // The boundary itself is also an exact hit of the first row.
    assert_eq!(feed_per_flute(Material::Aluminium, 4000), (5000, 15000));
    // Non-positive diameters fall under the same clamp.
    assert_eq!(feed_per_flute(Material::Aluminium, 0), (5000, 15000));
    assert_eq!(feed_per_flute(Material::Aluminium, -3000), (5000, 15000));
}

#[test]
fn clamp_above_largest_diameter() {
    // 20 mm is above the largest tabulated 12 mm: the largest row as-is.
    assert_eq!(feed_per_flute(Material::Aluminium, 20000), (30000, 50000));
    assert_eq!(feed_per_flute(Material::Aluminium, 12000), (30000, 50000));
}

#[test]
fn exact_hit_returns_row_unmodified() {
    // 6 mm is tabulated: its row comes back with no interpolation.
    assert_eq!(feed_per_flute(Material::Aluminium, 6000), (15000, 25000));
    assert_eq!(feed_per_flute(Material::WoodSoft, 8000), (37000, 70000));
    assert_eq!(feed_per_flute(Material::WoodMdf, 10000), (49500, 93500));
}

#[test]
fn interior_diameter_uses_the_inverted_weights() {
    // Aluminium at 5 mm, between the 4 mm and 6 mm rows. The left weight is
    // (6 - 4) / (5 - 4) = 2 and the right weight 1 - 2 = -1, so the result
    // extrapolates:
    //   start: 5000 * 2 + 15000 * (-1) = -5000
    //   end:  15000 * 2 + 25000 * (-1) =  5000
    assert_eq!(feed_per_flute(Material::Aluminium, 5000), (-5000, 5000));

    // Soft wood at 7 mm, between the 6 mm and 8 mm rows, same weights:
    //   start: 25000 * 2 - 37000 = 13000
    //   end:   55000 * 2 - 70000 = 40000
    assert_eq!(feed_per_flute(Material::WoodSoft, 7000), (13000, 40000));
}

#[test]
fn interior_diameter_floor_division() {
    // Copper at 7.5 mm, between 6 mm and 8 mm: span = 2000, den = 1500.
    //   start: (15000 * 2000 + 30000 * (7500 - 8000)) / 1500 = 10000
    //   end:   (25000 * 2000 + 57000 * (-500)) / 1500 = 21500000 / 1500
    //        = 14333.33..., floored to 14333
    assert_eq!(feed_per_flute(Material::Copper, 7500), (10000, 14333));
}
