//! Catalog totality: every material has a sensible cutting-speed range and
//! a non-empty, strictly increasing, ordered feed table.

use millcalc::catalog::Material;

#[test]
fn catalog_cut_speed_ranges_are_ordered() {
    for m in Material::all() {
        let (start, end) = m.cut_speed();
        assert!(start > 0);
        assert!(start < end);
    }
}

#[test]
fn catalog_feed_tables_are_well_formed() {
    for m in Material::all() {
        let table = m.feed_table();
        assert!(!table.is_empty());
        for w in table.windows(2) {
            assert!(w[0].diameter_um < w[1].diameter_um);
        }
        for e in &table {
            assert!(e.diameter_um > 0);
            assert!(e.feed_min_nm >= 0);
            assert!(e.feed_min_nm <= e.feed_max_nm);
        }
    }
}

#[test]
fn catalog_known_values() {
    let (start, end) = Material::WoodSoft.cut_speed();
    assert_eq!((start, end), (300, 600));
    let table = Material::Aluminium.feed_table();
    assert_eq!(table.len(), 5);
    assert_eq!(table[0].diameter_um, 4000);
    assert_eq!(table[0].feed_min_nm, 5000);
    assert_eq!(table[0].feed_max_nm, 15000);
    assert_eq!(table[4].diameter_um, 12000);
    assert_eq!(table[4].feed_max_nm, 50000);
}

#[test]
fn catalog_all_lists_every_material_once() {
    let ms = Material::all();
    assert_eq!(
        ms,
        vec![
            Material::Aluminium,
            Material::Plastic,
            Material::Copper,
            Material::WoodSoft,
            Material::WoodHard,
            Material::WoodMdf,
        ]
    );
}
