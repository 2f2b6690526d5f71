//! The material catalog: cutting-speed ranges and diameter-indexed
//! feed-per-tooth tables for a closed set of workpiece materials.
//!
//! The catalog is immutable and total: every `Material` variant has a
//! cutting-speed range and a non-empty feed table whose rows are sorted by
//! strictly increasing diameter. `lemma_catalog_wf` proves this once and for
//! all; the interpolation in `interp` builds on it.

use crate::units::{CUT_SPEED_MAX_M_PER_MIN, DIAM_TABLE_MAX_UM, FEED_TABLE_MAX_NM};
use vstd::prelude::*;

verus! {

/// The workpiece materials the catalog knows.
#[derive(Clone, Copy, PartialEq, Eq, Structural, Debug)]
pub enum Material {
    Aluminium,
    Plastic,
    Copper,
    WoodSoft,
    WoodHard,
    WoodMdf,
}

/// One row of a feed table: at tool diameter `diameter_um` (um) the
/// recommended feed per tooth lies in `[feed_min_nm, feed_max_nm]` (nm).
#[derive(Clone, Copy, PartialEq, Eq, Structural, Debug)]
pub struct FeedEntry {
    pub diameter_um: i64,
    pub feed_min_nm: i64,
    pub feed_max_nm: i64,
}

impl Material {
    /// The recommended cutting-speed range in m/min, as (start, end).
    pub open spec fn cut_speed_spec(self) -> (int, int) {
        match self {
            Material::Aluminium => (100, 450),
            Material::Plastic => (200, 400),
            Material::Copper => (80, 200),
            Material::WoodSoft => (300, 600),
            Material::WoodHard => (200, 450),
            Material::WoodMdf => (200, 450),
        }
    }

    /// Recommended cutting-speed range in m/min, as (start, end).
    pub fn cut_speed(&self) -> (r: (i64, i64))
        ensures
            (r.0 as int, r.1 as int) == self.cut_speed_spec(),
    {
        match self {
            Material::Aluminium => (100, 450),
            Material::Plastic => (200, 400),
            Material::Copper => (80, 200),
            Material::WoodSoft => (300, 600),
            Material::WoodHard => (200, 450),
            Material::WoodMdf => (200, 450),
        }
    }

    /// The feed table: feed-per-tooth ranges keyed by tool diameter,
    /// sorted by strictly increasing diameter.
    pub open spec fn feed_table_spec(self) -> Seq<FeedEntry> {
        match self {
            Material::Aluminium => seq![
                FeedEntry { diameter_um: 4000, feed_min_nm: 5000, feed_max_nm: 15000 },
                FeedEntry { diameter_um: 6000, feed_min_nm: 15000, feed_max_nm: 25000 },
                FeedEntry { diameter_um: 8000, feed_min_nm: 20000, feed_max_nm: 30000 },
                FeedEntry { diameter_um: 10000, feed_min_nm: 25000, feed_max_nm: 38000 },
                FeedEntry { diameter_um: 12000, feed_min_nm: 30000, feed_max_nm: 50000 },
            ],
            Material::Plastic => seq![
                FeedEntry { diameter_um: 4000, feed_min_nm: 20000, feed_max_nm: 50000 },
                FeedEntry { diameter_um: 6000, feed_min_nm: 40000, feed_max_nm: 90000 },
                FeedEntry { diameter_um: 8000, feed_min_nm: 40000, feed_max_nm: 100000 },
                FeedEntry { diameter_um: 10000, feed_min_nm: 50000, feed_max_nm: 150000 },
                FeedEntry { diameter_um: 12000, feed_min_nm: 80000, feed_max_nm: 180000 },
            ],
            Material::Copper => seq![
                FeedEntry { diameter_um: 4000, feed_min_nm: 10000, feed_max_nm: 20000 },
                FeedEntry { diameter_um: 6000, feed_min_nm: 15000, feed_max_nm: 25000 },
                FeedEntry { diameter_um: 8000, feed_min_nm: 30000, feed_max_nm: 57000 },
                FeedEntry { diameter_um: 10000, feed_min_nm: 35000, feed_max_nm: 65000 },
                FeedEntry { diameter_um: 12000, feed_min_nm: 40000, feed_max_nm: 80000 },
            ],
            Material::WoodSoft => seq![
                FeedEntry { diameter_um: 4000, feed_min_nm: 20000, feed_max_nm: 40000 },
                FeedEntry { diameter_um: 6000, feed_min_nm: 25000, feed_max_nm: 55000 },
                FeedEntry { diameter_um: 8000, feed_min_nm: 37000, feed_max_nm: 70000 },
                FeedEntry { diameter_um: 10000, feed_min_nm: 45000, feed_max_nm: 85000 },
                FeedEntry { diameter_um: 12000, feed_min_nm: 50000, feed_max_nm: 95000 },
            ],
            Material::WoodHard => seq![
                FeedEntry { diameter_um: 4000, feed_min_nm: 15000, feed_max_nm: 35000 },
                FeedEntry { diameter_um: 6000, feed_min_nm: 20000, feed_max_nm: 50000 },
                FeedEntry { diameter_um: 8000, feed_min_nm: 30000, feed_max_nm: 65000 },
                FeedEntry { diameter_um: 10000, feed_min_nm: 45000, feed_max_nm: 80000 },
                FeedEntry { diameter_um: 12000, feed_min_nm: 50000, feed_max_nm: 90000 },
            ],
            Material::WoodMdf => seq![
                FeedEntry { diameter_um: 4000, feed_min_nm: 22000, feed_max_nm: 44000 },
                FeedEntry { diameter_um: 6000, feed_min_nm: 27500, feed_max_nm: 60500 },
                FeedEntry { diameter_um: 8000, feed_min_nm: 40700, feed_max_nm: 77000 },
                FeedEntry { diameter_um: 10000, feed_min_nm: 49500, feed_max_nm: 93500 },
                FeedEntry { diameter_um: 12000, feed_min_nm: 55000, feed_max_nm: 105000 },
            ],
        }
    }

    /// The feed table as a vector, row for row the table of
    /// `feed_table_spec`.
    pub fn feed_table(&self) -> (t: Vec<FeedEntry>)
        ensures
            t@ == self.feed_table_spec(),
    {
        let mut t: Vec<FeedEntry> = Vec::new();
        match self {
            Material::Aluminium => {
                t.push(FeedEntry { diameter_um: 4000, feed_min_nm: 5000, feed_max_nm: 15000 });
                t.push(FeedEntry { diameter_um: 6000, feed_min_nm: 15000, feed_max_nm: 25000 });
                t.push(FeedEntry { diameter_um: 8000, feed_min_nm: 20000, feed_max_nm: 30000 });
                t.push(FeedEntry { diameter_um: 10000, feed_min_nm: 25000, feed_max_nm: 38000 });
                t.push(FeedEntry { diameter_um: 12000, feed_min_nm: 30000, feed_max_nm: 50000 });
            },
            Material::Plastic => {
                t.push(FeedEntry { diameter_um: 4000, feed_min_nm: 20000, feed_max_nm: 50000 });
                t.push(FeedEntry { diameter_um: 6000, feed_min_nm: 40000, feed_max_nm: 90000 });
                t.push(FeedEntry { diameter_um: 8000, feed_min_nm: 40000, feed_max_nm: 100000 });
                t.push(FeedEntry { diameter_um: 10000, feed_min_nm: 50000, feed_max_nm: 150000 });
                t.push(FeedEntry { diameter_um: 12000, feed_min_nm: 80000, feed_max_nm: 180000 });
            },
            Material::Copper => {
                t.push(FeedEntry { diameter_um: 4000, feed_min_nm: 10000, feed_max_nm: 20000 });
                t.push(FeedEntry { diameter_um: 6000, feed_min_nm: 15000, feed_max_nm: 25000 });
                t.push(FeedEntry { diameter_um: 8000, feed_min_nm: 30000, feed_max_nm: 57000 });
                t.push(FeedEntry { diameter_um: 10000, feed_min_nm: 35000, feed_max_nm: 65000 });
                t.push(FeedEntry { diameter_um: 12000, feed_min_nm: 40000, feed_max_nm: 80000 });
            },
            Material::WoodSoft => {
                t.push(FeedEntry { diameter_um: 4000, feed_min_nm: 20000, feed_max_nm: 40000 });
                t.push(FeedEntry { diameter_um: 6000, feed_min_nm: 25000, feed_max_nm: 55000 });
                t.push(FeedEntry { diameter_um: 8000, feed_min_nm: 37000, feed_max_nm: 70000 });
                t.push(FeedEntry { diameter_um: 10000, feed_min_nm: 45000, feed_max_nm: 85000 });
                t.push(FeedEntry { diameter_um: 12000, feed_min_nm: 50000, feed_max_nm: 95000 });
            },
            Material::WoodHard => {
                t.push(FeedEntry { diameter_um: 4000, feed_min_nm: 15000, feed_max_nm: 35000 });
                t.push(FeedEntry { diameter_um: 6000, feed_min_nm: 20000, feed_max_nm: 50000 });
                t.push(FeedEntry { diameter_um: 8000, feed_min_nm: 30000, feed_max_nm: 65000 });
                t.push(FeedEntry { diameter_um: 10000, feed_min_nm: 45000, feed_max_nm: 80000 });
                t.push(FeedEntry { diameter_um: 12000, feed_min_nm: 50000, feed_max_nm: 90000 });
            },
            Material::WoodMdf => {
                t.push(FeedEntry { diameter_um: 4000, feed_min_nm: 22000, feed_max_nm: 44000 });
                t.push(FeedEntry { diameter_um: 6000, feed_min_nm: 27500, feed_max_nm: 60500 });
                t.push(FeedEntry { diameter_um: 8000, feed_min_nm: 40700, feed_max_nm: 77000 });
                t.push(FeedEntry { diameter_um: 10000, feed_min_nm: 49500, feed_max_nm: 93500 });
                t.push(FeedEntry { diameter_um: 12000, feed_min_nm: 55000, feed_max_nm: 105000 });
            },
        }
        proof {
            assert(t@ =~= self.feed_table_spec());
        }
        t
    }

    /// Every material, in catalog order. Useful for building selection
    /// widgets around the engine.
    pub fn all() -> (ms: Vec<Material>)
        ensures
            ms@ == seq![
                Material::Aluminium,
                Material::Plastic,
                Material::Copper,
                Material::WoodSoft,
                Material::WoodHard,
                Material::WoodMdf,
            ],
    {
        let mut ms: Vec<Material> = Vec::new();
        ms.push(Material::Aluminium);
        ms.push(Material::Plastic);
        ms.push(Material::Copper);
        ms.push(Material::WoodSoft);
        ms.push(Material::WoodHard);
        ms.push(Material::WoodMdf);
        proof {
            assert(ms@ =~= seq![
                Material::Aluminium,
                Material::Plastic,
                Material::Copper,
                Material::WoodSoft,
                Material::WoodHard,
                Material::WoodMdf,
            ]);
        }
        ms
    }
}

/// A well-formed cutting-speed range: positive, non-degenerate, bounded.
pub open spec fn cut_speed_wf(r: (int, int)) -> bool {
    0 < r.0 < r.1 <= CUT_SPEED_MAX_M_PER_MIN
}

/// A well-formed feed table: non-empty, diameters strictly increasing and
/// within bounds, feed ranges ordered, non-negative and within bounds.
pub open spec fn table_wf(t: Seq<FeedEntry>) -> bool {
    &&& 0 < t.len()
    &&& forall|i: int, j: int|
        0 <= i < j < t.len() ==> #[trigger] t[i].diameter_um < #[trigger] t[j].diameter_um
    &&& forall|i: int|
        0 <= i < t.len() ==> {
            let e = #[trigger] t[i];
            &&& 0 < e.diameter_um <= DIAM_TABLE_MAX_UM
            &&& 0 <= e.feed_min_nm <= e.feed_max_nm <= FEED_TABLE_MAX_NM
        }
}

/// Catalog totality: every material has a well-formed cutting-speed range
/// and a well-formed, non-empty feed table.
pub proof fn lemma_catalog_wf(m: Material)
    ensures
        cut_speed_wf(m.cut_speed_spec()),
        table_wf(m.feed_table_spec()),
{
    match m {
        Material::Aluminium => {
            assert(table_wf(Material::Aluminium.feed_table_spec()));
        },
        Material::Plastic => {
            assert(table_wf(Material::Plastic.feed_table_spec()));
        },
        Material::Copper => {
            assert(table_wf(Material::Copper.feed_table_spec()));
        },
        Material::WoodSoft => {
            assert(table_wf(Material::WoodSoft.feed_table_spec()));
        },
        Material::WoodHard => {
            assert(table_wf(Material::WoodHard.feed_table_spec()));
        },
        Material::WoodMdf => {
            assert(table_wf(Material::WoodMdf.feed_table_spec()));
        },
    }
}

} // verus!
