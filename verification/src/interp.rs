//! Diameter-indexed interpolation of feed-per-tooth ranges.
//!
//! `feed_per_flute` looks a diameter up in a material's feed table. Below
//! the smallest tabulated diameter the smallest row's range is returned
//! unmodified, above the largest the largest row's, and an exact hit returns
//! that row's range. Strictly between two rows the two ranges are blended
//! with the weights of `interp_pair`.

use crate::arith::div_floor;
use crate::catalog::{lemma_catalog_wf, table_wf, FeedEntry, Material};
use crate::units::{DIAM_TABLE_MAX_UM, FEED_RESULT_BOUND_NM, FEED_TABLE_MAX_NM};
use vstd::prelude::*;

verus! {

/// The feed range of a single table row, in nm, as (start, end).
pub open spec fn entry_range(e: FeedEntry) -> (int, int) {
    (e.feed_min_nm as int, e.feed_max_nm as int)
}

/// Weighted blend of two neighbouring rows at diameter `d` (um),
/// component-wise on both ends of the feed range. With
/// `w = (cur.diameter - prev.diameter) / (d - prev.diameter)` the result is
/// `prev.range * w + cur.range * (1 - w)`, written below as a single floor
/// division. Note that `w` exceeds 1 for `d` strictly between the two rows,
/// so the left weight grows as `d` approaches the upper row; this inverted
/// weighting is the calculator's long-standing documented behaviour and is
/// kept exactly rather than silently corrected.
pub open spec fn interp_pair(prev: FeedEntry, cur: FeedEntry, d: int) -> (int, int) {
    let span = cur.diameter_um - prev.diameter_um;
    let den = d - prev.diameter_um;
    (
        (prev.feed_min_nm * span + cur.feed_min_nm * (d - cur.diameter_um)) / den,
        (prev.feed_max_nm * span + cur.feed_max_nm * (d - cur.diameter_um)) / den,
    )
}

/// The scan of the feed table from row `i` onwards, with rows before `i`
/// already known to lie below `d`: stops at an exact hit or at the first row
/// above `d`, and falls back to the last row when it runs out.
pub open spec fn scan_from(t: Seq<FeedEntry>, i: int, d: int) -> (int, int)
    recommends
        1 <= i <= t.len(),
    decreases t.len() - i,
{
    if i < 1 || i >= t.len() {
        entry_range(t[t.len() - 1])
    } else if t[i].diameter_um == d {
        entry_range(t[i])
    } else if t[i].diameter_um > d {
        interp_pair(t[i - 1], t[i], d)
    } else {
        scan_from(t, i + 1, d)
    }
}

/// The feed-per-tooth range (nm) of a material at diameter `d` (um).
pub open spec fn feed_per_flute_spec(m: Material, d: int) -> (int, int) {
    let t = m.feed_table_spec();
    if t[0].diameter_um >= d {
        entry_range(t[0])
    } else {
        scan_from(t, 1, d)
    }
}

/// A scan whose rows before `k` lie below `d` stops exactly at row `k`.
proof fn lemma_scan_stops(t: Seq<FeedEntry>, d: int, i: int, k: int)
    requires
        1 <= i <= k < t.len(),
        t[k].diameter_um >= d,
        forall|j: int| i <= j < k ==> #[trigger] t[j].diameter_um < d,
    ensures
        t[k].diameter_um == d ==> scan_from(t, i, d) == entry_range(t[k]),
        t[k].diameter_um > d ==> scan_from(t, i, d) == interp_pair(t[k - 1], t[k], d),
    decreases k - i,
{
    if i < k {
        lemma_scan_stops(t, d, i + 1, k);
    }
}

/// A scan all of whose remaining rows lie below `d` falls back to the last
/// row.
proof fn lemma_scan_runs_out(t: Seq<FeedEntry>, d: int, i: int)
    requires
        1 <= i <= t.len(),
        forall|j: int| i <= j < t.len() ==> #[trigger] t[j].diameter_um < d,
    ensures
        scan_from(t, i, d) == entry_range(t[t.len() - 1]),
    decreases t.len() - i,
{
    if i < t.len() {
        lemma_scan_runs_out(t, d, i + 1);
    }
}

/// Clamp below: at or below the smallest tabulated diameter, the smallest
/// row's range is returned unmodified.
pub proof fn lemma_feed_clamp_below(m: Material, d: int)
    requires
        d <= m.feed_table_spec()[0].diameter_um,
    ensures
        feed_per_flute_spec(m, d) == entry_range(m.feed_table_spec()[0]),
{
}

/// Clamp above: at or above the largest tabulated diameter, the largest
/// row's range is returned unmodified.
pub proof fn lemma_feed_clamp_above(m: Material, d: int)
    requires
        d >= m.feed_table_spec()[m.feed_table_spec().len() - 1].diameter_um,
    ensures
        feed_per_flute_spec(m, d) == entry_range(
            m.feed_table_spec()[m.feed_table_spec().len() - 1],
        ),
{
    lemma_catalog_wf(m);
    let t = m.feed_table_spec();
    let n = t.len() as int;
    if t[0].diameter_um >= d {
        assert(n == 1);
    } else if d == t[n - 1].diameter_um {
        lemma_scan_stops(t, d, 1, n - 1);
    } else {
        lemma_scan_runs_out(t, d, 1);
    }
}

/// Exact hit: a diameter equal to a tabulated one returns that row's range
/// unmodified, with no interpolation.
pub proof fn lemma_feed_exact_hit(m: Material, d: int, k: int)
    requires
        0 <= k < m.feed_table_spec().len(),
        m.feed_table_spec()[k].diameter_um == d,
    ensures
        feed_per_flute_spec(m, d) == entry_range(m.feed_table_spec()[k]),
{
    lemma_catalog_wf(m);
    let t = m.feed_table_spec();
    if k > 0 {
        lemma_scan_stops(t, d, 1, k);
    }
}

/// Interior diameter: strictly between two neighbouring rows, the result is
/// exactly the weighted blend of those two rows.
pub proof fn lemma_feed_interpolated(m: Material, d: int, k: int)
    requires
        0 <= k,
        k + 1 < m.feed_table_spec().len(),
        m.feed_table_spec()[k].diameter_um < d,
        d < m.feed_table_spec()[k + 1].diameter_um,
    ensures
        feed_per_flute_spec(m, d) == interp_pair(
            m.feed_table_spec()[k],
            m.feed_table_spec()[k + 1],
            d,
        ),
{
    lemma_catalog_wf(m);
    let t = m.feed_table_spec();
    lemma_scan_stops(t, d, 1, k + 1);
}

/// The two products of the blend's numerator stay within the bound given by
/// the table limits, and so does the quotient.
proof fn lemma_blend_bounds(fp: int, fc: int, dp: int, dc: int, d: int)
    requires
        0 <= fp <= FEED_TABLE_MAX_NM,
        0 <= fc <= FEED_TABLE_MAX_NM,
        0 < dp < dc <= DIAM_TABLE_MAX_UM,
        dp < d < dc,
    ensures
        0 <= fp * (dc - dp) <= FEED_TABLE_MAX_NM * DIAM_TABLE_MAX_UM,
        -(FEED_TABLE_MAX_NM * DIAM_TABLE_MAX_UM) <= fc * (d - dc) <= 0,
{
    assert(0 <= fp * (dc - dp) <= FEED_TABLE_MAX_NM * DIAM_TABLE_MAX_UM) by (nonlinear_arith)
        requires
            0 <= fp <= FEED_TABLE_MAX_NM,
            0 < dc - dp <= DIAM_TABLE_MAX_UM,
    ;
    assert(-(FEED_TABLE_MAX_NM * DIAM_TABLE_MAX_UM) <= fc * (d - dc) <= 0) by (nonlinear_arith)
        requires
            0 <= fc <= FEED_TABLE_MAX_NM,
            0 < dc - d <= DIAM_TABLE_MAX_UM,
    ;
}

/// The feed-per-tooth range (nm) recommended for `material` at tool
/// diameter `diameter_um` (um), as (start, end).
pub fn feed_per_flute(material: Material, diameter_um: i64) -> (r: (i64, i64))
    ensures
        (r.0 as int, r.1 as int) == feed_per_flute_spec(material, diameter_um as int),
        -FEED_RESULT_BOUND_NM <= r.0 <= FEED_RESULT_BOUND_NM,
        -FEED_RESULT_BOUND_NM <= r.1 <= FEED_RESULT_BOUND_NM,
{
    proof {
        lemma_catalog_wf(material);
    }
    let table = material.feed_table();
    let ghost t = material.feed_table_spec();
    let first = table[0];
    if first.diameter_um >= diameter_um {
        return (first.feed_min_nm, first.feed_max_nm);
    }
    let mut i: usize = 1;
    let mut prev = first;
    while i < table.len()
        invariant
            1 <= i <= t.len(),
            table@ == t,
            t == material.feed_table_spec(),
            table_wf(t),
            prev == t[i - 1],
            prev.diameter_um < diameter_um,
            t[0].diameter_um < diameter_um,
            scan_from(t, i as int, diameter_um as int) == scan_from(t, 1, diameter_um as int),
        decreases t.len() - i,
    {
        let e = table[i];
        if e.diameter_um == diameter_um {
            return (e.feed_min_nm, e.feed_max_nm);
        }
        if e.diameter_um > diameter_um {
            proof {
                assert(e == t[i as int]);
                assert(0 < e.diameter_um <= DIAM_TABLE_MAX_UM && 0 <= e.feed_min_nm
                    <= e.feed_max_nm <= FEED_TABLE_MAX_NM);
                assert(0 < prev.diameter_um <= DIAM_TABLE_MAX_UM && 0 <= prev.feed_min_nm
                    <= prev.feed_max_nm <= FEED_TABLE_MAX_NM);
                assert(prev.diameter_um < t[i as int].diameter_um);
                lemma_blend_bounds(
                    prev.feed_min_nm as int,
                    e.feed_min_nm as int,
                    prev.diameter_um as int,
                    e.diameter_um as int,
                    diameter_um as int,
                );
                lemma_blend_bounds(
                    prev.feed_max_nm as int,
                    e.feed_max_nm as int,
                    prev.diameter_um as int,
                    e.diameter_um as int,
                    diameter_um as int,
                );
            }
            let span = e.diameter_um - prev.diameter_um;
            let den = diameter_um - prev.diameter_um;
            let lo = div_floor(
                prev.feed_min_nm * span + e.feed_min_nm * (diameter_um - e.diameter_um),
                den,
            );
            let hi = div_floor(
                prev.feed_max_nm * span + e.feed_max_nm * (diameter_um - e.diameter_um),
                den,
            );
            return (lo, hi);
        }
        prev = e;
        i = i + 1;
    }
    (prev.feed_min_nm, prev.feed_max_nm)
}

} // verus!
