//! The engine's state record and its queries and update rules.
//!
//! `GlobalState` holds the current inputs: material, tool diameter, flute
//! count, the machine's spindle bounds and the chosen spindle speed, plus
//! one error flag per validated text field. The queries derive the
//! recommended spindle-speed range, the resulting feed range and the actual
//! cutting speed; the mutators replace fields; and the commit functions
//! apply the text-input rules: commit on parse success, flag on failure,
//! and suppress updates that would change nothing.
//!
//! Policy: the spindle-speed range is returned unclamped — the chosen speed
//! is never silently corrected when the material or the diameter changes;
//! a shell is expected to warn when the choice falls outside the range.

use crate::arith::{div_floor, lemma_abs_mul_bound};
use crate::catalog::{lemma_catalog_wf, Material};
use crate::interp::{feed_per_flute, feed_per_flute_spec};
use crate::parse::{parse_diameter, parse_diameter_spec, parse_flute_count, parse_flute_spec};
use crate::units::{DIAMETER_LIMIT_UM, FEED_RESULT_BOUND_NM, PI_DEN, PI_NUM, RPM_LIMIT};
use vstd::prelude::*;

verus! {

/// The engine's state: current inputs and their validity flags.
///
/// `diameter_um` is the tool diameter in micrometres; `min_rpm`, `max_rpm`
/// and `selected_rpm` are spindle speeds in rev/min. When an error flag is
/// set, the corresponding numeric field still holds the last valid value.
#[derive(Clone, Copy, PartialEq, Eq, Structural, Debug)]
pub struct GlobalState {
    pub material: Material,
    pub diameter_um: i64,
    pub diameter_error: bool,
    pub flute_count: u8,
    pub flute_count_error: bool,
    pub min_rpm: i64,
    pub max_rpm: i64,
    pub selected_rpm: i64,
}

impl GlobalState {
    /// Well-formedness: the numeric fields lie within the fixed-point
    /// bounds, so that every derived quantity fits in 64 bits.
    pub open spec fn wf(self) -> bool {
        &&& -DIAMETER_LIMIT_UM <= self.diameter_um <= DIAMETER_LIMIT_UM
        &&& -RPM_LIMIT <= self.min_rpm <= RPM_LIMIT
        &&& -RPM_LIMIT <= self.max_rpm <= RPM_LIMIT
        &&& -RPM_LIMIT <= self.selected_rpm <= RPM_LIMIT
    }

    /// The initial state.
    pub open spec fn default_spec() -> GlobalState {
        GlobalState {
            material: Material::WoodSoft,
            diameter_um: 8000,
            diameter_error: false,
            flute_count: 2,
            flute_count_error: false,
            min_rpm: 3000,
            max_rpm: 24000,
            selected_rpm: 13000,
        }
    }

    /// The spindle speed (rev/min) at which a cutting speed `vc` (m/min) is
    /// reached with a tool of diameter `d_um` (um):
    /// `vc * 1000 / (diameter_mm * pi)`, rounded down.
    pub open spec fn rpm_of(vc: int, d_um: int) -> int {
        vc * 1_000_000 * PI_DEN / (d_um * PI_NUM)
    }

    /// The spindle-speed range implied by the material's recommended
    /// cutting speeds at the current diameter, as (start, end).
    /// Meaningful only for a positive diameter.
    pub open spec fn rpm_range_pair_spec(self) -> (int, int) {
        (
            Self::rpm_of(self.material.cut_speed_spec().0, self.diameter_um as int),
            Self::rpm_of(self.material.cut_speed_spec().1, self.diameter_um as int),
        )
    }

    /// The actual cutting speed at the chosen spindle speed, in
    /// thousandths of m/min: `diameter_mm * pi * rpm / 1000`, rounded down.
    pub open spec fn cut_speed_spec(self) -> int {
        self.diameter_um * PI_NUM * self.selected_rpm / (PI_DEN * 1000)
    }

    /// The feed range at the chosen spindle speed, in um/min, as
    /// (start, end): `rpm * flutes * feed_per_tooth` on both ends of the
    /// interpolated feed-per-tooth range.
    pub open spec fn feed_range_spec(self) -> (int, int) {
        let f = feed_per_flute_spec(self.material, self.diameter_um as int);
        (
            self.selected_rpm * self.flute_count * f.0 / 1000,
            self.selected_rpm * self.flute_count * f.1 / 1000,
        )
    }

    /// The state and update flag produced by a diameter text commit; see
    /// `commit_diameter_text`.
    pub open spec fn commit_diameter_spec(self, text: Seq<u8>) -> (GlobalState, bool) {
        match parse_diameter_spec(text) {
            Some(v) => if v != self.diameter_um || self.diameter_error {
                ((GlobalState { diameter_um: v, diameter_error: false, ..self }), true)
            } else {
                (self, false)
            },
            None => if !self.diameter_error {
                ((GlobalState { diameter_error: true, ..self }), true)
            } else {
                (self, false)
            },
        }
    }

    /// The state and update flag produced by a flute-count text commit; see
    /// `commit_flute_count_text`.
    pub open spec fn commit_flute_count_spec(self, text: Seq<u8>) -> (GlobalState, bool) {
        match parse_flute_spec(text) {
            Some(v) => if v != self.flute_count || self.flute_count_error {
                ((GlobalState { flute_count: v, flute_count_error: false, ..self }), true)
            } else {
                (self, false)
            },
            None => if !self.flute_count_error {
                ((GlobalState { flute_count_error: true, ..self }), true)
            } else {
                (self, false)
            },
        }
    }

    /// The state and update flag produced by a material selection; see
    /// `select_material`.
    pub open spec fn select_material_spec(self, m: Material) -> (GlobalState, bool) {
        if m != self.material {
            ((GlobalState { material: m, ..self }), true)
        } else {
            (self, false)
        }
    }

    /// The state and update flag produced by a spindle-speed selection; see
    /// `select_rpm`.
    pub open spec fn select_rpm_spec(self, rpm: i64) -> (GlobalState, bool) {
        if rpm != self.selected_rpm {
            ((GlobalState { selected_rpm: rpm, ..self }), true)
        } else {
            (self, false)
        }
    }

    /// The current material.
    pub fn material(&self) -> (m: &Material)
        ensures
            *m == self.material,
    {
        &self.material
    }

    /// Replaces the material. Under the unclamped policy no other field is
    /// touched.
    pub fn set_material(&mut self, material: Material)
        ensures
            *final(self) == (GlobalState { material, ..*old(self) }),
    {
        self.material = material;
    }

    /// The spindle-speed range implied by the material at the current
    /// diameter, unclamped, as `Some((start, end))` in rev/min; `None` for
    /// a non-positive diameter, where no spindle speed reaches any cutting
    /// speed.
    pub fn rpm_range(&self) -> (r: Option<(i64, i64)>)
        requires
            self.wf(),
        ensures
            self.diameter_um <= 0 ==> r is None,
            self.diameter_um > 0 ==> (r matches Some(p) && (p.0 as int, p.1 as int)
                == self.rpm_range_pair_spec()),
    {
        let d = self.diameter_um;
        if d <= 0 {
            return None;
        }
        proof {
            lemma_catalog_wf(self.material);
        }
        let vc = self.material.cut_speed();
        let lo = div_floor(vc.0 * 1_000_000 * PI_DEN, d * PI_NUM);
        let hi = div_floor(vc.1 * 1_000_000 * PI_DEN, d * PI_NUM);
        Some((lo, hi))
    }

    /// The actual cutting speed at the chosen spindle speed, in
    /// thousandths of m/min.
    pub fn cut_speed(&self) -> (r: i64)
        requires
            self.wf(),
        ensures
            r as int == self.cut_speed_spec(),
    {
        proof {
            lemma_abs_mul_bound(
                self.diameter_um as int * PI_NUM,
                DIAMETER_LIMIT_UM as int * PI_NUM,
                self.selected_rpm as int,
                RPM_LIMIT as int,
            );
        }
        let num = self.diameter_um * PI_NUM * self.selected_rpm;
        div_floor(num, PI_DEN * 1000)
    }

    /// The feed range at the chosen spindle speed, in um/min, as
    /// (start, end).
    pub fn feed_range(&self) -> (r: (i64, i64))
        requires
            self.wf(),
        ensures
            (r.0 as int, r.1 as int) == self.feed_range_spec(),
    {
        let f = feed_per_flute(self.material, self.diameter_um);
        let flutes = self.flute_count as i64;
        proof {
            lemma_abs_mul_bound(
                self.selected_rpm as int,
                RPM_LIMIT as int,
                flutes as int,
                255,
            );
            lemma_abs_mul_bound(
                self.selected_rpm as int * flutes as int,
                RPM_LIMIT as int * 255,
                f.0 as int,
                FEED_RESULT_BOUND_NM as int,
            );
            lemma_abs_mul_bound(
                self.selected_rpm as int * flutes as int,
                RPM_LIMIT as int * 255,
                f.1 as int,
                FEED_RESULT_BOUND_NM as int,
            );
        }
        let lo = div_floor(self.selected_rpm * flutes * f.0, 1000);
        let hi = div_floor(self.selected_rpm * flutes * f.1, 1000);
        (lo, hi)
    }

    /// The current tool diameter, in um.
    pub fn diameter(&self) -> (d: i64)
        ensures
            d == self.diameter_um,
    {
        self.diameter_um
    }

    /// The current flute count.
    pub fn flute_count(&self) -> (n: u8)
        ensures
            n == self.flute_count,
    {
        self.flute_count
    }

    /// The machine's lower spindle bound, in rev/min.
    pub fn min_rpm(&self) -> (r: i64)
        ensures
            r == self.min_rpm,
    {
        self.min_rpm
    }

    /// The machine's upper spindle bound, in rev/min.
    pub fn max_rpm(&self) -> (r: i64)
        ensures
            r == self.max_rpm,
    {
        self.max_rpm
    }

    /// The chosen spindle speed, in rev/min.
    pub fn selected_rpm(&self) -> (r: i64)
        ensures
            r == self.selected_rpm,
    {
        self.selected_rpm
    }

    /// Replaces the tool diameter. Under the unclamped policy no other
    /// field is touched.
    pub fn set_diameter(&mut self, diameter_um: i64)
        requires
            -DIAMETER_LIMIT_UM <= diameter_um <= DIAMETER_LIMIT_UM,
        ensures
            *final(self) == (GlobalState { diameter_um, ..*old(self) }),
    {
        self.diameter_um = diameter_um;
    }

    /// Replaces the flute count.
    pub fn set_flute_count(&mut self, flute_count: u8)
        ensures
            *final(self) == (GlobalState { flute_count, ..*old(self) }),
    {
        self.flute_count = flute_count;
    }

    /// Replaces the machine's lower spindle bound.
    pub fn set_min_rpm(&mut self, min_rpm: i64)
        requires
            -RPM_LIMIT <= min_rpm <= RPM_LIMIT,
        ensures
            *final(self) == (GlobalState { min_rpm, ..*old(self) }),
    {
        self.min_rpm = min_rpm;
    }

    /// Replaces the machine's upper spindle bound.
    pub fn set_max_rpm(&mut self, max_rpm: i64)
        requires
            -RPM_LIMIT <= max_rpm <= RPM_LIMIT,
        ensures
            *final(self) == (GlobalState { max_rpm, ..*old(self) }),
    {
        self.max_rpm = max_rpm;
    }

    /// Replaces the chosen spindle speed.
    pub fn set_selected_rpm(&mut self, selected_rpm: i64)
        requires
            -RPM_LIMIT <= selected_rpm <= RPM_LIMIT,
        ensures
            *final(self) == (GlobalState { selected_rpm, ..*old(self) }),
    {
        self.selected_rpm = selected_rpm;
    }

    /// Whether the last diameter text failed to parse.
    pub fn diameter_error(&self) -> (e: bool)
        ensures
            e == self.diameter_error,
    {
        self.diameter_error
    }

    /// Sets or clears the diameter error flag.
    pub fn set_diameter_error(&mut self, diameter_error: bool)
        ensures
            *final(self) == (GlobalState { diameter_error, ..*old(self) }),
    {
        self.diameter_error = diameter_error;
    }

    /// Whether the last flute-count text failed to parse.
    pub fn flute_count_error(&self) -> (e: bool)
        ensures
            e == self.flute_count_error,
    {
        self.flute_count_error
    }

    /// Sets or clears the flute-count error flag.
    pub fn set_flute_count_error(&mut self, flute_count_error: bool)
        ensures
            *final(self) == (GlobalState { flute_count_error, ..*old(self) }),
    {
        self.flute_count_error = flute_count_error;
    }

    /// Commits a diameter text input. On parse success the value is
    /// committed and the error flag cleared; on failure the flag is set and
    /// the numeric field keeps its last valid value. The returned flag says
    /// whether the state changed; an edit that would change nothing is
    /// suppressed and returns the state unchanged with `false`.
    pub fn commit_diameter_text(&self, text: &[u8]) -> (r: (GlobalState, bool))
        ensures
            r == self.commit_diameter_spec(text@),
            self.wf() ==> r.0.wf(),
    {
        match parse_diameter(text) {
            Some(v) => {
                if v != self.diameter_um || self.diameter_error {
                    let mut s = *self;
                    s.diameter_um = v;
                    s.diameter_error = false;
                    (s, true)
                } else {
                    (*self, false)
                }
            },
            None => {
                if !self.diameter_error {
                    let mut s = *self;
                    s.diameter_error = true;
                    (s, true)
                } else {
                    (*self, false)
                }
            },
        }
    }

    /// Commits a flute-count text input, with the same commit and
    /// suppression rules as `commit_diameter_text`.
    pub fn commit_flute_count_text(&self, text: &[u8]) -> (r: (GlobalState, bool))
        ensures
            r == self.commit_flute_count_spec(text@),
            self.wf() ==> r.0.wf(),
    {
        match parse_flute_count(text) {
            Some(v) => {
                if v != self.flute_count || self.flute_count_error {
                    let mut s = *self;
                    s.flute_count = v;
                    s.flute_count_error = false;
                    (s, true)
                } else {
                    (*self, false)
                }
            },
            None => {
                if !self.flute_count_error {
                    let mut s = *self;
                    s.flute_count_error = true;
                    (s, true)
                } else {
                    (*self, false)
                }
            },
        }
    }

    /// Selects a material, suppressing the update when it is already the
    /// current one.
    pub fn select_material(&self, m: Material) -> (r: (GlobalState, bool))
        ensures
            r == self.select_material_spec(m),
            self.wf() ==> r.0.wf(),
    {
        if m != self.material {
            let mut s = *self;
            s.material = m;
            (s, true)
        } else {
            (*self, false)
        }
    }

    /// Selects a spindle speed, suppressing the update when it is already
    /// the chosen one.
    pub fn select_rpm(&self, rpm: i64) -> (r: (GlobalState, bool))
        requires
            -RPM_LIMIT <= rpm <= RPM_LIMIT,
        ensures
            r == self.select_rpm_spec(rpm),
            self.wf() ==> r.0.wf(),
    {
        if rpm != self.selected_rpm {
            let mut s = *self;
            s.selected_rpm = rpm;
            (s, true)
        } else {
            (*self, false)
        }
    }
}

impl Default for GlobalState {
    /// The initial state: soft wood, an 8 mm tool with two flutes, spindle
    /// bounds 3000 to 24000 rev/min, 13000 rev/min chosen, no errors.
    fn default() -> (s: Self)
        ensures
            s == GlobalState::default_spec(),
            s.wf(),
    {
        GlobalState {
            material: Material::WoodSoft,
            diameter_um: 8000,
            diameter_error: false,
            flute_count: 2,
            flute_count_error: false,
            min_rpm: 3000,
            max_rpm: 24000,
            selected_rpm: 13000,
        }
    }
}

/// Committing the same text twice in a row changes nothing the second
/// time: the second commit is suppressed and returns the first state
/// unchanged.
pub proof fn lemma_commit_diameter_suppressed(s: GlobalState, text: Seq<u8>)
    ensures
        ({
            let (s1, c1) = s.commit_diameter_spec(text);
            let (s2, c2) = s1.commit_diameter_spec(text);
            s2 == s1 && !c2
        }),
{
}

/// Committing the same flute-count text twice in a row changes nothing the
/// second time.
pub proof fn lemma_commit_flute_count_suppressed(s: GlobalState, text: Seq<u8>)
    ensures
        ({
            let (s1, c1) = s.commit_flute_count_spec(text);
            let (s2, c2) = s1.commit_flute_count_spec(text);
            s2 == s1 && !c2
        }),
{
}

/// Switching the material and switching back restores the state exactly,
/// and with it the spindle-speed range: under the unclamped policy a
/// material selection touches the material field alone, and the range is a
/// pure function of material and diameter.
pub proof fn lemma_select_material_round_trip(s: GlobalState, m: Material)
    ensures
        ({
            let s1 = s.select_material_spec(m).0;
            let s2 = s1.select_material_spec(s.material).0;
            s2 == s && s2.rpm_range_pair_spec() == s.rpm_range_pair_spec()
        }),
{
}

} // verus!
