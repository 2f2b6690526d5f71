//! Fixed-point unit conventions and global bounds.
//!
//! The engine works entirely in integers:
//!
//! * tool diameters are measured in micrometres (um), so `8 mm = 8000`;
//! * feed per tooth is measured in nanometres (nm), so `0.005 mm = 5000`;
//! * cutting speeds are measured in metres per minute (m/min);
//! * spindle speeds are measured in revolutions per minute (rpm);
//! * a readout scaled by 1000 for extra resolution says so in its own
//!   documentation (the cutting-speed readout, in thousandths of m/min).
//!
//! The circle constant is approximated by the rational `355 / 113`, which is
//! accurate to about one part in ten million — far below the resolution of
//! any of the readouts.

use vstd::prelude::*;

verus! {

/// Largest tool-diameter magnitude the state accepts, in um (100 m).
/// Text input whose value lies outside this range is treated as unparsable.
pub const DIAMETER_LIMIT_UM: i64 = 100_000_000;

/// Largest spindle-speed magnitude the state accepts, in rpm.
pub const RPM_LIMIT: i64 = 1_000_000;

/// Upper bound on the tabulated diameters of the feed catalog, in um.
pub const DIAM_TABLE_MAX_UM: i64 = 20_000;

/// Upper bound on the tabulated feeds per tooth of the catalog, in nm.
pub const FEED_TABLE_MAX_NM: i64 = 200_000;

/// Upper bound on the catalog's cutting speeds, in m/min.
pub const CUT_SPEED_MAX_M_PER_MIN: i64 = 1_000;

/// Bound on the magnitude of an interpolated feed per tooth, in nm.
/// It follows from the table bounds above; see `interp`.
pub const FEED_RESULT_BOUND_NM: i64 = 10_000_000_000;

/// Numerator of the rational approximation of the circle constant.
pub const PI_NUM: i64 = 355;

/// Denominator of the rational approximation of the circle constant.
pub const PI_DEN: i64 = 113;

} // verus!
