//! The numeric content of a two-line element set.

use vstd::prelude::*;

verus! {

/// The numeric fields of a two-line element set, in the units of the text
/// format. Parsing the text format is outside this crate: a caller fills the
/// fields, and `Constants::from_tle` converts them to the propagator's
/// radians and radians per minute.
///
/// Every field is the bit pattern of an IEEE-754 binary64 value.
#[derive(Clone, Copy, Debug)]
pub struct Tle {
    /// Years since UTC 2000 January 1 12h00 (J2000).
    pub epoch: u64,
    /// Years since J2000 computed through the AFSPC day count since 1950;
    /// it differs from `epoch` only in rounding.
    pub epoch_afspc_compatibility_mode: u64,
    /// The drag term B*, in (earth radii)⁻¹.
    pub drag_term: u64,
    /// Inclination, in degrees.
    pub inclination: u64,
    /// Right ascension of the ascending node, in degrees.
    pub right_ascension: u64,
    /// Eccentricity.
    pub eccentricity: u64,
    /// Argument of perigee, in degrees.
    pub argument_of_perigee: u64,
    /// Mean anomaly, in degrees.
    pub mean_anomaly: u64,
    /// Kozai mean motion, in revolutions per day.
    pub mean_motion: u64,
}

} // verus!
