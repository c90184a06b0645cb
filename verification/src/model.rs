//! Gravity models and sidereal-time algorithms.
//!
//! All numeric constants are IEEE-754 binary64 bit patterns; the decimal
//! value stands in the comment beside each one.

use vstd::prelude::*;
use crate::fp::{fadd, fdiv, fmul, frem_euclid, ffloor, fsub};

verus! {

/// π
pub const PI: u64 = 0x400921FB54442D18;

/// 2 π
pub const TWO_PI: u64 = 0x401921FB54442D18;

/// The earth rotation rate θ̇ = 4.37526908801129966 × 10⁻³ rad.min⁻¹
pub const SIDEREAL_SPEED: u64 = 0x3F71EBCD5A4EAD57;

/// Gravity constants of an earth model.
///
/// `ae` is the equatorial radius in kilometers, `ke` is √GM expressed in
/// (earth radii)³ᐟ² per minute, and `j2`, `j3`, `j4` are the un-normalised
/// second, third and fourth zonal harmonics.
#[derive(Clone, Copy, Debug)]
pub struct Geopotential {
    pub ae: u64,
    pub ke: u64,
    pub j2: u64,
    pub j3: u64,
    pub j4: u64,
}

/// The WGS72 gravity model.
pub open spec fn spec_wgs72() -> Geopotential {
    Geopotential {
        ae: 0x40B8EA228F5C28F6,  // 6378.135
        ke: 0x3FB309B5D0B2444C,  // 0.07436691613317342
        j2: 0x3F51BCD2141AA559,  // 0.001082616
        j3: 0xBEC54C0D8ECFB746,  // -0.00000253881
        j4: 0xBEBBC856452EFCCE,  // -0.00000165597
    }
}

/// The WGS72 gravity model.
#[verifier::when_used_as_spec(spec_wgs72)]
pub fn wgs72() -> (g: Geopotential)
    ensures
        g == spec_wgs72(),
{
    Geopotential {
        ae: 0x40B8EA228F5C28F6,  // 6378.135
        ke: 0x3FB309B5D0B2444C,  // 0.07436691613317342
        j2: 0x3F51BCD2141AA559,  // 0.001082616
        j3: 0xBEC54C0D8ECFB746,  // -0.00000253881
        j4: 0xBEBBC856452EFCCE,  // -0.00000165597
    }
}

/// The WGS84 gravity model.
pub open spec fn spec_wgs84() -> Geopotential {
    Geopotential {
        ae: 0x40B8EA23126E978D,  // 6378.137
        ke: 0x3FB309B4C2441C81,  // 0.07436685316871385
        j2: 0x3F51BCE1196286D1,  // 0.00108262998905
        j3: 0xBEC53DC1DDCBB041,  // -0.00000253215306
        j4: 0xBEBB07239C018304,  // -0.00000161098761
    }
}

/// The WGS84 gravity model.
#[verifier::when_used_as_spec(spec_wgs84)]
pub fn wgs84() -> (g: Geopotential)
    ensures
        g == spec_wgs84(),
{
    Geopotential {
        ae: 0x40B8EA23126E978D,  // 6378.137
        ke: 0x3FB309B4C2441C81,  // 0.07436685316871385
        j2: 0x3F51BCE1196286D1,  // 0.00108262998905
        j3: 0xBEC53DC1DDCBB041,  // -0.00000253215306
        j4: 0xBEBB07239C018304,  // -0.00000161098761
    }
}

/// The IAU GMST 1982 sidereal time of an epoch given in years since UTC
/// 2000 January 1 12h00 (J2000), in radians.
///
/// θ = (67310.54841 + c (3164400184.812866 + c (0.093104 − c 6.2 × 10⁻⁶)))
///     (π / 180) / 240 mod 2π, with c = t₀ / 100 the Julian centuries.
pub open spec fn spec_iau_epoch_to_sidereal_time(epoch: u64) -> u64 {
    let c2000 = fdiv(epoch, 0x4059000000000000);  // 100.0
    frem_euclid(
        fdiv(
            fmul(
                fadd(
                    0x40F06EE8C649906D,  // 67310.54841
                    fmul(
                        c2000,
                        fadd(
                            0x41E7939D471A0300,  // 876600 × 3600 + 8640184.812866
                            fmul(
                                c2000,
                                fsub(
                                    0x3FB7D5A9EB2074EB,  // 0.093104
                                    fmul(c2000, 0x3EDA013305E6C9CE),  // 6.2e-6
                                ),
                            ),
                        ),
                    ),
                ),
                0x3F91DF46A2529D39,  // π / 180
            ),
            0x406E000000000000,  // 240.0
        ),
        TWO_PI,
    )
}

/// The IAU GMST 1982 sidereal time of an epoch given in years since UTC
/// 2000 January 1 12h00 (J2000), in radians.
#[verifier::when_used_as_spec(spec_iau_epoch_to_sidereal_time)]
pub fn iau_epoch_to_sidereal_time(epoch: u64) -> (theta: u64)
    ensures
        theta == spec_iau_epoch_to_sidereal_time(epoch),
{
    let c2000 = fdiv(epoch, 0x4059000000000000);  // 100.0
    frem_euclid(
        fdiv(
            fmul(
                fadd(
                    0x40F06EE8C649906D,  // 67310.54841
                    fmul(
                        c2000,
                        fadd(
                            0x41E7939D471A0300,  // 876600 × 3600 + 8640184.812866
                            fmul(
                                c2000,
                                fsub(
                                    0x3FB7D5A9EB2074EB,  // 0.093104
                                    fmul(c2000, 0x3EDA013305E6C9CE),  // 6.2e-6
                                ),
                            ),
                        ),
                    ),
                ),
                0x3F91DF46A2529D39,  // π / 180
            ),
            0x406E000000000000,  // 240.0
        ),
        TWO_PI,
    )
}

/// The AFSPC sidereal time of an epoch given in years since UTC
/// 2000 January 1 12h00 (J2000), in radians.
///
/// The days since UTC 1970 January 0 0h00 are split into an integral and a
/// fractional part, and
/// θ = 1.7321343856509374 + 1.72027916940703639 × 10⁻² d₇₀
///     + (1.72027916940703639 × 10⁻² + 2π) f₇₀
///     + t₇₀² 5.07551419432269442 × 10⁻¹⁵ mod 2π.
pub open spec fn spec_afspc_epoch_to_sidereal_time(epoch: u64) -> u64 {
    let t70 = fadd(
        fmul(0x4076D40000000000, epoch),  // 365.25
        0x40C5674000000000,  // 10958.5 days from 1970 January 0 to J2000
    );
    let d70 = ffloor(fadd(t70, 0x3E45798EE2308C3A));  // 1e-8
    let f70 = fsub(t70, d70);
    frem_euclid(
        fadd(
            fadd(
                fadd(
                    0x3FFBB6D28BAA5D81,  // 1.7321343856509374
                    fmul(0x3F919D9BCEE75AE3, d70),  // 1.72027916940703639e-2
                ),
                fmul(0x40193398F0131473, f70),  // 1.72027916940703639e-2 + 2π
            ),
            fmul(fmul(t70, t70), 0x3CF6DBAB61D5655E),  // 5.07551419432269442e-15
        ),
        TWO_PI,
    )
}

/// The AFSPC sidereal time of an epoch given in years since UTC
/// 2000 January 1 12h00 (J2000), in radians.
#[verifier::when_used_as_spec(spec_afspc_epoch_to_sidereal_time)]
pub fn afspc_epoch_to_sidereal_time(epoch: u64) -> (theta: u64)
    ensures
        theta == spec_afspc_epoch_to_sidereal_time(epoch),
{
    let t70 = fadd(
        fmul(0x4076D40000000000, epoch),  // 365.25
        0x40C5674000000000,  // 10958.5 days from 1970 January 0 to J2000
    );
    let d70 = ffloor(fadd(t70, 0x3E45798EE2308C3A));  // 1e-8
    let f70 = fsub(t70, d70);
    frem_euclid(
        fadd(
            fadd(
                fadd(
                    0x3FFBB6D28BAA5D81,  // 1.7321343856509374
                    fmul(0x3F919D9BCEE75AE3, d70),  // 1.72027916940703639e-2
                ),
                fmul(0x40193398F0131473, f70),  // 1.72027916940703639e-2 + 2π
            ),
            fmul(fmul(t70, t70), 0x3CF6DBAB61D5655E),  // 5.07551419432269442e-15
        ),
        TWO_PI,
    )
}

/// The two sidereal-time algorithms the propagator can be built with.
///
/// The theory is stated against an arbitrary epoch-to-sidereal-time
/// function; this library closes that parameter over the two algorithms it
/// defines, so that every contract can name the angle exactly.
#[derive(Clone, Copy, PartialEq, Eq, Structural, Debug)]
pub enum EpochToSiderealTime {
    /// `iau_epoch_to_sidereal_time`
    Iau,
    /// `afspc_epoch_to_sidereal_time`
    Afspc,
}

/// The sidereal angle of an epoch under the chosen algorithm, in radians.
pub open spec fn spec_epoch_to_sidereal_time(which: EpochToSiderealTime, epoch: u64) -> u64 {
    match which {
        EpochToSiderealTime::Iau => spec_iau_epoch_to_sidereal_time(epoch),
        EpochToSiderealTime::Afspc => spec_afspc_epoch_to_sidereal_time(epoch),
    }
}

/// The sidereal angle of an epoch under the chosen algorithm, in radians.
#[verifier::when_used_as_spec(spec_epoch_to_sidereal_time)]
pub fn epoch_to_sidereal_time(which: EpochToSiderealTime, epoch: u64) -> (theta: u64)
    ensures
        theta == spec_epoch_to_sidereal_time(which, epoch),
{
    match which {
        EpochToSiderealTime::Iau => iau_epoch_to_sidereal_time(epoch),
        EpochToSiderealTime::Afspc => afspc_epoch_to_sidereal_time(epoch),
    }
}

} // verus!
