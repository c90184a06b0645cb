//! Core of an SGP4/SDP4 satellite orbit propagator, verified with Verus.
//!
//! Given a satellite's mean orbital elements at an epoch and a time offset,
//! the propagator computes the satellite's position and velocity in the
//! True Equator, Mean Equinox frame, following the Simplified General
//! Perturbations model: a near-earth method for orbital periods under 225
//! minutes and a deep-space method with lunisolar perturbations and tesseral
//! resonances for the rest.
//!
//! Verus has no theory of floating-point arithmetic, so every floating-point
//! quantity is carried as the `u64` bit pattern of an IEEE-754 binary64
//! value, and every arithmetic operation is an outside crate's function of
//! the operand bits alone (see the `fp` module). On that model the whole
//! pipeline is verified: every public operation's contract pins its result
//! exactly, as a composition of those operations.

use vstd::prelude::*;

mod fp;
pub mod deep_space;
pub mod model;
pub mod near_earth;
pub mod propagator;
pub mod third_body;
pub mod tle;

pub use propagator::Constants;
pub use propagator::Error;
pub use propagator::Orbit;
pub use propagator::Prediction;

use crate::fp::{
    fabs, fadd, fatan2, fcos, fdiv, fle, flt, fmul, fneg, fpow, frem, frem_euclid, fsin, fsqrt,
    fsub,
};

verus! {

/// 0.0
pub const F0: u64 = 0x0000000000000000;

/// 1.0
pub const F1: u64 = 0x3FF0000000000000;

/// 2.0
pub const F2: u64 = 0x4000000000000000;

/// 3.0
pub const F3: u64 = 0x4008000000000000;

/// -3.0
pub const FN3: u64 = 0xC008000000000000;

/// 4.0
pub const F4: u64 = 0x4010000000000000;

/// 5.0
pub const F5: u64 = 0x4014000000000000;

/// 7.0
pub const F7: u64 = 0x401C000000000000;

/// 8.0
pub const F8: u64 = 0x4020000000000000;

/// 13.0
pub const F13: u64 = 0x402A000000000000;

/// 19.0
pub const F19: u64 = 0x4033000000000000;

/// 20.0
pub const F20: u64 = 0x4034000000000000;

/// 36.0
pub const F36: u64 = 0x4042000000000000;

/// 49.0
pub const F49: u64 = 0x4048800000000000;

/// 60.0
pub const F60: u64 = 0x404E000000000000;

/// 78.0
pub const F78: u64 = 0x4053800000000000;

/// 81.0
pub const F81: u64 = 0x4054400000000000;

/// 98.0
pub const F98: u64 = 0x4058800000000000;

/// 114.0
pub const F114: u64 = 0x405C800000000000;

/// 120.0
pub const F120: u64 = 0x405E000000000000;

/// 134.0
pub const F134: u64 = 0x4060C00000000000;

/// 137.0
pub const F137: u64 = 0x4061200000000000;

/// 156.0
pub const F156: u64 = 0x4063800000000000;

/// 225.0
pub const F225: u64 = 0x406C200000000000;

/// 395.0
pub const F395: u64 = 0x4078B00000000000;

/// 1/3
pub const F_THIRD: u64 = 0x3FD5555555555555;

/// 2/3
pub const TWO_THIRDS: u64 = 0x3FE5555555555555;

/// 0.0625
pub const F0_0625: u64 = 0x3FB0000000000000;

/// 0.25
pub const F0_25: u64 = 0x3FD0000000000000;

/// 0.375
pub const F0_375: u64 = 0x3FD8000000000000;

/// -0.46875
pub const FN0_46875: u64 = 0xBFDE000000000000;

/// 0.5
pub const F0_5: u64 = 0x3FE0000000000000;

/// -0.5
pub const FN0_5: u64 = 0xBFE0000000000000;

/// 0.75
pub const F0_75: u64 = 0x3FE8000000000000;

/// 0.95, the clamp of one Kepler correction
pub const F0_95: u64 = 0x3FEE666666666666;

/// -0.95
pub const FN0_95: u64 = 0xBFEE666666666666;

/// 1.5
pub const F1_5: u64 = 0x3FF8000000000000;

/// 3.5
pub const F3_5: u64 = 0x400C000000000000;

/// 10⁻¹², the convergence threshold of the Kepler iteration
pub const F1EM12: u64 = 0x3D719799812DEA11;

/// π / 180
pub const RADIANS_PER_DEGREE: u64 = 0x3F91DF46A2529D39;

/// π / 720: radians per minute in one revolution per day
pub const RADIANS_PER_MINUTE_PER_REV_PER_DAY: u64 = 0x3F71DF46A2529D39;

impl propagator::Orbit {
    /// The orbit obtained by converting a Kozai mean motion (radians per
    /// minute) to a Brouwer mean motion; the other elements are carried
    /// over unchanged.
    pub open spec fn spec_from_kozai_elements(
        geopotential: model::Geopotential,
        inclination: u64,
        right_ascension: u64,
        eccentricity: u64,
        argument_of_perigee: u64,
        mean_anomaly: u64,
        kozai_mean_motion: u64,
    ) -> Result<propagator::Orbit, propagator::Error> {
        if fle(kozai_mean_motion, F0) {
            Err(propagator::Error::KozaiMeanMotionNotPositive)
        } else {
            // a₁ = (kₑ / n₀)²ᐟ³
            let a1 = fpow(fdiv(geopotential.ke, kozai_mean_motion), TWO_THIRDS);
            // p₂ = ³/₄ J₂ (3 cos²I₀ − 1) / (1 − e₀²)³ᐟ²
            let p2 = fdiv(
                fmul(
                    fmul(F0_75, geopotential.j2),
                    fsub(fmul(F3, fmul(fcos(inclination), fcos(inclination))), F1),
                ),
                fpow(fsub(F1, fmul(eccentricity, eccentricity)), F1_5),
            );
            // 𝛿₁ = p₂ / a₁²
            let d1 = fdiv(p2, fmul(a1, a1));
            // 𝛿₀ = p₂ / (a₁ (1 − 𝛿₁² − 𝛿₁ (¹/₃ + 134 𝛿₁² / 81)))²
            let d0_base = fmul(
                a1,
                fsub(
                    fsub(F1, fmul(d1, d1)),
                    fmul(d1, fadd(F_THIRD, fdiv(fmul(F134, fmul(d1, d1)), F81))),
                ),
            );
            let d0 = fdiv(p2, fmul(d0_base, d0_base));
            // n₀" = n₀ / (1 + 𝛿₀)
            let mean_motion = fdiv(kozai_mean_motion, fadd(F1, d0));
            if fle(mean_motion, F0) {
                Err(propagator::Error::BrouwerMeanMotionNotPositive)
            } else {
                Ok(
                    propagator::Orbit {
                        inclination: inclination,
                        right_ascension: right_ascension,
                        eccentricity: eccentricity,
                        argument_of_perigee: argument_of_perigee,
                        mean_anomaly: mean_anomaly,
                        mean_motion: mean_motion,
                    },
                )
            }
        }
    }

    /// Converts the Kozai mean motion `kozai_mean_motion` (radians per
    /// minute) to a Brouwer mean motion and builds the orbit; the other
    /// elements are carried over unchanged.
    ///
    /// Fails iff the Kozai mean motion, or the Brouwer mean motion derived
    /// from it, is not positive.
    pub fn from_kozai_elements(
        geopotential: &model::Geopotential,
        inclination: u64,
        right_ascension: u64,
        eccentricity: u64,
        argument_of_perigee: u64,
        mean_anomaly: u64,
        kozai_mean_motion: u64,
    ) -> (r: Result<propagator::Orbit, propagator::Error>)
        ensures
            r == propagator::Orbit::spec_from_kozai_elements(
                *geopotential,
                inclination,
                right_ascension,
                eccentricity,
                argument_of_perigee,
                mean_anomaly,
                kozai_mean_motion,
            ),
            fle(kozai_mean_motion, F0) ==> r == Err::<propagator::Orbit, propagator::Error>(
                propagator::Error::KozaiMeanMotionNotPositive,
            ),
    {
        if fle(kozai_mean_motion, F0) {
            Err(propagator::Error::KozaiMeanMotionNotPositive)
        } else {
            // a₁ = (kₑ / n₀)²ᐟ³
            let a1 = fpow(fdiv(geopotential.ke, kozai_mean_motion), TWO_THIRDS);
            // p₂ = ³/₄ J₂ (3 cos²I₀ − 1) / (1 − e₀²)³ᐟ²
            let p2 = fdiv(
                fmul(
                    fmul(F0_75, geopotential.j2),
                    fsub(fmul(F3, fmul(fcos(inclination), fcos(inclination))), F1),
                ),
                fpow(fsub(F1, fmul(eccentricity, eccentricity)), F1_5),
            );
            // 𝛿₁ = p₂ / a₁²
            let d1 = fdiv(p2, fmul(a1, a1));
            // 𝛿₀ = p₂ / (a₁ (1 − 𝛿₁² − 𝛿₁ (¹/₃ + 134 𝛿₁² / 81)))²
            let d0_base = fmul(
                a1,
                fsub(
                    fsub(F1, fmul(d1, d1)),
                    fmul(d1, fadd(F_THIRD, fdiv(fmul(F134, fmul(d1, d1)), F81))),
                ),
            );
            let d0 = fdiv(p2, fmul(d0_base, d0_base));
            // n₀" = n₀ / (1 + 𝛿₀)
            let mean_motion = fdiv(kozai_mean_motion, fadd(F1, d0));
            if fle(mean_motion, F0) {
                Err(propagator::Error::BrouwerMeanMotionNotPositive)
            } else {
                Ok(
                    propagator::Orbit {
                        inclination: inclination,
                        right_ascension: right_ascension,
                        eccentricity: eccentricity,
                        argument_of_perigee: argument_of_perigee,
                        mean_anomaly: mean_anomaly,
                        mean_motion: mean_motion,
                    },
                )
            }
        }
    }
}

/// The Newton iteration for E + ω: at most `fuel` clamped corrections from
/// the start value `ew`, stopping early once a correction falls below 10⁻¹²
/// in magnitude.
pub open spec fn spec_kepler(p35: u64, axn: u64, ayn: u64, ew: u64, fuel: nat) -> u64
    decreases fuel,
{
    if fuel == 0 {
        ew
    } else {
        // Δ(E + ω) = (p₃₅ − aᵧₙ cos(E + ω) + aₓₙ sin(E + ω) − (E + ω))
        //            / (1 − cos(E + ω) aₓₙ − sin(E + ω) aᵧₙ)
        let delta = fdiv(
            fsub(fadd(fsub(p35, fmul(ayn, fcos(ew))), fmul(axn, fsin(ew))), ew),
            fsub(fsub(F1, fmul(fcos(ew), axn)), fmul(fsin(ew), ayn)),
        );
        if flt(fabs(delta), F1EM12) {
            ew
        } else {
            spec_kepler(
                p35,
                axn,
                ayn,
                fadd(
                    ew,
                    if flt(delta, FN0_95) {
                        FN0_95
                    } else if flt(F0_95, delta) {
                        F0_95
                    } else {
                        delta
                    },
                ),
                (fuel - 1) as nat,
            )
        }
    }
}

/// The Newton iteration for E + ω: at most ten clamped corrections from the
/// start value p₃₅, stopping early once a correction falls below 10⁻¹² in
/// magnitude.
pub(crate) fn kepler(p35: u64, axn: u64, ayn: u64) -> (r: u64)
    ensures
        r == spec_kepler(p35, axn, ayn, p35, 10),
{
    let mut ew = p35;
    let mut i: u64 = 0;
    while i < 10
        invariant_except_break
            i <= 10,
            spec_kepler(p35, axn, ayn, ew, (10 - i) as nat) == spec_kepler(p35, axn, ayn, p35, 10),
        ensures
            ew == spec_kepler(p35, axn, ayn, p35, 10),
        decreases 10 - i,
    {
        // Δ(E + ω) = (p₃₅ − aᵧₙ cos(E + ω) + aₓₙ sin(E + ω) − (E + ω))
        //            / (1 − cos(E + ω) aₓₙ − sin(E + ω) aᵧₙ)
        let delta = fdiv(
            fsub(fadd(fsub(p35, fmul(ayn, fcos(ew))), fmul(axn, fsin(ew))), ew),
            fsub(fsub(F1, fmul(fcos(ew), axn)), fmul(fsin(ew), ayn)),
        );
        if flt(fabs(delta), F1EM12) {
            break;
        }
        ew = fadd(
            ew,
            if flt(delta, FN0_95) {
                FN0_95
            } else if flt(F0_95, delta) {
                F0_95
            } else {
                delta
            },
        );
        i = i + 1;
    }
    ew
}

/// The Kepler solution, the short-period periodic corrections and the frame
/// transformation: the state vector at the orbital elements of an
/// evaluation time.
pub open spec fn spec_predict(
    geopotential: model::Geopotential,
    elements: propagator::OrbitalElements,
) -> Result<propagator::Prediction, propagator::Error> {
    // p₄₅ = 1 / (a (1 − e²))
    let p45 = fdiv(
        F1,
        fmul(
            elements.a,
            fsub(F1, fmul(elements.orbit.eccentricity, elements.orbit.eccentricity)),
        ),
    );
    // aₓₙ = e cos ω; aᵧₙ = e sin ω + p₄₅ p₃₀
    let axn = fmul(elements.orbit.eccentricity, fcos(elements.orbit.argument_of_perigee));
    let ayn = fadd(
        fmul(elements.orbit.eccentricity, fsin(elements.orbit.argument_of_perigee)),
        fmul(p45, elements.p30),
    );
    // p₃₅ = 𝕃 + ω + p₄₅ p₃₃ aₓₙ rem 2π
    let p35 = frem(
        fadd(
            fadd(elements.l, elements.orbit.argument_of_perigee),
            fmul(fmul(p45, elements.p33), axn),
        ),
        model::TWO_PI,
    );
    // E + ω by the clamped Newton iteration
    let ew = spec_kepler(p35, axn, ayn, p35, 10);
    // p₃₆ = aₓₙ² + aᵧₙ²; pₗ = a (1 − p₃₆)
    let p36 = fadd(fmul(axn, axn), fmul(ayn, ayn));
    let pl = fmul(elements.a, fsub(F1, p36));
    if flt(pl, F0) {
        Err(propagator::Error::NegativeSemiLatusRectum)
    } else {
        // p₃₇ = aₓₙ cos(E + ω) + aᵧₙ sin(E + ω)
        let p37 = fadd(fmul(axn, fcos(ew)), fmul(ayn, fsin(ew)));
        // p₃₈ = aₓₙ sin(E + ω) − aᵧₙ cos(E + ω)
        let p38 = fsub(fmul(axn, fsin(ew)), fmul(ayn, fcos(ew)));
        // r = a (1 − p₃₇); ṙ = a¹ᐟ² p₃₈ / r
        let radius = fmul(elements.a, fsub(F1, p37));
        let radius_dot = fdiv(fmul(fsqrt(elements.a), p38), radius);
        // β = (1 − p₃₆)¹ᐟ²; p₃₉ = p₃₈ / (1 + β)
        let b = fsqrt(fsub(F1, p36));
        let p39 = fdiv(p38, fadd(F1, b));
        // p₄₀ = a / r (sin(E + ω) − aᵧₙ − aₓₙ p₃₉)
        let p40 = fmul(
            fdiv(elements.a, radius),
            fsub(fsub(fsin(ew), ayn), fmul(axn, p39)),
        );
        // p₄₁ = a / r (cos(E + ω) − aₓₙ + aᵧₙ p₃₉)
        let p41 = fmul(
            fdiv(elements.a, radius),
            fadd(fsub(fcos(ew), axn), fmul(ayn, p39)),
        );
        // u = tan⁻¹(p₄₀ / p₄₁); p₄₂ = 2 p₄₁ p₄₀; p₄₃ = 1 − 2 p₄₀²
        let u = fatan2(p40, p41);
        let p42 = fmul(fmul(F2, p41), p40);
        let p43 = fsub(F1, fmul(F2, fmul(p40, p40)));
        // p₄₄ = (¹/₂ J₂ / pₗ) / pₗ
        let p44 = fdiv(fdiv(fmul(F0_5, geopotential.j2), pl), pl);
        // rₖ = r (1 − ³/₂ p₄₄ β p₃₄) + ¹/₂ (¹/₂ J₂ / pₗ) p₃₁ p₄₃
        let rk = fadd(
            fmul(radius, fsub(F1, fmul(fmul(fmul(F1_5, p44), b), elements.p34))),
            fmul(
                fmul(fmul(F0_5, fdiv(fmul(F0_5, geopotential.j2), pl)), elements.p31),
                p43,
            ),
        );
        // uₖ = u − ¹/₄ p₄₄ p₃₂ p₄₂
        let uk = fsub(u, fmul(fmul(fmul(F0_25, p44), elements.p32), p42));
        // Ωₖ = Ω + ³/₂ p₄₄ cos I p₄₂
        let right_ascension_k = fadd(
            elements.orbit.right_ascension,
            fmul(fmul(fmul(F1_5, p44), fcos(elements.orbit.inclination)), p42),
        );
        // Iₖ = I + ³/₂ p₄₄ cos I sin I p₄₃
        let inclination_k = fadd(
            elements.orbit.inclination,
            fmul(
                fmul(
                    fmul(fmul(F1_5, p44), fcos(elements.orbit.inclination)),
                    fsin(elements.orbit.inclination),
                ),
                p43,
            ),
        );
        // ṙₖ = ṙ − n (¹/₂ J₂ / pₗ) p₃₁ p₄₂ / kₑ
        let rk_dot = fsub(
            radius_dot,
            fdiv(
                fmul(
                    fmul(
                        fmul(
                            elements.orbit.mean_motion,
                            fdiv(fmul(F0_5, geopotential.j2), pl),
                        ),
                        elements.p31,
                    ),
                    p42,
                ),
                geopotential.ke,
            ),
        );
        // rḟₖ = pₗ¹ᐟ² / r + n (¹/₂ J₂ / pₗ) (p₃₁ p₄₃ + ³/₂ p₃₄) / kₑ
        let rfk_dot = fadd(
            fdiv(fsqrt(pl), radius),
            fdiv(
                fmul(
                    fmul(
                        elements.orbit.mean_motion,
                        fdiv(fmul(F0_5, geopotential.j2), pl),
                    ),
                    fadd(fmul(elements.p31, p43), fmul(F1_5, elements.p34)),
                ),
                geopotential.ke,
            ),
        );
        // u₀ = − sin Ωₖ cos Iₖ sin uₖ + cos Ωₖ cos uₖ
        let u0 = fadd(
            fmul(fmul(fneg(fsin(right_ascension_k)), fcos(inclination_k)), fsin(uk)),
            fmul(fcos(right_ascension_k), fcos(uk)),
        );
        // u₁ = cos Ωₖ cos Iₖ sin uₖ + sin Ωₖ cos uₖ
        let u1 = fadd(
            fmul(fmul(fcos(right_ascension_k), fcos(inclination_k)), fsin(uk)),
            fmul(fsin(right_ascension_k), fcos(uk)),
        );
        // u₂ = sin Iₖ sin uₖ
        let u2 = fmul(fsin(inclination_k), fsin(uk));
        // velocities scale with aₑ kₑ / 60
        let kmps = fdiv(fmul(geopotential.ae, geopotential.ke), F60);
        Ok(
            propagator::Prediction {
                position: [
                    fmul(fmul(rk, u0), geopotential.ae),
                    fmul(fmul(rk, u1), geopotential.ae),
                    fmul(fmul(rk, u2), geopotential.ae),
                ],
                velocity: [
                    // ṙ₀ = (ṙₖ u₀ + rḟₖ (− sin Ωₖ cos Iₖ cos uₖ − cos Ωₖ sin uₖ)) aₑ kₑ / 60
                    fmul(
                        fadd(
                            fmul(rk_dot, u0),
                            fmul(
                                rfk_dot,
                                fsub(
                                    fmul(
                                        fmul(fneg(fsin(right_ascension_k)), fcos(inclination_k)),
                                        fcos(uk),
                                    ),
                                    fmul(fcos(right_ascension_k), fsin(uk)),
                                ),
                            ),
                        ),
                        kmps,
                    ),
                    // ṙ₁ = (ṙₖ u₁ + rḟₖ (cos Ωₖ cos Iₖ cos uₖ − sin Ωₖ sin uₖ)) aₑ kₑ / 60
                    fmul(
                        fadd(
                            fmul(rk_dot, u1),
                            fmul(
                                rfk_dot,
                                fsub(
                                    fmul(
                                        fmul(fcos(right_ascension_k), fcos(inclination_k)),
                                        fcos(uk),
                                    ),
                                    fmul(fsin(right_ascension_k), fsin(uk)),
                                ),
                            ),
                        ),
                        kmps,
                    ),
                    // ṙ₂ = (ṙₖ u₂ + rḟₖ sin Iₖ cos uₖ) aₑ kₑ / 60
                    fmul(
                        fadd(
                            fmul(rk_dot, u2),
                            fmul(rfk_dot, fmul(fsin(inclination_k), fcos(uk))),
                        ),
                        kmps,
                    ),
                ],
            },
        )
    }
}

/// The Kepler solution, the short-period periodic corrections and the frame
/// transformation: the state vector at the orbital elements of an
/// evaluation time.
pub(crate) fn predict(
    geopotential: &model::Geopotential,
    elements: &propagator::OrbitalElements,
) -> (r: Result<propagator::Prediction, propagator::Error>)
    ensures
        r == spec_predict(*geopotential, *elements),
{
    // p₄₅ = 1 / (a (1 − e²))
    let p45 = fdiv(
        F1,
        fmul(
            elements.a,
            fsub(F1, fmul(elements.orbit.eccentricity, elements.orbit.eccentricity)),
        ),
    );
    // aₓₙ = e cos ω; aᵧₙ = e sin ω + p₄₅ p₃₀
    let axn = fmul(elements.orbit.eccentricity, fcos(elements.orbit.argument_of_perigee));
    let ayn = fadd(
        fmul(elements.orbit.eccentricity, fsin(elements.orbit.argument_of_perigee)),
        fmul(p45, elements.p30),
    );
    // p₃₅ = 𝕃 + ω + p₄₅ p₃₃ aₓₙ rem 2π
    let p35 = frem(
        fadd(
            fadd(elements.l, elements.orbit.argument_of_perigee),
            fmul(fmul(p45, elements.p33), axn),
        ),
        model::TWO_PI,
    );
    // E + ω by the clamped Newton iteration
    let ew = kepler(p35, axn, ayn);
    // p₃₆ = aₓₙ² + aᵧₙ²; pₗ = a (1 − p₃₆)
    let p36 = fadd(fmul(axn, axn), fmul(ayn, ayn));
    let pl = fmul(elements.a, fsub(F1, p36));
    if flt(pl, F0) {
        Err(propagator::Error::NegativeSemiLatusRectum)
    } else {
        // p₃₇ = aₓₙ cos(E + ω) + aᵧₙ sin(E + ω)
        let p37 = fadd(fmul(axn, fcos(ew)), fmul(ayn, fsin(ew)));
        // p₃₈ = aₓₙ sin(E + ω) − aᵧₙ cos(E + ω)
        let p38 = fsub(fmul(axn, fsin(ew)), fmul(ayn, fcos(ew)));
        // r = a (1 − p₃₇); ṙ = a¹ᐟ² p₃₈ / r
        let radius = fmul(elements.a, fsub(F1, p37));
        let radius_dot = fdiv(fmul(fsqrt(elements.a), p38), radius);
        // β = (1 − p₃₆)¹ᐟ²; p₃₉ = p₃₈ / (1 + β)
        let b = fsqrt(fsub(F1, p36));
        let p39 = fdiv(p38, fadd(F1, b));
        // p₄₀ = a / r (sin(E + ω) − aᵧₙ − aₓₙ p₃₉)
        let p40 = fmul(
            fdiv(elements.a, radius),
            fsub(fsub(fsin(ew), ayn), fmul(axn, p39)),
        );
        // p₄₁ = a / r (cos(E + ω) − aₓₙ + aᵧₙ p₃₉)
        let p41 = fmul(
            fdiv(elements.a, radius),
            fadd(fsub(fcos(ew), axn), fmul(ayn, p39)),
        );
        // u = tan⁻¹(p₄₀ / p₄₁); p₄₂ = 2 p₄₁ p₄₀; p₄₃ = 1 − 2 p₄₀²
        let u = fatan2(p40, p41);
        let p42 = fmul(fmul(F2, p41), p40);
        let p43 = fsub(F1, fmul(F2, fmul(p40, p40)));
        // p₄₄ = (¹/₂ J₂ / pₗ) / pₗ
        let p44 = fdiv(fdiv(fmul(F0_5, geopotential.j2), pl), pl);
        // rₖ = r (1 − ³/₂ p₄₄ β p₃₄) + ¹/₂ (¹/₂ J₂ / pₗ) p₃₁ p₄₃
        let rk = fadd(
            fmul(radius, fsub(F1, fmul(fmul(fmul(F1_5, p44), b), elements.p34))),
            fmul(
                fmul(fmul(F0_5, fdiv(fmul(F0_5, geopotential.j2), pl)), elements.p31),
                p43,
            ),
        );
        // uₖ = u − ¹/₄ p₄₄ p₃₂ p₄₂
        let uk = fsub(u, fmul(fmul(fmul(F0_25, p44), elements.p32), p42));
        // Ωₖ = Ω + ³/₂ p₄₄ cos I p₄₂
        let right_ascension_k = fadd(
            elements.orbit.right_ascension,
            fmul(fmul(fmul(F1_5, p44), fcos(elements.orbit.inclination)), p42),
        );
        // Iₖ = I + ³/₂ p₄₄ cos I sin I p₄₃
        let inclination_k = fadd(
            elements.orbit.inclination,
            fmul(
                fmul(
                    fmul(fmul(F1_5, p44), fcos(elements.orbit.inclination)),
                    fsin(elements.orbit.inclination),
                ),
                p43,
            ),
        );
        // ṙₖ = ṙ − n (¹/₂ J₂ / pₗ) p₃₁ p₄₂ / kₑ
        let rk_dot = fsub(
            radius_dot,
            fdiv(
                fmul(
                    fmul(
                        fmul(
                            elements.orbit.mean_motion,
                            fdiv(fmul(F0_5, geopotential.j2), pl),
                        ),
                        elements.p31,
                    ),
                    p42,
                ),
                geopotential.ke,
            ),
        );
        // rḟₖ = pₗ¹ᐟ² / r + n (¹/₂ J₂ / pₗ) (p₃₁ p₄₃ + ³/₂ p₃₄) / kₑ
        let rfk_dot = fadd(
            fdiv(fsqrt(pl), radius),
            fdiv(
                fmul(
                    fmul(
                        elements.orbit.mean_motion,
                        fdiv(fmul(F0_5, geopotential.j2), pl),
                    ),
                    fadd(fmul(elements.p31, p43), fmul(F1_5, elements.p34)),
                ),
                geopotential.ke,
            ),
        );
        // u₀ = − sin Ωₖ cos Iₖ sin uₖ + cos Ωₖ cos uₖ
        let u0 = fadd(
            fmul(fmul(fneg(fsin(right_ascension_k)), fcos(inclination_k)), fsin(uk)),
            fmul(fcos(right_ascension_k), fcos(uk)),
        );
        // u₁ = cos Ωₖ cos Iₖ sin uₖ + sin Ωₖ cos uₖ
        let u1 = fadd(
            fmul(fmul(fcos(right_ascension_k), fcos(inclination_k)), fsin(uk)),
            fmul(fsin(right_ascension_k), fcos(uk)),
        );
        // u₂ = sin Iₖ sin uₖ
        let u2 = fmul(fsin(inclination_k), fsin(uk));
        // velocities scale with aₑ kₑ / 60
        let kmps = fdiv(fmul(geopotential.ae, geopotential.ke), F60);
        Ok(
            propagator::Prediction {
                position: [
                    fmul(fmul(rk, u0), geopotential.ae),
                    fmul(fmul(rk, u1), geopotential.ae),
                    fmul(fmul(rk, u2), geopotential.ae),
                ],
                velocity: [
                    // ṙ₀ = (ṙₖ u₀ + rḟₖ (− sin Ωₖ cos Iₖ cos uₖ − cos Ωₖ sin uₖ)) aₑ kₑ / 60
                    fmul(
                        fadd(
                            fmul(rk_dot, u0),
                            fmul(
                                rfk_dot,
                                fsub(
                                    fmul(
                                        fmul(fneg(fsin(right_ascension_k)), fcos(inclination_k)),
                                        fcos(uk),
                                    ),
                                    fmul(fcos(right_ascension_k), fsin(uk)),
                                ),
                            ),
                        ),
                        kmps,
                    ),
                    // ṙ₁ = (ṙₖ u₁ + rḟₖ (cos Ωₖ cos Iₖ cos uₖ − sin Ωₖ sin uₖ)) aₑ kₑ / 60
                    fmul(
                        fadd(
                            fmul(rk_dot, u1),
                            fmul(
                                rfk_dot,
                                fsub(
                                    fmul(
                                        fmul(fcos(right_ascension_k), fcos(inclination_k)),
                                        fcos(uk),
                                    ),
                                    fmul(fsin(right_ascension_k), fsin(uk)),
                                ),
                            ),
                        ),
                        kmps,
                    ),
                    // ṙ₂ = (ṙₖ u₂ + rḟₖ sin Iₖ cos uₖ) aₑ kₑ / 60
                    fmul(
                        fadd(
                            fmul(rk_dot, u2),
                            fmul(rfk_dot, fmul(fsin(inclination_k), fcos(uk))),
                        ),
                        kmps,
                    ),
                ],
            },
        )
    }
}

impl propagator::Constants {
    /// The propagation constants of an orbit at an epoch.
    pub open spec fn spec_new(
        geopotential: model::Geopotential,
        epoch_to_sidereal_time: model::EpochToSiderealTime,
        t0: u64,
        drag_term: u64,
        orbit_0: propagator::Orbit,
    ) -> Result<propagator::Constants, propagator::Error> {
        if flt(orbit_0.eccentricity, F0) || fle(F1, orbit_0.eccentricity) {
            Err(propagator::Error::EccentricityOutOfRange)
        } else {
            // p₀ = cos I₀; p₁ = 1 − e₀²; k₆ = 3 p₀² − 1
            let p0 = fcos(orbit_0.inclination);
            let p1 = fsub(F1, fmul(orbit_0.eccentricity, orbit_0.eccentricity));
            let k6 = fsub(fmul(F3, fmul(p0, p0)), F1);
            // a₀" = (kₑ / n₀")²ᐟ³
            let a0 = fpow(fdiv(geopotential.ke, orbit_0.mean_motion), TWO_THIRDS);
            // p₃ = a₀" (1 − e₀); perigee = aₑ (p₃ − 1)
            let p3 = fmul(a0, fsub(F1, orbit_0.eccentricity));
            let perigee = fmul(geopotential.ae, fsub(p3, F1));
            // p₄ = 20 below 98 km of perigee, perigee − 78 up to 156 km, 78 above;
            // s = p₄ / aₑ + 1; p₅ = ((120 − p₄) / aₑ)⁴
            let p4 = if flt(perigee, F98) {
                F20
            } else if flt(perigee, F156) {
                fsub(perigee, F78)
            } else {
                F78
            };
            let s = fadd(fdiv(p4, geopotential.ae), F1);
            let p5_base = fdiv(fsub(F120, p4), geopotential.ae);
            let p5 = fmul(fmul(p5_base, p5_base), fmul(p5_base, p5_base));
            // ξ = 1 / (a₀" − s); p₆ = p₅ ξ⁴; η = a₀" e₀ ξ; p₇ = |1 − η²|; p₈ = p₆ / p₇⁷ᐟ²
            let xi = fdiv(F1, fsub(a0, s));
            let p6 = fmul(p5, fmul(fmul(xi, xi), fmul(xi, xi)));
            let eta = fmul(fmul(a0, orbit_0.eccentricity), xi);
            let p7 = fabs(fsub(F1, fmul(eta, eta)));
            let p8 = fdiv(p6, fpow(p7, F3_5));
            // C₁ = B* p₈ n₀" (a₀" (1 + ³/₂ η² + e₀ η (4 + η²))
            //      + ³/₈ J₂ ξ / p₇ k₆ (8 + 3 η² (8 + η²)))
            let c1 = fmul(
                drag_term,
                fmul(
                    fmul(p8, orbit_0.mean_motion),
                    fadd(
                        fmul(
                            a0,
                            fadd(
                                fadd(F1, fmul(F1_5, fmul(eta, eta))),
                                fmul(
                                    fmul(orbit_0.eccentricity, eta),
                                    fadd(F4, fmul(eta, eta)),
                                ),
                            ),
                        ),
                        fmul(
                            fmul(
                                fdiv(fmul(fmul(F0_375, geopotential.j2), xi), p7),
                                k6,
                            ),
                            fadd(F8, fmul(fmul(F3, fmul(eta, eta)), fadd(F8, fmul(eta, eta)))),
                        ),
                    ),
                ),
            );
            // p₉ = (a₀" p₁)⁻²; β₀ = p₁¹ᐟ²
            let p9 = fdiv(F1, fmul(fmul(a0, p1), fmul(a0, p1)));
            let b0 = fsqrt(p1);
            // p₁₀ = ³/₂ J₂ p₉ n₀"; p₁₁ = ¹/₂ p₁₀ J₂ p₉; p₁₂ = − ¹⁵/₃₂ J₄ p₉² n₀"
            let p10 = fmul(fmul(fmul(F1_5, geopotential.j2), p9), orbit_0.mean_motion);
            let p11 = fmul(fmul(fmul(F0_5, p10), geopotential.j2), p9);
            let p12 = fmul(
                fmul(fmul(FN0_46875, geopotential.j4), fmul(p9, p9)),
                orbit_0.mean_motion,
            );
            // p₁₃ = − p₁₀ p₀ + (¹/₂ p₁₁ (4 − 19 p₀²) + 2 p₁₂ (3 − 7 p₀²)) p₀
            let p13 = fadd(
                fmul(fneg(p10), p0),
                fmul(
                    fadd(
                        fmul(fmul(F0_5, p11), fsub(F4, fmul(F19, fmul(p0, p0)))),
                        fmul(fmul(F2, p12), fsub(F3, fmul(F7, fmul(p0, p0)))),
                    ),
                    p0,
                ),
            );
            // k₁₄ = − ¹/₂ p₁₀ (1 − 5 p₀²) + ¹/₁₆ p₁₁ (7 − 114 p₀² + 395 p₀⁴)
            //       + p₁₂ (3 − 36 p₀² + 49 p₀⁴)
            let k14 = fadd(
                fadd(
                    fmul(fmul(FN0_5, p10), fsub(F1, fmul(F5, fmul(p0, p0)))),
                    fmul(
                        fmul(F0_0625, p11),
                        fadd(
                            fsub(F7, fmul(F114, fmul(p0, p0))),
                            fmul(F395, fmul(fmul(p0, p0), fmul(p0, p0))),
                        ),
                    ),
                ),
                fmul(
                    p12,
                    fadd(
                        fsub(F3, fmul(F36, fmul(p0, p0))),
                        fmul(F49, fmul(fmul(p0, p0), fmul(p0, p0))),
                    ),
                ),
            );
            // p₁₄ = n₀" + ¹/₂ p₁₀ β₀ k₆ + ¹/₁₆ p₁₁ β₀ (13 − 78 p₀² + 137 p₀⁴)
            let p14 = fadd(
                fadd(orbit_0.mean_motion, fmul(fmul(fmul(F0_5, p10), b0), k6)),
                fmul(
                    fmul(fmul(F0_0625, p11), b0),
                    fadd(
                        fsub(F13, fmul(F78, fmul(p0, p0))),
                        fmul(F137, fmul(fmul(p0, p0), fmul(p0, p0))),
                    ),
                ),
            );
            // C₄ = 2 n₀" p₈ a₀" p₁ (η (2 + ¹/₂ η²) + e₀ (¹/₂ + 2 η²)
            //      − J₂ ξ / (a₀" p₇) (−3 k₆ (1 − 2 e₀ η + η² (³/₂ − ¹/₂ e₀ η))
            //      + ³/₄ (1 − p₀²) (2 η² − e₀ η (1 + η²)) cos 2ω₀))
            let c4 = fmul(
                fmul(fmul(fmul(fmul(F2, orbit_0.mean_motion), p8), a0), p1),
                fsub(
                    fadd(
                        fmul(eta, fadd(F2, fmul(F0_5, fmul(eta, eta)))),
                        fmul(orbit_0.eccentricity, fadd(F0_5, fmul(F2, fmul(eta, eta)))),
                    ),
                    fmul(
                        fdiv(fmul(geopotential.j2, xi), fmul(a0, p7)),
                        fadd(
                            fmul(
                                fmul(FN3, k6),
                                fadd(
                                    fsub(F1, fmul(fmul(F2, orbit_0.eccentricity), eta)),
                                    fmul(
                                        fmul(eta, eta),
                                        fsub(
                                            F1_5,
                                            fmul(fmul(F0_5, orbit_0.eccentricity), eta),
                                        ),
                                    ),
                                ),
                            ),
                            fmul(
                                fmul(
                                    fmul(F0_75, fsub(F1, fmul(p0, p0))),
                                    fsub(
                                        fmul(F2, fmul(eta, eta)),
                                        fmul(
                                            fmul(orbit_0.eccentricity, eta),
                                            fadd(F1, fmul(eta, eta)),
                                        ),
                                    ),
                                ),
                                fcos(fmul(F2, orbit_0.argument_of_perigee)),
                            ),
                        ),
                    ),
                ),
            );
            // k₀ = ⁷/₂ p₁ (− p₁₀ p₀) C₁; k₁ = ³/₂ C₁
            let k0 = fmul(fmul(fmul(F3_5, p1), fmul(fneg(p10), p0)), c1);
            let k1 = fmul(F1_5, c1);
            // the near-earth method serves periods under 225 minutes
            if flt(fdiv(fmul(F2, model::PI), F225), orbit_0.mean_motion) {
                Ok(
                    near_earth::spec_constants(
                        geopotential,
                        drag_term,
                        orbit_0,
                        p0,
                        a0,
                        s,
                        xi,
                        eta,
                        c1,
                        c4,
                        k0,
                        k1,
                        k6,
                        k14,
                        p1,
                        p3,
                        p6,
                        p8,
                        p13,
                        p14,
                    ),
                )
            } else {
                Ok(
                    deep_space::spec_constants(
                        geopotential,
                        epoch_to_sidereal_time,
                        t0,
                        drag_term,
                        orbit_0,
                        p0,
                        a0,
                        c1,
                        b0,
                        c4,
                        k0,
                        k1,
                        k14,
                        p1,
                        p13,
                        p14,
                    ),
                )
            }
        }
    }

    /// Precomputes the propagation constants of the orbit `orbit_0` at the
    /// epoch `t0`, given in years since UTC 2000 January 1 12h00, with the
    /// drag term B* in (earth radii)⁻¹.
    ///
    /// Fails iff the eccentricity at epoch lies outside [0, 1).
    pub fn new(
        geopotential: &model::Geopotential,
        epoch_to_sidereal_time: model::EpochToSiderealTime,
        t0: u64,
        drag_term: u64,
        orbit_0: propagator::Orbit,
    ) -> (r: Result<propagator::Constants, propagator::Error>)
        ensures
            r == propagator::Constants::spec_new(
                *geopotential,
                epoch_to_sidereal_time,
                t0,
                drag_term,
                orbit_0,
            ),
            r is Err <==> (flt(orbit_0.eccentricity, F0) || fle(F1, orbit_0.eccentricity)),
    {
        if flt(orbit_0.eccentricity, F0) || fle(F1, orbit_0.eccentricity) {
            Err(propagator::Error::EccentricityOutOfRange)
        } else {
            // p₀ = cos I₀; p₁ = 1 − e₀²; k₆ = 3 p₀² − 1
            let p0 = fcos(orbit_0.inclination);
            let p1 = fsub(F1, fmul(orbit_0.eccentricity, orbit_0.eccentricity));
            let k6 = fsub(fmul(F3, fmul(p0, p0)), F1);
            // a₀" = (kₑ / n₀")²ᐟ³
            let a0 = fpow(fdiv(geopotential.ke, orbit_0.mean_motion), TWO_THIRDS);
            // p₃ = a₀" (1 − e₀); perigee = aₑ (p₃ − 1)
            let p3 = fmul(a0, fsub(F1, orbit_0.eccentricity));
            let perigee = fmul(geopotential.ae, fsub(p3, F1));
            // p₄ = 20 below 98 km of perigee, perigee − 78 up to 156 km, 78 above;
            // s = p₄ / aₑ + 1; p₅ = ((120 − p₄) / aₑ)⁴
            let p4 = if flt(perigee, F98) {
                F20
            } else if flt(perigee, F156) {
                fsub(perigee, F78)
            } else {
                F78
            };
            let s = fadd(fdiv(p4, geopotential.ae), F1);
            let p5_base = fdiv(fsub(F120, p4), geopotential.ae);
            let p5 = fmul(fmul(p5_base, p5_base), fmul(p5_base, p5_base));
            // ξ = 1 / (a₀" − s); p₆ = p₅ ξ⁴; η = a₀" e₀ ξ; p₇ = |1 − η²|; p₈ = p₆ / p₇⁷ᐟ²
            let xi = fdiv(F1, fsub(a0, s));
            let p6 = fmul(p5, fmul(fmul(xi, xi), fmul(xi, xi)));
            let eta = fmul(fmul(a0, orbit_0.eccentricity), xi);
            let p7 = fabs(fsub(F1, fmul(eta, eta)));
            let p8 = fdiv(p6, fpow(p7, F3_5));
            // C₁ = B* p₈ n₀" (a₀" (1 + ³/₂ η² + e₀ η (4 + η²))
            //      + ³/₈ J₂ ξ / p₇ k₆ (8 + 3 η² (8 + η²)))
            let c1 = fmul(
                drag_term,
                fmul(
                    fmul(p8, orbit_0.mean_motion),
                    fadd(
                        fmul(
                            a0,
                            fadd(
                                fadd(F1, fmul(F1_5, fmul(eta, eta))),
                                fmul(
                                    fmul(orbit_0.eccentricity, eta),
                                    fadd(F4, fmul(eta, eta)),
                                ),
                            ),
                        ),
                        fmul(
                            fmul(
                                fdiv(fmul(fmul(F0_375, geopotential.j2), xi), p7),
                                k6,
                            ),
                            fadd(F8, fmul(fmul(F3, fmul(eta, eta)), fadd(F8, fmul(eta, eta)))),
                        ),
                    ),
                ),
            );
            // p₉ = (a₀" p₁)⁻²; β₀ = p₁¹ᐟ²
            let p9 = fdiv(F1, fmul(fmul(a0, p1), fmul(a0, p1)));
            let b0 = fsqrt(p1);
            // p₁₀ = ³/₂ J₂ p₉ n₀"; p₁₁ = ¹/₂ p₁₀ J₂ p₉; p₁₂ = − ¹⁵/₃₂ J₄ p₉² n₀"
            let p10 = fmul(fmul(fmul(F1_5, geopotential.j2), p9), orbit_0.mean_motion);
            let p11 = fmul(fmul(fmul(F0_5, p10), geopotential.j2), p9);
            let p12 = fmul(
                fmul(fmul(FN0_46875, geopotential.j4), fmul(p9, p9)),
                orbit_0.mean_motion,
            );
            // p₁₃ = − p₁₀ p₀ + (¹/₂ p₁₁ (4 − 19 p₀²) + 2 p₁₂ (3 − 7 p₀²)) p₀
            let p13 = fadd(
                fmul(fneg(p10), p0),
                fmul(
                    fadd(
                        fmul(fmul(F0_5, p11), fsub(F4, fmul(F19, fmul(p0, p0)))),
                        fmul(fmul(F2, p12), fsub(F3, fmul(F7, fmul(p0, p0)))),
                    ),
                    p0,
                ),
            );
            // k₁₄ = − ¹/₂ p₁₀ (1 − 5 p₀²) + ¹/₁₆ p₁₁ (7 − 114 p₀² + 395 p₀⁴)
            //       + p₁₂ (3 − 36 p₀² + 49 p₀⁴)
            let k14 = fadd(
                fadd(
                    fmul(fmul(FN0_5, p10), fsub(F1, fmul(F5, fmul(p0, p0)))),
                    fmul(
                        fmul(F0_0625, p11),
                        fadd(
                            fsub(F7, fmul(F114, fmul(p0, p0))),
                            fmul(F395, fmul(fmul(p0, p0), fmul(p0, p0))),
                        ),
                    ),
                ),
                fmul(
                    p12,
                    fadd(
                        fsub(F3, fmul(F36, fmul(p0, p0))),
                        fmul(F49, fmul(fmul(p0, p0), fmul(p0, p0))),
                    ),
                ),
            );
            // p₁₄ = n₀" + ¹/₂ p₁₀ β₀ k₆ + ¹/₁₆ p₁₁ β₀ (13 − 78 p₀² + 137 p₀⁴)
            let p14 = fadd(
                fadd(orbit_0.mean_motion, fmul(fmul(fmul(F0_5, p10), b0), k6)),
                fmul(
                    fmul(fmul(F0_0625, p11), b0),
                    fadd(
                        fsub(F13, fmul(F78, fmul(p0, p0))),
                        fmul(F137, fmul(fmul(p0, p0), fmul(p0, p0))),
                    ),
                ),
            );
            // C₄ = 2 n₀" p₈ a₀" p₁ (η (2 + ¹/₂ η²) + e₀ (¹/₂ + 2 η²)
            //      − J₂ ξ / (a₀" p₇) (−3 k₆ (1 − 2 e₀ η + η² (³/₂ − ¹/₂ e₀ η))
            //      + ³/₄ (1 − p₀²) (2 η² − e₀ η (1 + η²)) cos 2ω₀))
            let c4 = fmul(
                fmul(fmul(fmul(fmul(F2, orbit_0.mean_motion), p8), a0), p1),
                fsub(
                    fadd(
                        fmul(eta, fadd(F2, fmul(F0_5, fmul(eta, eta)))),
                        fmul(orbit_0.eccentricity, fadd(F0_5, fmul(F2, fmul(eta, eta)))),
                    ),
                    fmul(
                        fdiv(fmul(geopotential.j2, xi), fmul(a0, p7)),
                        fadd(
                            fmul(
                                fmul(FN3, k6),
                                fadd(
                                    fsub(F1, fmul(fmul(F2, orbit_0.eccentricity), eta)),
                                    fmul(
                                        fmul(eta, eta),
                                        fsub(
                                            F1_5,
                                            fmul(fmul(F0_5, orbit_0.eccentricity), eta),
                                        ),
                                    ),
                                ),
                            ),
                            fmul(
                                fmul(
                                    fmul(F0_75, fsub(F1, fmul(p0, p0))),
                                    fsub(
                                        fmul(F2, fmul(eta, eta)),
                                        fmul(
                                            fmul(orbit_0.eccentricity, eta),
                                            fadd(F1, fmul(eta, eta)),
                                        ),
                                    ),
                                ),
                                fcos(fmul(F2, orbit_0.argument_of_perigee)),
                            ),
                        ),
                    ),
                ),
            );
            // k₀ = ⁷/₂ p₁ (− p₁₀ p₀) C₁; k₁ = ³/₂ C₁
            let k0 = fmul(fmul(fmul(F3_5, p1), fmul(fneg(p10), p0)), c1);
            let k1 = fmul(F1_5, c1);
            // the near-earth method serves periods under 225 minutes
            if flt(fdiv(fmul(F2, model::PI), F225), orbit_0.mean_motion) {
                Ok(
                    near_earth::constants(
                        geopotential,
                        drag_term,
                        orbit_0,
                        p0,
                        a0,
                        s,
                        xi,
                        eta,
                        c1,
                        c4,
                        k0,
                        k1,
                        k6,
                        k14,
                        p1,
                        p3,
                        p6,
                        p8,
                        p13,
                        p14,
                    ),
                )
            } else {
                Ok(
                    deep_space::constants(
                        geopotential,
                        epoch_to_sidereal_time,
                        t0,
                        drag_term,
                        orbit_0,
                        p0,
                        a0,
                        c1,
                        b0,
                        c4,
                        k0,
                        k1,
                        k14,
                        p1,
                        p13,
                        p14,
                    ),
                )
            }
        }
    }

    /// The constants `from_tle` builds: WGS72 for the Kozai-to-Brouwer
    /// conversion, WGS84 and the IAU sidereal time for the propagation — a
    /// deliberate mix that SGP4 prescribes outside AFSPC mode.
    pub open spec fn spec_from_tle(tle: tle::Tle) -> Result<
        propagator::Constants,
        propagator::Error,
    > {
        match propagator::Orbit::spec_from_kozai_elements(
            model::wgs72(),
            fmul(tle.inclination, RADIANS_PER_DEGREE),
            fmul(tle.right_ascension, RADIANS_PER_DEGREE),
            tle.eccentricity,
            fmul(tle.argument_of_perigee, RADIANS_PER_DEGREE),
            fmul(tle.mean_anomaly, RADIANS_PER_DEGREE),
            fmul(tle.mean_motion, RADIANS_PER_MINUTE_PER_REV_PER_DAY),
        ) {
            Err(error) => Err(error),
            Ok(orbit_0) => propagator::Constants::spec_new(
                model::wgs84(),
                model::EpochToSiderealTime::Iau,
                tle.epoch,
                tle.drag_term,
                orbit_0,
            ),
        }
    }

    /// The propagation constants of a two-line element set: WGS72 for the
    /// Kozai-to-Brouwer conversion, WGS84 and the IAU sidereal time for the
    /// propagation — a deliberate mix that SGP4 prescribes outside AFSPC
    /// mode.
    pub fn from_tle(tle: &tle::Tle) -> (r: Result<propagator::Constants, propagator::Error>)
        ensures
            r == propagator::Constants::spec_from_tle(*tle),
    {
        let wgs72 = model::wgs72();
        let orbit_0 = match propagator::Orbit::from_kozai_elements(
            &wgs72,
            fmul(tle.inclination, RADIANS_PER_DEGREE),
            fmul(tle.right_ascension, RADIANS_PER_DEGREE),
            tle.eccentricity,
            fmul(tle.argument_of_perigee, RADIANS_PER_DEGREE),
            fmul(tle.mean_anomaly, RADIANS_PER_DEGREE),
            fmul(tle.mean_motion, RADIANS_PER_MINUTE_PER_REV_PER_DAY),
        ) {
            Ok(orbit_0) => orbit_0,
            Err(error) => {
                return Err(error);
            },
        };
        let wgs84 = model::wgs84();
        propagator::Constants::new(
            &wgs84,
            model::EpochToSiderealTime::Iau,
            tle.epoch,
            tle.drag_term,
            orbit_0,
        )
    }

    /// The constants `from_tle_afspc_compatibility_mode` builds: WGS72 and
    /// the AFSPC sidereal time throughout.
    pub open spec fn spec_from_tle_afspc_compatibility_mode(tle: tle::Tle) -> Result<
        propagator::Constants,
        propagator::Error,
    > {
        match propagator::Orbit::spec_from_kozai_elements(
            model::wgs72(),
            fmul(tle.inclination, RADIANS_PER_DEGREE),
            fmul(tle.right_ascension, RADIANS_PER_DEGREE),
            tle.eccentricity,
            fmul(tle.argument_of_perigee, RADIANS_PER_DEGREE),
            fmul(tle.mean_anomaly, RADIANS_PER_DEGREE),
            fmul(tle.mean_motion, RADIANS_PER_MINUTE_PER_REV_PER_DAY),
        ) {
            Err(error) => Err(error),
            Ok(orbit_0) => propagator::Constants::spec_new(
                model::wgs72(),
                model::EpochToSiderealTime::Afspc,
                tle.epoch_afspc_compatibility_mode,
                tle.drag_term,
                orbit_0,
            ),
        }
    }

    /// The propagation constants of a two-line element set under the AFSPC
    /// conventions: WGS72 and the AFSPC sidereal time throughout.
    pub fn from_tle_afspc_compatibility_mode(tle: &tle::Tle) -> (r: Result<
        propagator::Constants,
        propagator::Error,
    >)
        ensures
            r == propagator::Constants::spec_from_tle_afspc_compatibility_mode(*tle),
    {
        let wgs72 = model::wgs72();
        let orbit_0 = match propagator::Orbit::from_kozai_elements(
            &wgs72,
            fmul(tle.inclination, RADIANS_PER_DEGREE),
            fmul(tle.right_ascension, RADIANS_PER_DEGREE),
            tle.eccentricity,
            fmul(tle.argument_of_perigee, RADIANS_PER_DEGREE),
            fmul(tle.mean_anomaly, RADIANS_PER_DEGREE),
            fmul(tle.mean_motion, RADIANS_PER_MINUTE_PER_REV_PER_DAY),
        ) {
            Ok(orbit_0) => orbit_0,
            Err(error) => {
                return Err(error);
            },
        };
        propagator::Constants::new(
            &wgs72,
            model::EpochToSiderealTime::Afspc,
            tle.epoch_afspc_compatibility_mode,
            tle.drag_term,
            orbit_0,
        )
    }

    /// The integrator state `initial_state` hands out: a fresh state at the
    /// epoch for a resonant deep-space orbit, and nothing otherwise.
    pub open spec fn spec_initial_state(self) -> Option<deep_space::ResonanceState> {
        match self.method {
            propagator::Method::NearEarth { .. } => None,
            propagator::Method::DeepSpace { resonant, .. } => match resonant {
                propagator::Resonant::No { .. } => None,
                propagator::Resonant::Yes { lambda_0, .. } => Some(
                    deep_space::ResonanceState {
                        t: F0,
                        mean_motion: self.orbit_0.mean_motion,
                        lambda: lambda_0,
                    },
                ),
            },
        }
    }

    /// A fresh integrator state at the epoch iff the method is deep space
    /// and the orbit is resonant, and `None` otherwise.
    pub fn initial_state(&self) -> (r: Option<deep_space::ResonanceState>)
        ensures
            r == self.spec_initial_state(),
            r is Some <==> (self.method matches propagator::Method::DeepSpace {
                resonant: propagator::Resonant::Yes { .. },
                ..
            }),
    {
        match &self.method {
            propagator::Method::NearEarth { .. } => None,
            propagator::Method::DeepSpace { resonant, .. } => match resonant {
                propagator::Resonant::No { .. } => None,
                propagator::Resonant::Yes { lambda_0, .. } => Some(
                    deep_space::ResonanceState::new(self.orbit_0.mean_motion, *lambda_0),
                ),
            },
        }
    }

    /// The prediction at `t` minutes after the epoch, and the integrator
    /// state after the evaluation.
    pub open spec fn spec_propagate_from_state(
        self,
        t: u64,
        state: Option<deep_space::ResonanceState>,
        afspc_compatibility_mode: bool,
    ) -> (Result<propagator::Prediction, propagator::Error>, Option<
        deep_space::ResonanceState,
    >) {
        // p₂₁ = Ω₀ + Ω̇ t + k₀ t²; p₂₂ = ω₀ + ω̇ t
        let p21 = spec_p21(self, t);
        let p22 = fadd(self.orbit_0.argument_of_perigee, fmul(self.argument_of_perigee_dot, t));
        let dispatched = match self.method {
            propagator::Method::NearEarth { a0, k2, k3, k4, k5, k6, full } => (
                self.spec_near_earth_orbital_elements(a0, k2, k3, k4, k5, k6, full, t, p21, p22),
                state,
            ),
            propagator::Method::DeepSpace {
                eccentricity_dot,
                inclination_dot,
                solar_perturbations,
                lunar_perturbations,
                resonant,
            } => self.spec_deep_space_orbital_elements(
                eccentricity_dot,
                inclination_dot,
                solar_perturbations,
                lunar_perturbations,
                resonant,
                state,
                t,
                p21,
                p22,
                afspc_compatibility_mode,
            ),
        };
        match dispatched.0 {
            Err(error) => (Err(error), dispatched.1),
            Ok(elements) => (spec_predict(self.geopotential, elements), dispatched.1),
        }
    }

    /// Propagates to `t` minutes after the epoch with a caller-owned
    /// integrator state, so that one set of constants can serve many
    /// sequential evaluations.
    ///
    /// The state must be the one `initial_state` returned for these
    /// constants — present iff the orbit is deep-space resonant — and the
    /// times handed to one state must grow in magnitude and keep one sign,
    /// as the precondition states; create a fresh state to go back or to
    /// cross the epoch.
    ///
    /// Fails with `DivergingEccentricity`, `DivergingPerturbedEccentricity`
    /// or `NegativeSemiLatusRectum` when the drag or the lunisolar theory
    /// has broken down at `t`, exactly as `spec_propagate_from_state`
    /// states.
    pub fn propagate_from_state(
        &self,
        t: u64,
        state: &mut Option<deep_space::ResonanceState>,
        afspc_compatibility_mode: bool,
    ) -> (r: Result<propagator::Prediction, propagator::Error>)
        requires
            match self.method {
                propagator::Method::NearEarth { .. } => *old(state) is None,
                propagator::Method::DeepSpace { resonant, .. } => match resonant {
                    propagator::Resonant::No { .. } => *old(state) is None,
                    propagator::Resonant::Yes { .. } => *old(state) is Some
                        && deep_space::spec_accepts_target((*old(state))->0, t),
                },
            },
        ensures
            r == self.spec_propagate_from_state(t, *old(state), afspc_compatibility_mode).0,
            *final(state) == self.spec_propagate_from_state(
                t,
                *old(state),
                afspc_compatibility_mode,
            ).1,
    {
        // p₂₁ = Ω₀ + Ω̇ t + k₀ t²; p₂₂ = ω₀ + ω̇ t
        let p21 = fadd(
            fadd(self.orbit_0.right_ascension, fmul(self.right_ascension_dot, t)),
            fmul(self.k0, fmul(t, t)),
        );
        let p22 = fadd(self.orbit_0.argument_of_perigee, fmul(self.argument_of_perigee_dot, t));
        let dispatched = match &self.method {
            propagator::Method::NearEarth { a0, k2, k3, k4, k5, k6, full } => self
                .near_earth_orbital_elements(*a0, *k2, *k3, *k4, *k5, *k6, full, t, p21, p22),
            propagator::Method::DeepSpace {
                eccentricity_dot,
                inclination_dot,
                solar_perturbations,
                lunar_perturbations,
                resonant,
            } => self.deep_space_orbital_elements(
                *eccentricity_dot,
                *inclination_dot,
                solar_perturbations,
                lunar_perturbations,
                resonant,
                state,
                t,
                p21,
                p22,
                afspc_compatibility_mode,
            ),
        };
        match dispatched {
            Err(error) => Err(error),
            Ok(elements) => predict(&self.geopotential, &elements),
        }
    }

    /// The prediction of `propagate` and of its AFSPC twin: a fresh
    /// integrator state is used and dropped.
    pub open spec fn spec_propagate(self, t: u64, afspc_compatibility_mode: bool) -> Result<
        propagator::Prediction,
        propagator::Error,
    > {
        self.spec_propagate_from_state(t, self.spec_initial_state(), afspc_compatibility_mode).0
    }

    /// Propagates to `t` minutes after the epoch with a fresh integrator
    /// state.
    pub fn propagate(&self, t: u64) -> (r: Result<propagator::Prediction, propagator::Error>)
        ensures
            r == self.spec_propagate(t, false),
    {
        proof {
            fp::lemma_zero_is_zero();
        }
        let mut state = self.initial_state();
        self.propagate_from_state(t, &mut state, false)
    }

    /// Propagates to `t` minutes after the epoch with a fresh integrator
    /// state, with the AFSPC modular-remainder semantics in the
    /// low-inclination branch.
    pub fn propagate_afspc_compatibility_mode(&self, t: u64) -> (r: Result<
        propagator::Prediction,
        propagator::Error,
    >)
        ensures
            r == self.spec_propagate(t, true),
    {
        proof {
            fp::lemma_zero_is_zero();
        }
        let mut state = self.initial_state();
        self.propagate_from_state(t, &mut state, true)
    }
}

/// p₂₁ = Ω₀ + Ω̇ t + k₀ t², the secularly advanced node angle at `t` minutes
/// after the epoch.
pub open spec fn spec_p21(constants: propagator::Constants, t: u64) -> u64 {
    fadd(
        fadd(constants.orbit_0.right_ascension, fmul(constants.right_ascension_dot, t)),
        fmul(constants.k0, fmul(t, t)),
    )
}

/// Two propagations of one set of constants to one time return the same
/// prediction, bit for bit: `propagate`'s postcondition pins its result as
/// a function of the constants and the time alone, so the propagator is
/// deterministic.
pub proof fn lemma_propagation_deterministic(
    constants: propagator::Constants,
    t: u64,
    first: Result<propagator::Prediction, propagator::Error>,
    second: Result<propagator::Prediction, propagator::Error>,
)
    requires
        first == constants.spec_propagate(t, false),
        second == constants.spec_propagate(t, false),
    ensures
        first == second,
{
}

/// The AFSPC compatibility flag reaches the result only through the modular
/// reduction of p₂₁ in the low-inclination deep-space branch: wherever the
/// truncated and the Euclidean remainder of p₂₁ by 2π agree — in particular
/// wherever p₂₁ is not negative, which covers every non-negative time on an
/// orbit whose node angle stays non-negative — the two compatibility modes
/// return the same prediction and the same state, bit for bit.
pub proof fn lemma_compatibility_modes_agree(
    constants: propagator::Constants,
    t: u64,
    state: Option<deep_space::ResonanceState>,
)
    requires
        frem(spec_p21(constants, t), model::TWO_PI) == frem_euclid(
            spec_p21(constants, t),
            model::TWO_PI,
        ),
    ensures
        constants.spec_propagate_from_state(t, state, true)
            == constants.spec_propagate_from_state(t, state, false),
{
    match constants.method {
        propagator::Method::NearEarth { .. } => {
        },
        propagator::Method::DeepSpace {
            eccentricity_dot,
            inclination_dot,
            solar_perturbations,
            lunar_perturbations,
            resonant,
        } => {
            let p21 = spec_p21(constants, t);
            let p22 = fadd(
                constants.orbit_0.argument_of_perigee,
                fmul(constants.argument_of_perigee_dot, t),
            );
            assert(constants.spec_deep_space_orbital_elements(
                eccentricity_dot,
                inclination_dot,
                solar_perturbations,
                lunar_perturbations,
                resonant,
                state,
                t,
                p21,
                p22,
                true,
            ) == constants.spec_deep_space_orbital_elements(
                eccentricity_dot,
                inclination_dot,
                solar_perturbations,
                lunar_perturbations,
                resonant,
                state,
                t,
                p21,
                p22,
                false,
            ));
        },
    }
}

} // verus!
