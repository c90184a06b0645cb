//! The near-earth method: orbits whose period is shorter than 225 minutes.

use vstd::prelude::*;
use crate::fp::{fabs, fadd, fcos, fdiv, fle, flt, fmul, fpow, fsin, fsub};
use crate::model;
use crate::propagator;

verus! {

/// 0.0
pub const F0: u64 = 0x0000000000000000;

/// 1.0
pub const F1: u64 = 0x3FF0000000000000;

/// 2.0
pub const F2: u64 = 0x4000000000000000;

/// -2.0
pub const FN2: u64 = 0xC000000000000000;

/// 3.0
pub const F3: u64 = 0x4008000000000000;

/// 4.0
pub const F4: u64 = 0x4010000000000000;

/// 5.0
pub const F5: u64 = 0x4014000000000000;

/// 6.0
pub const F6: u64 = 0x4018000000000000;

/// 7.0
pub const F7: u64 = 0x401C000000000000;

/// 10.0
pub const F10: u64 = 0x4024000000000000;

/// 12.0
pub const F12: u64 = 0x4028000000000000;

/// 15.0
pub const F15: u64 = 0x402E000000000000;

/// 17.0
pub const F17: u64 = 0x4031000000000000;

/// 31.0
pub const F31: u64 = 0x403F000000000000;

/// 220.0
pub const F220: u64 = 0x406B800000000000;

/// 221.0
pub const F221: u64 = 0x406BA00000000000;

/// 0.2
pub const F0_2: u64 = 0x3FC999999999999A;

/// 0.25
pub const F0_25: u64 = 0x3FD0000000000000;

/// -0.25
pub const FN0_25: u64 = 0xBFD0000000000000;

/// 0.5
pub const F0_5: u64 = 0x3FE0000000000000;

/// -0.5
pub const FN0_5: u64 = 0xBFE0000000000000;

/// 1.5
pub const F1_5: u64 = 0x3FF8000000000000;

/// 2.75
pub const F2_75: u64 = 0x4006000000000000;

/// -2/3
pub const FN_TWO_THIRDS: u64 = 0xBFE5555555555555;

/// 1.0e-4
pub const F1EM4: u64 = 0x3F1A36E2EB1C432D;

/// 1.0e-6
pub const F1EM6: u64 = 0x3EB0C6F7A0B5ED8D;

/// -0.001
pub const FN0_001: u64 = 0xBF50624DD2F1A9FC;

/// 1.5e-12
pub const F1_5EM12: u64 = 0x3D7A636641C4DF1A;

/// The secular terms of the near-earth method at an evaluation time.
#[derive(Clone, Copy, Debug)]
pub struct SecularTerms {
    pub mean_anomaly: u64,
    pub argument_of_perigee: u64,
    /// The drag factor on the semi-major axis.
    pub a_factor: u64,
    /// The drag offset on the eccentricity.
    pub e_offset: u64,
    /// The drag offset on the mean longitude.
    pub l_offset: u64,
}

/// The near-earth propagation constants, from the common constants of
/// `Constants::new`.
pub open spec fn spec_constants(
    geopotential: model::Geopotential,
    drag_term: u64,
    orbit_0: propagator::Orbit,
    p0: u64,
    a0: u64,
    s: u64,
    xi: u64,
    eta: u64,
    c1: u64,
    c4: u64,
    k0: u64,
    k1: u64,
    k6: u64,
    k14: u64,
    p1: u64,
    p3: u64,
    p6: u64,
    p8: u64,
    p13: u64,
    p14: u64,
) -> propagator::Constants {
    let sini = fsin(orbit_0.inclination);
    let j3_over_j2 = fdiv(geopotential.j3, geopotential.j2);
    // k₂ = − ¹/₂ (J₃ / J₂) sin I₀
    let k2 = fmul(fmul(FN0_5, j3_over_j2), sini);
    // k₃ = − ¹/₄ (J₃ / J₂) sin I₀ (3 + 5 p₀) / (1 + p₀), guarded near p₀ = −1
    let k3 = if flt(F1_5EM12, fabs(fadd(F1, p0))) {
        fdiv(
            fmul(fmul(fmul(FN0_25, j3_over_j2), sini), fadd(F3, fmul(F5, p0))),
            fadd(F1, p0),
        )
    } else {
        fdiv(
            fmul(fmul(fmul(FN0_25, j3_over_j2), sini), fadd(F3, fmul(F5, p0))),
            F1_5EM12,
        )
    };
    // k₄ = 7 p₀² − 1
    let k4 = fsub(fmul(F7, fmul(p0, p0)), F1);
    // k₅ = 1 − p₀²
    let k5 = fsub(F1, fmul(p0, p0));
    // the higher-order drag coefficients are kept iff the perigee altitude
    // is at least 220 km: 220 / aₑ ≤ a₀" (1 − e₀) − 1
    let full = if fle(fdiv(F220, geopotential.ae), fsub(p3, F1)) {
        let etasq = fmul(eta, eta);
        let eeta = fmul(orbit_0.eccentricity, eta);
        // C₅ = 2 p₈ a₀" p₁ (1 + ¹¹/₄ (η² + e₀ η) + e₀ η³)
        let c5 = fmul(
            fmul(fmul(fmul(F2, p8), a0), p1),
            fadd(fadd(F1, fmul(F2_75, fadd(etasq, eeta))), fmul(eeta, etasq)),
        );
        // C₃ = − 2 p₆ ξ (J₃ / J₂) n₀" sin I₀ / e₀ if e₀ > 10⁻⁴, else 0
        let c3 = if flt(F1EM4, orbit_0.eccentricity) {
            fdiv(
                fmul(
                    fmul(fmul(fmul(fmul(FN2, p6), xi), j3_over_j2), orbit_0.mean_motion),
                    sini,
                ),
                orbit_0.eccentricity,
            )
        } else {
            F0
        };
        let c1sq = fmul(c1, c1);
        // D₂ = 4 a₀" ξ C₁²
        let d2 = fmul(fmul(fmul(F4, a0), xi), c1sq);
        // p₁₅ = D₂ ξ C₁ / 3
        let p15 = fdiv(fmul(fmul(d2, xi), c1), F3);
        // D₃ = (17 a₀" + s) p₁₅
        let d3 = fmul(fadd(fmul(F17, a0), s), p15);
        // D₄ = ¹/₂ p₁₅ a₀" ξ (221 a₀" + 31 s) C₁
        let d4 = fmul(
            fmul(
                fmul(fmul(fmul(F0_5, p15), a0), xi),
                fadd(fmul(F221, a0), fmul(F31, s)),
            ),
            c1,
        );
        let delta_m0_base = fadd(F1, fmul(eta, fcos(orbit_0.mean_anomaly)));
        Some(
            propagator::FullCoefficients {
                c5: c5,
                d2: d2,
                d3: d3,
                d4: d4,
                eta: eta,
                // (1 + η cos M₀)³
                delta_m0: fmul(fmul(delta_m0_base, delta_m0_base), delta_m0_base),
                sin_m0: fsin(orbit_0.mean_anomaly),
                // B* C₃ cos ω₀
                omgcof: fmul(fmul(drag_term, c3), fcos(orbit_0.argument_of_perigee)),
                // − ²/₃ p₆ B* / (e₀ η) if e₀ > 10⁻⁴, else 0
                xmcof: if flt(F1EM4, orbit_0.eccentricity) {
                    fdiv(fmul(fmul(FN_TWO_THIRDS, p6), drag_term), eeta)
                } else {
                    F0
                },
                // 𝕃₃ = D₂ + 2 C₁²
                t3cof: fadd(d2, fmul(F2, c1sq)),
                // 𝕃₄ = ¹/₄ (3 D₃ + C₁ (12 D₂ + 10 C₁²))
                t4cof: fmul(
                    F0_25,
                    fadd(fmul(F3, d3), fmul(c1, fadd(fmul(F12, d2), fmul(F10, c1sq)))),
                ),
                // 𝕃₅ = ¹/₅ (3 D₄ + 12 C₁ D₃ + 6 D₂² + 15 C₁² (2 D₂ + C₁²))
                t5cof: fmul(
                    F0_2,
                    fadd(
                        fadd(
                            fadd(fmul(F3, d4), fmul(fmul(F12, c1), d3)),
                            fmul(fmul(F6, d2), d2),
                        ),
                        fmul(fmul(F15, c1sq), fadd(fmul(F2, d2), c1sq)),
                    ),
                ),
            },
        )
    } else {
        None
    };
    propagator::Constants {
        geopotential: geopotential,
        drag_term: drag_term,
        right_ascension_dot: p13,
        argument_of_perigee_dot: k14,
        mean_anomaly_dot: p14,
        c1: c1,
        c4: c4,
        k0: k0,
        k1: k1,
        method: propagator::Method::NearEarth {
            a0: a0,
            k2: k2,
            k3: k3,
            k4: k4,
            k5: k5,
            k6: k6,
            full: full,
        },
        orbit_0: orbit_0,
    }
}

/// The near-earth propagation constants, from the common constants of
/// `Constants::new`.
pub(crate) fn constants(
    geopotential: &model::Geopotential,
    drag_term: u64,
    orbit_0: propagator::Orbit,
    p0: u64,
    a0: u64,
    s: u64,
    xi: u64,
    eta: u64,
    c1: u64,
    c4: u64,
    k0: u64,
    k1: u64,
    k6: u64,
    k14: u64,
    p1: u64,
    p3: u64,
    p6: u64,
    p8: u64,
    p13: u64,
    p14: u64,
) -> (r: propagator::Constants)
    ensures
        r == spec_constants(
            *geopotential,
            drag_term,
            orbit_0,
            p0,
            a0,
            s,
            xi,
            eta,
            c1,
            c4,
            k0,
            k1,
            k6,
            k14,
            p1,
            p3,
            p6,
            p8,
            p13,
            p14,
        ),
{
    let sini = fsin(orbit_0.inclination);
    let j3_over_j2 = fdiv(geopotential.j3, geopotential.j2);
    // k₂ = − ¹/₂ (J₃ / J₂) sin I₀
    let k2 = fmul(fmul(FN0_5, j3_over_j2), sini);
    // k₃ = − ¹/₄ (J₃ / J₂) sin I₀ (3 + 5 p₀) / (1 + p₀), guarded near p₀ = −1
    let k3 = if flt(F1_5EM12, fabs(fadd(F1, p0))) {
        fdiv(
            fmul(fmul(fmul(FN0_25, j3_over_j2), sini), fadd(F3, fmul(F5, p0))),
            fadd(F1, p0),
        )
    } else {
        fdiv(
            fmul(fmul(fmul(FN0_25, j3_over_j2), sini), fadd(F3, fmul(F5, p0))),
            F1_5EM12,
        )
    };
    // k₄ = 7 p₀² − 1
    let k4 = fsub(fmul(F7, fmul(p0, p0)), F1);
    // k₅ = 1 − p₀²
    let k5 = fsub(F1, fmul(p0, p0));
    // the higher-order drag coefficients are kept iff the perigee altitude
    // is at least 220 km: 220 / aₑ ≤ a₀" (1 − e₀) − 1
    let full = if fle(fdiv(F220, geopotential.ae), fsub(p3, F1)) {
        let etasq = fmul(eta, eta);
        let eeta = fmul(orbit_0.eccentricity, eta);
        // C₅ = 2 p₈ a₀" p₁ (1 + ¹¹/₄ (η² + e₀ η) + e₀ η³)
        let c5 = fmul(
            fmul(fmul(fmul(F2, p8), a0), p1),
            fadd(fadd(F1, fmul(F2_75, fadd(etasq, eeta))), fmul(eeta, etasq)),
        );
        // C₃ = − 2 p₆ ξ (J₃ / J₂) n₀" sin I₀ / e₀ if e₀ > 10⁻⁴, else 0
        let c3 = if flt(F1EM4, orbit_0.eccentricity) {
            fdiv(
                fmul(
                    fmul(fmul(fmul(fmul(FN2, p6), xi), j3_over_j2), orbit_0.mean_motion),
                    sini,
                ),
                orbit_0.eccentricity,
            )
        } else {
            F0
        };
        let c1sq = fmul(c1, c1);
        // D₂ = 4 a₀" ξ C₁²
        let d2 = fmul(fmul(fmul(F4, a0), xi), c1sq);
        // p₁₅ = D₂ ξ C₁ / 3
        let p15 = fdiv(fmul(fmul(d2, xi), c1), F3);
        // D₃ = (17 a₀" + s) p₁₅
        let d3 = fmul(fadd(fmul(F17, a0), s), p15);
        // D₄ = ¹/₂ p₁₅ a₀" ξ (221 a₀" + 31 s) C₁
        let d4 = fmul(
            fmul(
                fmul(fmul(fmul(F0_5, p15), a0), xi),
                fadd(fmul(F221, a0), fmul(F31, s)),
            ),
            c1,
        );
        let delta_m0_base = fadd(F1, fmul(eta, fcos(orbit_0.mean_anomaly)));
        Some(
            propagator::FullCoefficients {
                c5: c5,
                d2: d2,
                d3: d3,
                d4: d4,
                eta: eta,
                // (1 + η cos M₀)³
                delta_m0: fmul(fmul(delta_m0_base, delta_m0_base), delta_m0_base),
                sin_m0: fsin(orbit_0.mean_anomaly),
                // B* C₃ cos ω₀
                omgcof: fmul(fmul(drag_term, c3), fcos(orbit_0.argument_of_perigee)),
                // − ²/₃ p₆ B* / (e₀ η) if e₀ > 10⁻⁴, else 0
                xmcof: if flt(F1EM4, orbit_0.eccentricity) {
                    fdiv(fmul(fmul(FN_TWO_THIRDS, p6), drag_term), eeta)
                } else {
                    F0
                },
                // 𝕃₃ = D₂ + 2 C₁²
                t3cof: fadd(d2, fmul(F2, c1sq)),
                // 𝕃₄ = ¹/₄ (3 D₃ + C₁ (12 D₂ + 10 C₁²))
                t4cof: fmul(
                    F0_25,
                    fadd(fmul(F3, d3), fmul(c1, fadd(fmul(F12, d2), fmul(F10, c1sq)))),
                ),
                // 𝕃₅ = ¹/₅ (3 D₄ + 12 C₁ D₃ + 6 D₂² + 15 C₁² (2 D₂ + C₁²))
                t5cof: fmul(
                    F0_2,
                    fadd(
                        fadd(
                            fadd(fmul(F3, d4), fmul(fmul(F12, c1), d3)),
                            fmul(fmul(F6, d2), d2),
                        ),
                        fmul(fmul(F15, c1sq), fadd(fmul(F2, d2), c1sq)),
                    ),
                ),
            },
        )
    } else {
        None
    };
    propagator::Constants {
        geopotential: *geopotential,
        drag_term: drag_term,
        right_ascension_dot: p13,
        argument_of_perigee_dot: k14,
        mean_anomaly_dot: p14,
        c1: c1,
        c4: c4,
        k0: k0,
        k1: k1,
        method: propagator::Method::NearEarth {
            a0: a0,
            k2: k2,
            k3: k3,
            k4: k4,
            k5: k5,
            k6: k6,
            full: full,
        },
        orbit_0: orbit_0,
    }
}

impl propagator::Constants {
    /// The near-earth orbital elements at `t` minutes after the epoch.
    pub open spec fn spec_near_earth_orbital_elements(
        self,
        a0: u64,
        k2: u64,
        k3: u64,
        k4: u64,
        k5: u64,
        k6: u64,
        full: Option<propagator::FullCoefficients>,
        t: u64,
        p21: u64,
        p22: u64,
    ) -> Result<propagator::OrbitalElements, propagator::Error> {
        // p₂₃ = M₀ + Ṁ t
        let p23 = fadd(self.orbit_0.mean_anomaly, fmul(self.mean_anomaly_dot, t));
        let t2 = fmul(t, t);
        let secular = match full {
            Some(f) => {
                // δω = B* C₃ cos ω₀ t; δM = x ((1 + η cos p₂₃)³ − (1 + η cos M₀)³)
                let delta_omega = fmul(f.omgcof, t);
                let delta_m_base = fadd(F1, fmul(f.eta, fcos(p23)));
                let delta_m = fmul(
                    f.xmcof,
                    fsub(fmul(fmul(delta_m_base, delta_m_base), delta_m_base), f.delta_m0),
                );
                let p24 = fadd(delta_omega, delta_m);
                let mean_anomaly = fadd(p23, p24);
                let t3 = fmul(t2, t);
                let t4 = fmul(t3, t);
                SecularTerms {
                    mean_anomaly: mean_anomaly,
                    argument_of_perigee: fsub(p22, p24),
                    // 1 − C₁ t − D₂ t² − D₃ t³ − D₄ t⁴
                    a_factor: fsub(
                        fsub(fsub(fsub(F1, fmul(self.c1, t)), fmul(f.d2, t2)), fmul(f.d3, t3)),
                        fmul(f.d4, t4),
                    ),
                    // B* C₄ t + B* C₅ (sin M − sin M₀)
                    e_offset: fadd(
                        fmul(fmul(self.drag_term, self.c4), t),
                        fmul(fmul(self.drag_term, f.c5), fsub(fsin(mean_anomaly), f.sin_m0)),
                    ),
                    // k₁ t² + 𝕃₃ t³ + t⁴ (𝕃₄ + t 𝕃₅)
                    l_offset: fadd(
                        fadd(fmul(self.k1, t2), fmul(f.t3cof, t3)),
                        fmul(t4, fadd(f.t4cof, fmul(t, f.t5cof))),
                    ),
                }
            },
            None => {
                SecularTerms {
                    mean_anomaly: p23,
                    argument_of_perigee: p22,
                    a_factor: fsub(F1, fmul(self.c1, t)),
                    e_offset: fmul(fmul(self.drag_term, self.c4), t),
                    l_offset: fmul(self.k1, t2),
                }
            },
        };
        // p₂₅ = e₀ − (B* C₄ t + …)
        let p25 = fsub(self.orbit_0.eccentricity, secular.e_offset);
        if fle(F1, p25) || flt(p25, FN0_001) {
            Err(propagator::Error::DivergingEccentricity)
        } else {
            let eccentricity = if flt(p25, F1EM6) {
                F1EM6
            } else {
                p25
            };
            // a = a₀" (1 − C₁ t − …)²
            let a = fmul(a0, fmul(secular.a_factor, secular.a_factor));
            Ok(
                propagator::OrbitalElements {
                    orbit: propagator::Orbit {
                        inclination: self.orbit_0.inclination,
                        right_ascension: p21,
                        eccentricity: eccentricity,
                        argument_of_perigee: secular.argument_of_perigee,
                        mean_anomaly: secular.mean_anomaly,
                        // n = kₑ / a³ᐟ²
                        mean_motion: fdiv(self.geopotential.ke, fpow(a, F1_5)),
                    },
                    a: a,
                    // 𝕃 = M + n₀" (k₁ t² + …)
                    l: fadd(secular.mean_anomaly, fmul(self.orbit_0.mean_motion, secular.l_offset)),
                    p30: k2,
                    p31: k5,
                    p32: k4,
                    p33: k3,
                    p34: k6,
                },
            )
        }
    }

    /// The near-earth orbital elements at `t` minutes after the epoch.
    pub(crate) fn near_earth_orbital_elements(
        &self,
        a0: u64,
        k2: u64,
        k3: u64,
        k4: u64,
        k5: u64,
        k6: u64,
        full: &Option<propagator::FullCoefficients>,
        t: u64,
        p21: u64,
        p22: u64,
    ) -> (r: Result<propagator::OrbitalElements, propagator::Error>)
        ensures
            r == self.spec_near_earth_orbital_elements(a0, k2, k3, k4, k5, k6, *full, t, p21, p22),
    {
        // p₂₃ = M₀ + Ṁ t
        let p23 = fadd(self.orbit_0.mean_anomaly, fmul(self.mean_anomaly_dot, t));
        let t2 = fmul(t, t);
        let secular = match full {
            Some(f) => {
                // δω = B* C₃ cos ω₀ t; δM = x ((1 + η cos p₂₃)³ − (1 + η cos M₀)³)
                let delta_omega = fmul(f.omgcof, t);
                let delta_m_base = fadd(F1, fmul(f.eta, fcos(p23)));
                let delta_m = fmul(
                    f.xmcof,
                    fsub(fmul(fmul(delta_m_base, delta_m_base), delta_m_base), f.delta_m0),
                );
                let p24 = fadd(delta_omega, delta_m);
                let mean_anomaly = fadd(p23, p24);
                let t3 = fmul(t2, t);
                let t4 = fmul(t3, t);
                SecularTerms {
                    mean_anomaly: mean_anomaly,
                    argument_of_perigee: fsub(p22, p24),
                    // 1 − C₁ t − D₂ t² − D₃ t³ − D₄ t⁴
                    a_factor: fsub(
                        fsub(fsub(fsub(F1, fmul(self.c1, t)), fmul(f.d2, t2)), fmul(f.d3, t3)),
                        fmul(f.d4, t4),
                    ),
                    // B* C₄ t + B* C₅ (sin M − sin M₀)
                    e_offset: fadd(
                        fmul(fmul(self.drag_term, self.c4), t),
                        fmul(fmul(self.drag_term, f.c5), fsub(fsin(mean_anomaly), f.sin_m0)),
                    ),
                    // k₁ t² + 𝕃₃ t³ + t⁴ (𝕃₄ + t 𝕃₅)
                    l_offset: fadd(
                        fadd(fmul(self.k1, t2), fmul(f.t3cof, t3)),
                        fmul(t4, fadd(f.t4cof, fmul(t, f.t5cof))),
                    ),
                }
            },
            None => {
                SecularTerms {
                    mean_anomaly: p23,
                    argument_of_perigee: p22,
                    a_factor: fsub(F1, fmul(self.c1, t)),
                    e_offset: fmul(fmul(self.drag_term, self.c4), t),
                    l_offset: fmul(self.k1, t2),
                }
            },
        };
        // p₂₅ = e₀ − (B* C₄ t + …)
        let p25 = fsub(self.orbit_0.eccentricity, secular.e_offset);
        if fle(F1, p25) || flt(p25, FN0_001) {
            Err(propagator::Error::DivergingEccentricity)
        } else {
            let eccentricity = if flt(p25, F1EM6) {
                F1EM6
            } else {
                p25
            };
            // a = a₀" (1 − C₁ t − …)²
            let a = fmul(a0, fmul(secular.a_factor, secular.a_factor));
            Ok(
                propagator::OrbitalElements {
                    orbit: propagator::Orbit {
                        inclination: self.orbit_0.inclination,
                        right_ascension: p21,
                        eccentricity: eccentricity,
                        argument_of_perigee: secular.argument_of_perigee,
                        mean_anomaly: secular.mean_anomaly,
                        // n = kₑ / a³ᐟ²
                        mean_motion: fdiv(self.geopotential.ke, fpow(a, F1_5)),
                    },
                    a: a,
                    // 𝕃 = M + n₀" (k₁ t² + …)
                    l: fadd(secular.mean_anomaly, fmul(self.orbit_0.mean_motion, secular.l_offset)),
                    p30: k2,
                    p31: k5,
                    p32: k4,
                    p33: k3,
                    p34: k6,
                },
            )
        }
    }
}

} // verus!
