//! Lunisolar perturbations.
//!
//! Closed-form secular rates and long-period periodic coefficients induced
//! on the satellite's mean elements by a third body, characterised by its
//! eccentricity, mean motion, perturbation coefficient and geometry relative
//! to the satellite's orbital plane.

use vstd::prelude::*;
use crate::fp::{fadd, fcos, fdiv, flt, fmul, fneg, fsin, fsub};

verus! {

/// 1.0
pub const F1: u64 = 0x3FF0000000000000;

/// 0.0
pub const F0: u64 = 0x0000000000000000;

/// 0.5
pub const F0_5: u64 = 0x3FE0000000000000;

/// 0.25
pub const F0_25: u64 = 0x3FD0000000000000;

/// -0.5
pub const FN0_5: u64 = 0xBFE0000000000000;

/// 2.0
pub const F2: u64 = 0x4000000000000000;

/// -2.0
pub const FN2: u64 = 0xC000000000000000;

/// 3.0
pub const F3: u64 = 0x4008000000000000;

/// 6.0
pub const F6: u64 = 0x4018000000000000;

/// -6.0
pub const FN6: u64 = 0xC018000000000000;

/// 9.0
pub const F9: u64 = 0x4022000000000000;

/// 12.0
pub const F12: u64 = 0x4028000000000000;

/// 14.0
pub const F14: u64 = 0x402C000000000000;

/// -15.0
pub const FN15: u64 = 0xC02E000000000000;

/// -18.0
pub const FN18: u64 = 0xC032000000000000;

/// -21.0
pub const FN21: u64 = 0xC035000000000000;

/// 24.0
pub const F24: u64 = 0x4038000000000000;

/// -24.0
pub const FN24: u64 = 0xC038000000000000;

/// 5.2359877 × 10⁻² rad (3 degrees): below this inclination the nodal rate
/// induced by the body is zeroed
pub const INCLINATION_LOW: u64 = 0x3FAACEE9EEACD7A0;

/// π − 5.2359877 × 10⁻² rad
pub const INCLINATION_HIGH: u64 = 0x4008B6BFAC8979BA;

/// The long-period periodic coefficients retained for one third body, used
/// at propagation time to evaluate δe, δI, δM and the two rotation terms.
#[derive(Clone, Copy, Debug)]
pub struct Perturbations {
    /// The body's mean anomaly at epoch.
    pub mean_anomaly_0: u64,
    pub e2: u64,
    pub e3: u64,
    pub i2: u64,
    pub i3: u64,
    pub l2: u64,
    pub l3: u64,
    pub l4: u64,
    pub gh2: u64,
    pub gh3: u64,
    pub gh4: u64,
    pub h2: u64,
    pub h3: u64,
}

/// The secular rates induced by one third body on the satellite's mean
/// elements.
#[derive(Clone, Copy, Debug)]
pub struct Dots {
    pub eccentricity: u64,
    pub inclination: u64,
    pub mean_anomaly: u64,
    pub argument_of_perigee: u64,
    pub right_ascension: u64,
}

/// The long-period periodic coefficients and the secular rates induced by
/// one third body on the satellite's mean elements.
pub open spec fn spec_perturbations_and_dots(
    inclination: u64,
    eccentricity: u64,
    argument_of_perigee: u64,
    mean_motion: u64,
    third_body_inclination_sine: u64,
    third_body_inclination_cosine: u64,
    delta_right_ascension_sine: u64,
    delta_right_ascension_cosine: u64,
    third_body_eccentricity: u64,
    third_body_argument_of_perigee_sine: u64,
    third_body_argument_of_perigee_cosine: u64,
    perturbation_coefficient: u64,
    third_body_mean_motion: u64,
    third_body_mean_anomaly_0: u64,
    p1: u64,
    b0: u64,
) -> (Perturbations, Dots) {
    let cosi = fcos(inclination);
    let sini = fsin(inclination);
    let cosomm = fcos(argument_of_perigee);
    let sinomm = fsin(argument_of_perigee);
    let emsq = fmul(eccentricity, eccentricity);
    let a1 = fadd(
        fmul(third_body_argument_of_perigee_cosine, delta_right_ascension_cosine),
        fmul(
            fmul(third_body_argument_of_perigee_sine, third_body_inclination_cosine),
            delta_right_ascension_sine,
        ),
    );
    let a3 = fadd(
        fmul(fneg(third_body_argument_of_perigee_sine), delta_right_ascension_cosine),
        fmul(
            fmul(third_body_argument_of_perigee_cosine, third_body_inclination_cosine),
            delta_right_ascension_sine,
        ),
    );
    let a7 = fadd(
        fmul(fneg(third_body_argument_of_perigee_cosine), delta_right_ascension_sine),
        fmul(
            fmul(third_body_argument_of_perigee_sine, third_body_inclination_cosine),
            delta_right_ascension_cosine,
        ),
    );
    let a8 = fmul(third_body_argument_of_perigee_sine, third_body_inclination_sine);
    let a9 = fadd(
        fmul(third_body_argument_of_perigee_sine, delta_right_ascension_sine),
        fmul(
            fmul(third_body_argument_of_perigee_cosine, third_body_inclination_cosine),
            delta_right_ascension_cosine,
        ),
    );
    let a10 = fmul(third_body_argument_of_perigee_cosine, third_body_inclination_sine);
    let a2 = fadd(fmul(cosi, a7), fmul(sini, a8));
    let a4 = fadd(fmul(cosi, a9), fmul(sini, a10));
    let a5 = fadd(fmul(fneg(sini), a7), fmul(cosi, a8));
    let a6 = fadd(fmul(fneg(sini), a9), fmul(cosi, a10));
    let x1 = fadd(fmul(a1, cosomm), fmul(a2, sinomm));
    let x2 = fadd(fmul(a3, cosomm), fmul(a4, sinomm));
    let x3 = fadd(fmul(fneg(a1), sinomm), fmul(a2, cosomm));
    let x4 = fadd(fmul(fneg(a3), sinomm), fmul(a4, cosomm));
    let x5 = fmul(a5, sinomm);
    let x6 = fmul(a6, sinomm);
    let x7 = fmul(a5, cosomm);
    let x8 = fmul(a6, cosomm);
    // z₃₁ = 12 x₁² − 3 x₃²; z₃₂ = 24 x₁ x₂ − 6 x₃ x₄; z₃₃ = 12 x₂² − 3 x₄²
    let z31 = fsub(fmul(fmul(F12, x1), x1), fmul(fmul(F3, x3), x3));
    let z32 = fsub(fmul(fmul(F24, x1), x2), fmul(fmul(F6, x3), x4));
    let z33 = fsub(fmul(fmul(F12, x2), x2), fmul(fmul(F3, x4), x4));
    // zₖ' = 3 (aᵢ aᵢ + aⱼ aⱼ) + z₃ₖ e₀², then zₖ = 2 zₖ' + p₁ z₃ₖ
    let z1a = fadd(fmul(F3, fadd(fmul(a1, a1), fmul(a2, a2))), fmul(z31, emsq));
    let z2a = fadd(fmul(F6, fadd(fmul(a1, a3), fmul(a2, a4))), fmul(z32, emsq));
    let z3a = fadd(fmul(F3, fadd(fmul(a3, a3), fmul(a4, a4))), fmul(z33, emsq));
    let z11 = fadd(
        fmul(fmul(FN6, a1), a5),
        fmul(emsq, fsub(fmul(fmul(FN24, x1), x7), fmul(fmul(F6, x3), x5))),
    );
    let z12 = fadd(
        fmul(FN6, fadd(fmul(a1, a6), fmul(a3, a5))),
        fmul(
            emsq,
            fsub(
                fmul(FN24, fadd(fmul(x2, x7), fmul(x1, x8))),
                fmul(F6, fadd(fmul(x3, x6), fmul(x4, x5))),
            ),
        ),
    );
    let z13 = fadd(
        fmul(fmul(FN6, a3), a6),
        fmul(emsq, fsub(fmul(fmul(FN24, x2), x8), fmul(fmul(F6, x4), x6))),
    );
    let z21 = fadd(
        fmul(fmul(F6, a2), a5),
        fmul(emsq, fsub(fmul(fmul(F24, x1), x5), fmul(fmul(F6, x3), x7))),
    );
    let z22 = fadd(
        fmul(F6, fadd(fmul(a4, a5), fmul(a2, a6))),
        fmul(
            emsq,
            fsub(
                fmul(F24, fadd(fmul(x2, x5), fmul(x1, x6))),
                fmul(F6, fadd(fmul(x4, x7), fmul(x3, x8))),
            ),
        ),
    );
    let z23 = fadd(
        fmul(fmul(F6, a4), a6),
        fmul(emsq, fsub(fmul(fmul(F24, x2), x6), fmul(fmul(F6, x4), x8))),
    );
    let z1 = fadd(fadd(z1a, z1a), fmul(p1, z31));
    let z2 = fadd(fadd(z2a, z2a), fmul(p1, z32));
    let z3 = fadd(fadd(z3a, z3a), fmul(p1, z33));
    // s₁ … s₇
    let xnoi = fdiv(F1, mean_motion);
    let s3 = fmul(perturbation_coefficient, xnoi);
    let s2 = fdiv(fmul(FN0_5, s3), b0);
    let s4 = fmul(s3, b0);
    let s1 = fmul(fmul(FN15, eccentricity), s4);
    let s5 = fadd(fmul(x1, x3), fmul(x2, x4));
    let s6 = fadd(fmul(x2, x3), fmul(x1, x4));
    let s7 = fsub(fmul(x2, x4), fmul(x1, x3));
    // secular rates induced by the body
    let sgh = fmul(fmul(s4, third_body_mean_motion), fsub(fadd(z31, z33), F6));
    let sh = if flt(inclination, INCLINATION_LOW) || flt(INCLINATION_HIGH, inclination) {
        F0
    } else {
        fdiv(fmul(fmul(fneg(third_body_mean_motion), s2), fadd(z21, z23)), sini)
    };
    (
        Perturbations {
            mean_anomaly_0: third_body_mean_anomaly_0,
            e2: fmul(fmul(F2, s1), s6),
            e3: fmul(fmul(F2, s1), s7),
            i2: fmul(fmul(F2, s2), z12),
            i3: fmul(fmul(F2, s2), fsub(z13, z11)),
            l2: fmul(fmul(FN2, s3), z2),
            l3: fmul(fmul(FN2, s3), fsub(z3, z1)),
            l4: fmul(fmul(fmul(FN2, s3), fsub(FN21, fmul(F9, emsq))), third_body_eccentricity),
            gh2: fmul(fmul(F2, s4), z32),
            gh3: fmul(fmul(F2, s4), fsub(z33, z31)),
            gh4: fmul(fmul(FN18, s4), third_body_eccentricity),
            h2: fmul(fmul(FN2, s2), z22),
            h3: fmul(fmul(FN2, s2), fsub(z23, z21)),
        },
        Dots {
            eccentricity: fmul(fmul(s1, third_body_mean_motion), s5),
            inclination: fmul(fmul(s2, third_body_mean_motion), fadd(z11, z13)),
            mean_anomaly: fmul(
                fmul(fneg(third_body_mean_motion), s3),
                fsub(fsub(fadd(z1, z3), F14), fmul(F6, emsq)),
            ),
            argument_of_perigee: fsub(sgh, fmul(cosi, sh)),
            right_ascension: sh,
        },
    )
}

/// The long-period periodic coefficients and the secular rates induced by
/// one third body on the satellite's mean elements.
#[verifier::when_used_as_spec(spec_perturbations_and_dots)]
pub fn perturbations_and_dots(
    inclination: u64,
    eccentricity: u64,
    argument_of_perigee: u64,
    mean_motion: u64,
    third_body_inclination_sine: u64,
    third_body_inclination_cosine: u64,
    delta_right_ascension_sine: u64,
    delta_right_ascension_cosine: u64,
    third_body_eccentricity: u64,
    third_body_argument_of_perigee_sine: u64,
    third_body_argument_of_perigee_cosine: u64,
    perturbation_coefficient: u64,
    third_body_mean_motion: u64,
    third_body_mean_anomaly_0: u64,
    p1: u64,
    b0: u64,
) -> (r: (Perturbations, Dots))
    ensures
        r == spec_perturbations_and_dots(
            inclination,
            eccentricity,
            argument_of_perigee,
            mean_motion,
            third_body_inclination_sine,
            third_body_inclination_cosine,
            delta_right_ascension_sine,
            delta_right_ascension_cosine,
            third_body_eccentricity,
            third_body_argument_of_perigee_sine,
            third_body_argument_of_perigee_cosine,
            perturbation_coefficient,
            third_body_mean_motion,
            third_body_mean_anomaly_0,
            p1,
            b0,
        ),
{
    let cosi = fcos(inclination);
    let sini = fsin(inclination);
    let cosomm = fcos(argument_of_perigee);
    let sinomm = fsin(argument_of_perigee);
    let emsq = fmul(eccentricity, eccentricity);
    let a1 = fadd(
        fmul(third_body_argument_of_perigee_cosine, delta_right_ascension_cosine),
        fmul(
            fmul(third_body_argument_of_perigee_sine, third_body_inclination_cosine),
            delta_right_ascension_sine,
        ),
    );
    let a3 = fadd(
        fmul(fneg(third_body_argument_of_perigee_sine), delta_right_ascension_cosine),
        fmul(
            fmul(third_body_argument_of_perigee_cosine, third_body_inclination_cosine),
            delta_right_ascension_sine,
        ),
    );
    let a7 = fadd(
        fmul(fneg(third_body_argument_of_perigee_cosine), delta_right_ascension_sine),
        fmul(
            fmul(third_body_argument_of_perigee_sine, third_body_inclination_cosine),
            delta_right_ascension_cosine,
        ),
    );
    let a8 = fmul(third_body_argument_of_perigee_sine, third_body_inclination_sine);
    let a9 = fadd(
        fmul(third_body_argument_of_perigee_sine, delta_right_ascension_sine),
        fmul(
            fmul(third_body_argument_of_perigee_cosine, third_body_inclination_cosine),
            delta_right_ascension_cosine,
        ),
    );
    let a10 = fmul(third_body_argument_of_perigee_cosine, third_body_inclination_sine);
    let a2 = fadd(fmul(cosi, a7), fmul(sini, a8));
    let a4 = fadd(fmul(cosi, a9), fmul(sini, a10));
    let a5 = fadd(fmul(fneg(sini), a7), fmul(cosi, a8));
    let a6 = fadd(fmul(fneg(sini), a9), fmul(cosi, a10));
    let x1 = fadd(fmul(a1, cosomm), fmul(a2, sinomm));
    let x2 = fadd(fmul(a3, cosomm), fmul(a4, sinomm));
    let x3 = fadd(fmul(fneg(a1), sinomm), fmul(a2, cosomm));
    let x4 = fadd(fmul(fneg(a3), sinomm), fmul(a4, cosomm));
    let x5 = fmul(a5, sinomm);
    let x6 = fmul(a6, sinomm);
    let x7 = fmul(a5, cosomm);
    let x8 = fmul(a6, cosomm);
    // z₃₁ = 12 x₁² − 3 x₃²; z₃₂ = 24 x₁ x₂ − 6 x₃ x₄; z₃₃ = 12 x₂² − 3 x₄²
    let z31 = fsub(fmul(fmul(F12, x1), x1), fmul(fmul(F3, x3), x3));
    let z32 = fsub(fmul(fmul(F24, x1), x2), fmul(fmul(F6, x3), x4));
    let z33 = fsub(fmul(fmul(F12, x2), x2), fmul(fmul(F3, x4), x4));
    // zₖ' = 3 (aᵢ aᵢ + aⱼ aⱼ) + z₃ₖ e₀², then zₖ = 2 zₖ' + p₁ z₃ₖ
    let z1a = fadd(fmul(F3, fadd(fmul(a1, a1), fmul(a2, a2))), fmul(z31, emsq));
    let z2a = fadd(fmul(F6, fadd(fmul(a1, a3), fmul(a2, a4))), fmul(z32, emsq));
    let z3a = fadd(fmul(F3, fadd(fmul(a3, a3), fmul(a4, a4))), fmul(z33, emsq));
    let z11 = fadd(
        fmul(fmul(FN6, a1), a5),
        fmul(emsq, fsub(fmul(fmul(FN24, x1), x7), fmul(fmul(F6, x3), x5))),
    );
    let z12 = fadd(
        fmul(FN6, fadd(fmul(a1, a6), fmul(a3, a5))),
        fmul(
            emsq,
            fsub(
                fmul(FN24, fadd(fmul(x2, x7), fmul(x1, x8))),
                fmul(F6, fadd(fmul(x3, x6), fmul(x4, x5))),
            ),
        ),
    );
    let z13 = fadd(
        fmul(fmul(FN6, a3), a6),
        fmul(emsq, fsub(fmul(fmul(FN24, x2), x8), fmul(fmul(F6, x4), x6))),
    );
    let z21 = fadd(
        fmul(fmul(F6, a2), a5),
        fmul(emsq, fsub(fmul(fmul(F24, x1), x5), fmul(fmul(F6, x3), x7))),
    );
    let z22 = fadd(
        fmul(F6, fadd(fmul(a4, a5), fmul(a2, a6))),
        fmul(
            emsq,
            fsub(
                fmul(F24, fadd(fmul(x2, x5), fmul(x1, x6))),
                fmul(F6, fadd(fmul(x4, x7), fmul(x3, x8))),
            ),
        ),
    );
    let z23 = fadd(
        fmul(fmul(F6, a4), a6),
        fmul(emsq, fsub(fmul(fmul(F24, x2), x6), fmul(fmul(F6, x4), x8))),
    );
    let z1 = fadd(fadd(z1a, z1a), fmul(p1, z31));
    let z2 = fadd(fadd(z2a, z2a), fmul(p1, z32));
    let z3 = fadd(fadd(z3a, z3a), fmul(p1, z33));
    // s₁ … s₇
    let xnoi = fdiv(F1, mean_motion);
    let s3 = fmul(perturbation_coefficient, xnoi);
    let s2 = fdiv(fmul(FN0_5, s3), b0);
    let s4 = fmul(s3, b0);
    let s1 = fmul(fmul(FN15, eccentricity), s4);
    let s5 = fadd(fmul(x1, x3), fmul(x2, x4));
    let s6 = fadd(fmul(x2, x3), fmul(x1, x4));
    let s7 = fsub(fmul(x2, x4), fmul(x1, x3));
    // secular rates induced by the body
    let sgh = fmul(fmul(s4, third_body_mean_motion), fsub(fadd(z31, z33), F6));
    let sh = if flt(inclination, INCLINATION_LOW) || flt(INCLINATION_HIGH, inclination) {
        F0
    } else {
        fdiv(fmul(fmul(fneg(third_body_mean_motion), s2), fadd(z21, z23)), sini)
    };
    (
        Perturbations {
            mean_anomaly_0: third_body_mean_anomaly_0,
            e2: fmul(fmul(F2, s1), s6),
            e3: fmul(fmul(F2, s1), s7),
            i2: fmul(fmul(F2, s2), z12),
            i3: fmul(fmul(F2, s2), fsub(z13, z11)),
            l2: fmul(fmul(FN2, s3), z2),
            l3: fmul(fmul(FN2, s3), fsub(z3, z1)),
            l4: fmul(fmul(fmul(FN2, s3), fsub(FN21, fmul(F9, emsq))), third_body_eccentricity),
            gh2: fmul(fmul(F2, s4), z32),
            gh3: fmul(fmul(F2, s4), fsub(z33, z31)),
            gh4: fmul(fmul(FN18, s4), third_body_eccentricity),
            h2: fmul(fmul(FN2, s2), z22),
            h3: fmul(fmul(FN2, s2), fsub(z23, z21)),
        },
        Dots {
            eccentricity: fmul(fmul(s1, third_body_mean_motion), s5),
            inclination: fmul(fmul(s2, third_body_mean_motion), fadd(z11, z13)),
            mean_anomaly: fmul(
                fmul(fneg(third_body_mean_motion), s3),
                fsub(fsub(fadd(z1, z3), F14), fmul(F6, emsq)),
            ),
            argument_of_perigee: fsub(sgh, fmul(cosi, sh)),
            right_ascension: sh,
        },
    )
}

impl Perturbations {
    /// The long-period periodic effects of the body at an elapsed time `t`:
    /// δe, δI, δM and the rotation terms l₄ and l₅.
    pub open spec fn spec_long_period_periodic_effects(
        &self,
        third_body_eccentricity: u64,
        third_body_mean_motion: u64,
        t: u64,
    ) -> (u64, u64, u64, u64, u64) {
        let zm = fadd(self.mean_anomaly_0, fmul(third_body_mean_motion, t));
        // zf = zm + 2 eₓ sin zm
        let zf = fadd(zm, fmul(fmul(F2, third_body_eccentricity), fsin(zm)));
        let sinzf = fsin(zf);
        // f₂ = ¹/₂ sin²zf − ¹/₄; f₃ = − ¹/₂ sin zf cos zf
        let f2 = fsub(fmul(fmul(F0_5, sinzf), sinzf), F0_25);
        let f3 = fmul(fmul(FN0_5, sinzf), fcos(zf));
        (
            fadd(fmul(self.e2, f2), fmul(self.e3, f3)),
            fadd(fmul(self.i2, f2), fmul(self.i3, f3)),
            fadd(fadd(fmul(self.l2, f2), fmul(self.l3, f3)), fmul(self.l4, sinzf)),
            fadd(fadd(fmul(self.gh2, f2), fmul(self.gh3, f3)), fmul(self.gh4, sinzf)),
            fadd(fmul(self.h2, f2), fmul(self.h3, f3)),
        )
    }

    /// The long-period periodic effects of the body at an elapsed time `t`:
    /// δe, δI, δM and the rotation terms l₄ and l₅.
    #[verifier::when_used_as_spec(spec_long_period_periodic_effects)]
    pub fn long_period_periodic_effects(
        &self,
        third_body_eccentricity: u64,
        third_body_mean_motion: u64,
        t: u64,
    ) -> (r: (u64, u64, u64, u64, u64))
        ensures
            r == self.spec_long_period_periodic_effects(
                third_body_eccentricity,
                third_body_mean_motion,
                t,
            ),
    {
        let zm = fadd(self.mean_anomaly_0, fmul(third_body_mean_motion, t));
        // zf = zm + 2 eₓ sin zm
        let zf = fadd(zm, fmul(fmul(F2, third_body_eccentricity), fsin(zm)));
        let sinzf = fsin(zf);
        // f₂ = ¹/₂ sin²zf − ¹/₄; f₃ = − ¹/₂ sin zf cos zf
        let f2 = fsub(fmul(fmul(F0_5, sinzf), sinzf), F0_25);
        let f3 = fmul(fmul(FN0_5, sinzf), fcos(zf));
        (
            fadd(fmul(self.e2, f2), fmul(self.e3, f3)),
            fadd(fmul(self.i2, f2), fmul(self.i3, f3)),
            fadd(fadd(fmul(self.l2, f2), fmul(self.l3, f3)), fmul(self.l4, sinzf)),
            fadd(fadd(fmul(self.gh2, f2), fmul(self.gh3, f3)), fmul(self.gh4, sinzf)),
            fadd(fmul(self.h2, f2), fmul(self.h3, f3)),
        )
    }
}

} // verus!
