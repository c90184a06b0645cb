//! The deep-space method: orbits whose period is at least 225 minutes.
//!
//! Lunisolar secular rates, the 24-hour and 12-hour tesseral resonance
//! coefficient sets, and the fixed-step resonance integrator.

use vstd::prelude::*;
use crate::fp::{
    fabs, fadd, fatan2, fcos, fdiv, fle, flt, fmax, fmul, fneg, fpow, frem, frem_euclid, fsin,
    fsqrt, fsub, spec_is_sign_positive, spec_is_zero,
};
use crate::model;
use crate::propagator;
use crate::third_body;

verus! {

/// eccentricity of the sun's apparent orbit
pub const SOLAR_ECCENTRICITY: u64 = 0x3F9126E978D4FDF4;

/// eccentricity of the moon's orbit
pub const LUNAR_ECCENTRICITY: u64 = 0x3FAC1BDA5119CE07;

/// mean motion of the sun, rad.min^-1
pub const SOLAR_MEAN_MOTION: u64 = 0x3EE90D67FE8935DE;

/// mean motion of the moon, rad.min^-1
pub const LUNAR_MEAN_MOTION: u64 = 0x3F24C16ADE6329C8;

/// solar perturbation coefficient, rad.min^-1
pub const SOLAR_PERTURBATION_COEFFICIENT: u64 = 0x3EC90D6A94008E71;

/// lunar perturbation coefficient, rad.min^-1
pub const LUNAR_PERTURBATION_COEFFICIENT: u64 = 0x3EA0186CE793194B;

/// integration step, minutes
pub const DELTA_T: u64 = 0x4086800000000000;

/// backward integration step, minutes
pub const FN_DELTA_T: u64 = 0xC086800000000000;

/// 720^2 / 2
pub const HALF_DELTA_T_SQUARED: u64 = 0x410FA40000000000;

/// lambda_31
pub const LAMBDA31: u64 = 0x3FC0CEBC662248D5;

/// lambda_22
pub const LAMBDA22: u64 = 0x400713164261A460;

/// lambda_33
pub const LAMBDA33: u64 = 0x3FD7F77E9C682B0D;

/// G_22
pub const G22: u64 = 0x401713164261A460;

/// G_32
pub const G32: u64 = 0x3FEE7A2265B088F4;

/// G_44
pub const G44: u64 = 0x3FFCD2F1744C0237;

/// G_52
pub const G52: u64 = 0x3FF0D0364388EBCC;

/// G_54
pub const G54: u64 = 0x4011A4C04BB50A38;

/// 365.25
pub const F365_25: u64 = 0x4076D40000000000;

/// 100.0
pub const F100: u64 = 0x4059000000000000;

/// 6.2565837
pub const F6_2565837: u64 = 0x401906BDE0A0BF28;

/// 0.017201977
pub const F0_017201977: u64 = 0x3F919D652290F0F6;

/// 4.5236020
pub const F4_5236020: u64 = 0x4012182B1F687B14;

/// 9.2422029e-4
pub const F9_2422029EM4: u64 = 0x3F4E48EBF5BDA204;

/// 0.91375164
pub const F0_91375164: u64 = 0x3FED3D74144EEC77;

/// 0.03568096
pub const F0_03568096: u64 = 0x3FA244C658946BB2;

/// 0.089683511
pub const F0_089683511: u64 = 0x3FB6F57FA2BC46DC;

/// 5.8351514
pub const F5_8351514: u64 = 0x40175731EDB8D59F;

/// 0.001944368
pub const F0_001944368: u64 = 0x3F5FDB453E2B3C77;

/// sine of the sun's apparent inclination
pub const ZSINIS: u64 = 0x3FD976714B71C367;

/// cosine of the sun's apparent inclination
pub const ZCOSIS: u64 = 0x3FED5BBD502D140A;

/// sine of the sun's argument of perigee
pub const ZSINGS: u64 = 0xBFEF63680F0805B3;

/// cosine of the sun's argument of perigee
pub const ZCOSGS: u64 = 0x3FC8E8576CCE5F74;

/// -1.1151842
pub const FN1_1151842: u64 = 0xBFF1D7CB63404139;

/// 0.228027132
pub const F0_228027132: u64 = 0x3FCD2FFE394534D7;

/// upper bound of the 24-hour resonance band, rad.min^-1
pub const ONE_DAY_UPPER: u64 = 0x3F757254BEF0AC80;

/// lower bound of the 24-hour resonance band, rad.min^-1
pub const ONE_DAY_LOWER: u64 = 0x3F6C9871032B0B4F;

/// lower bound of the 12-hour resonance band, rad.min^-1
pub const HALF_DAY_LOWER: u64 = 0x3F80EA9E6EEB7026;

/// upper bound of the 12-hour resonance band, rad.min^-1
pub const HALF_DAY_UPPER: u64 = 0x3F82EC6BCE8533B1;

/// 0.5
pub const F0_5: u64 = 0x3FE0000000000000;

/// -0.5
pub const FN0_5: u64 = 0xBFE0000000000000;

/// 0.9375
pub const F0_9375: u64 = 0x3FEE000000000000;

/// 0.75
pub const F0_75: u64 = 0x3FE8000000000000;

/// 2.1460748e-6
pub const F2_1460748EM6: u64 = 0x3EC200A9192CB6B5;

/// 1.7891679e-6
pub const F1_7891679EM6: u64 = 0x3EBE046AE8FBE45D;

/// 2.2123015e-7
pub const F2_2123015EM7: u64 = 0x3E8DB168FA8D3300;

/// 0.8125
pub const F0_8125: u64 = 0x3FEA000000000000;

/// -2.5
pub const FN2_5: u64 = 0xC004000000000000;

/// 1.875
pub const F1_875: u64 = 0x3FFE000000000000;

/// -1.875
pub const FN1_875: u64 = 0xBFFE000000000000;

/// 6.60937
pub const F6_60937: u64 = 0x401A6FFEB074A772;

/// -6.0
pub const FN6: u64 = 0xC018000000000000;

/// 0.65
pub const F0_65: u64 = 0x3FE4CCCCCCCCCCCD;

/// 0.7
pub const F0_7: u64 = 0x3FE6666666666666;

/// 0.715
pub const F0_715: u64 = 0x3FE6E147AE147AE1;

/// -0.306
pub const FN0_306: u64 = 0xBFD395810624DD2F;

/// 0.64
pub const F0_64: u64 = 0x3FE47AE147AE147B;

/// 0.44
pub const F0_44: u64 = 0x3FDC28F5C28F5C29;

/// 3.7393792e-7
pub const F3_7393792EM7: u64 = 0x3E9918345D4AFD1B;

/// 7.3636953e-9
pub const F7_3636953EM9: u64 = 0x3E3FA077F68BE0BD;

/// 1.1428639e-7
pub const F1_1428639EM7: u64 = 0x3E7EADB36F6AE289;

/// 2.1765803e-9
pub const F2_1765803EM9: u64 = 0x3E22B259C74BF4B7;

/// 35.0
pub const F35: u64 = 0x4041800000000000;

/// 39.375
pub const F39_375: u64 = 0x4043B00000000000;

/// 9.84375
pub const F9_84375: u64 = 0x4023B00000000000;

/// 0.33333333
pub const F0_33333333: u64 = 0x3FD5555551C112DA;

/// 4.92187512
pub const F4_92187512: u64 = 0x4013B000080D9595;

/// 6.56250012
pub const F6_56250012: u64 = 0x401A4000080D9595;

/// 29.53125
pub const F29_53125: u64 = 0x403D880000000000;

/// 2/3, the exponent of the Kepler radius
pub const TWO_THIRDS: u64 = 0x3FE5555555555555;

/// inclination threshold of the Lyddane branch, rad
pub const F0_2: u64 = 0x3FC999999999999A;

/// 1.0e-6
pub const F1EM6: u64 = 0x3EB0C6F7A0B5ED8D;

/// -0.001
pub const FN0_001: u64 = 0xBF50624DD2F1A9FC;

/// 1.5
pub const F1_5: u64 = 0x3FF8000000000000;

/// 1.5e-12
pub const F1_5EM12: u64 = 0x3D7A636641C4DF1A;

/// -0.25
pub const FN0_25: u64 = 0xBFD0000000000000;

/// 0.0
pub const F0: u64 = 0x0000000000000000;

/// 1.0
pub const F1: u64 = 0x3FF0000000000000;

/// 2.0
pub const F2: u64 = 0x4000000000000000;

/// -2.0
pub const FN2: u64 = 0xC000000000000000;

/// 3.0
pub const F3: u64 = 0x4008000000000000;

/// 4.0
pub const F4: u64 = 0x4010000000000000;

/// 5.0
pub const F5: u64 = 0x4014000000000000;

/// 6.0
pub const F6: u64 = 0x4018000000000000;

/// 7.0
pub const F7: u64 = 0x401C000000000000;

/// 8.0
pub const F8: u64 = 0x4020000000000000;

/// 10.0
pub const F10: u64 = 0x4024000000000000;

/// 12.0
pub const F12: u64 = 0x4028000000000000;

/// -12.0
pub const FN12: u64 = 0xC028000000000000;

/// 3.616
pub const G211_LA: u64 = 0x400CED916872B021;

/// -13.247
pub const G211_LB: u64 = 0xC02A7E76C8B43958;

/// 16.29
pub const G211_LC: u64 = 0x40304A3D70A3D70A;

/// -72.099
pub const G211_HA: u64 = 0xC052065604189375;

/// 331.819
pub const G211_HB: u64 = 0x4074BD1A9FBE76C9;

/// -508.738
pub const G211_HC: u64 = 0xC07FCBCED916872B;

/// 266.724
pub const G211_HD: u64 = 0x4070AB95810624DD;

/// -19.302
pub const G310_LA: u64 = 0xC0334D4FDF3B645A;

/// 117.39
pub const G310_LB: u64 = 0x405D58F5C28F5C29;

/// -228.419
pub const G310_LC: u64 = 0xC06C8D6872B020C5;

/// 156.591
pub const G310_LD: u64 = 0x406392E978D4FDF4;

/// -346.844
pub const G310_HA: u64 = 0xC075AD810624DD2F;

/// 1582.851
pub const G310_HB: u64 = 0x4098BB676C8B4396;

/// -2415.925
pub const G310_HC: u64 = 0xC0A2DFD99999999A;

/// 1246.113
pub const G310_HD: u64 = 0x40937873B645A1CB;

/// -18.9068
pub const G322_LA: u64 = 0xC032E8240B780347;

/// 109.7927
pub const G322_LB: u64 = 0x405B72BB98C7E282;

/// -214.6334
pub const G322_LC: u64 = 0xC06AD444D013A92A;

/// 146.5816
pub const G322_LD: u64 = 0x4062529C779A6B51;

/// -342.585
pub const G322_HA: u64 = 0xC075695C28F5C28F;

/// 1554.908
pub const G322_HB: u64 = 0x40984BA1CAC08312;

/// -2366.899
pub const G322_HC: u64 = 0xC0A27DCC49BA5E35;

/// 1215.972
pub const G322_HD: u64 = 0x4092FFE353F7CED9;

/// -41.122
pub const G410_LA: u64 = 0xC0448F9DB22D0E56;

/// 242.694
pub const G410_LB: u64 = 0x406E56353F7CED91;

/// -471.094
pub const G410_LC: u64 = 0xC07D71810624DD2F;

/// 313.953
pub const G410_LD: u64 = 0x40739F3F7CED9168;

/// -1052.797
pub const G410_HA: u64 = 0xC090733020C49BA6;

/// 4758.686
pub const G410_HB: u64 = 0x40B296AF9DB22D0E;

/// -7193.992
pub const G410_HC: u64 = 0xC0BC19FDF3B645A2;

/// 3651.957
pub const G410_HD: u64 = 0x40AC87E9FBE76C8B;

/// -146.407
pub const G422_LA: u64 = 0xC0624D0624DD2F1B;

/// 841.88
pub const G422_LB: u64 = 0x408A4F0A3D70A3D7;

/// -1629.014
pub const G422_LC: u64 = 0xC099740E56041893;

/// 1083.435
pub const G422_LD: u64 = 0x4090EDBD70A3D70A;

/// -3581.69
pub const G422_HA: u64 = 0xC0ABFB6147AE147B;

/// 16178.11
pub const G422_HB: u64 = 0x40CF990E147AE148;

/// -24462.77
pub const G422_HC: u64 = 0xC0D7E3B147AE147B;

/// 12422.52
pub const G422_HD: u64 = 0x40C843428F5C28F6;

/// -532.114
pub const G520_LA: u64 = 0xC080A0E978D4FDF4;

/// 3017.977
pub const G520_LB: u64 = 0x40A793F439581062;

/// -5740.032
pub const G520_LC: u64 = 0xC0B66C083126E979;

/// 3708.276
pub const G520_LD: u64 = 0x40ACF88D4FDF3B64;

/// 1464.74
pub const G520_MA: u64 = 0x4096E2F5C28F5C29;

/// -4664.75
pub const G520_MB: u64 = 0xC0B238C000000000;

/// 3763.64
pub const G520_MC: u64 = 0x40AD6747AE147AE1;

/// -5149.66
pub const G520_HA: u64 = 0xC0B41DA8F5C28F5C;

/// 29936.92
pub const G520_HB: u64 = 0x40DD3C3AE147AE14;

/// -54087.36
pub const G520_HC: u64 = 0xC0EA68EB851EB852;

/// 31324.56
pub const G520_HD: u64 = 0x40DE9723D70A3D71;

/// -853.666
pub const G532_LA: u64 = 0xC08AAD53F7CED917;

/// 4690.25
pub const G532_LB: u64 = 0x40B2524000000000;

/// -8624.77
pub const G532_LC: u64 = 0xC0C0D8628F5C28F6;

/// 5341.4
pub const G532_LD: u64 = 0x40B4DD6666666666;

/// -40023.88
pub const G532_HA: u64 = 0xC0E38AFC28F5C28F;

/// 170470.89
pub const G532_HB: u64 = 0x4104CF371EB851EC;

/// -242699.48
pub const G532_HC: u64 = 0xC10DA05BD70A3D71;

/// 115605.82
pub const G532_HD: u64 = 0x40FC395D1EB851EC;

/// -822.71072
pub const G521_LA: u64 = 0xC089B5AF8DF7A4E8;

/// 4568.6173
pub const G521_LB: u64 = 0x40B1D89E075F6FD2;

/// -8491.4146
pub const G521_LC: u64 = 0xC0C095B5119CE076;

/// 5337.524
pub const G521_LD: u64 = 0x40B4D98624DD2F1B;

/// -51752.104
pub const G521_HA: u64 = 0xC0E9450353F7CED9;

/// 218913.95
pub const G521_HB: u64 = 0x410AB90F9999999A;

/// -309468.16
pub const G521_HC: u64 = 0xC112E370A3D70A3D;

/// 146349.42
pub const G521_HD: u64 = 0x4101DD6B5C28F5C3;

/// -919.2277
pub const G533_LA: u64 = 0xC08CB9D25460AA65;

/// 4988.61
pub const G533_LB: u64 = 0x40B37C9C28F5C28F;

/// -9064.77
pub const G533_LC: u64 = 0xC0C1B4628F5C28F6;

/// 5542.21
pub const G533_LD: u64 = 0x40B5A635C28F5C29;

/// -37995.78
pub const G533_HA: u64 = 0xC0E28D78F5C28F5C;

/// 161616.52
pub const G533_HB: u64 = 0x4103BA8428F5C28F;

/// -229838.2
pub const G533_HC: u64 = 0xC10C0E719999999A;

/// 109377.94
pub const G533_HD: u64 = 0x40FAB41F0A3D70A4;

/// The largest number of 720-minute steps the resonance integrator takes in
/// one call; a propagation further than 2³² steps from the state's time
/// evaluates the predictor at the step it reached.
pub const STEP_LIMIT: u64 = 0x0000000100000000;

/// The state of the resonance integrator: the time reached, in minutes from
/// the epoch, and the mean motion and resonance angle λ there.
///
/// The state is owned by one propagation sequence; the times it is asked to
/// reach must grow in magnitude and keep one sign. Treat the fields as
/// read-only: they are public so that contracts and callers can read them.
#[derive(Clone, Copy, Debug)]
pub struct ResonanceState {
    pub t: u64,
    pub mean_motion: u64,
    pub lambda: u64,
}

/// Whether the integrator state accepts a target time: once the state has
/// left the epoch, the target must have the sign of the time reached and
/// must not be smaller in magnitude.
pub open spec fn spec_accepts_target(state: ResonanceState, t: u64) -> bool {
    if spec_is_zero(state.t) {
        true
    } else {
        spec_is_sign_positive(state.t) == spec_is_sign_positive(t) && !flt(
            fabs(t),
            fabs(state.t),
        )
    }
}

/// a + b e + c e²
pub open spec fn spec_poly2(e: u64, a: u64, b: u64, c: u64) -> u64 {
    fadd(fadd(a, fmul(b, e)), fmul(c, fmul(e, e)))
}

/// a + b e + c e²
#[verifier::when_used_as_spec(spec_poly2)]
pub fn poly2(e: u64, a: u64, b: u64, c: u64) -> (r: u64)
    ensures
        r == spec_poly2(e, a, b, c),
{
    fadd(fadd(a, fmul(b, e)), fmul(c, fmul(e, e)))
}

/// a + b e + c e² + d e³
pub open spec fn spec_poly3(e: u64, a: u64, b: u64, c: u64, d: u64) -> u64 {
    fadd(
        fadd(fadd(a, fmul(b, e)), fmul(c, fmul(e, e))),
        fmul(d, fmul(fmul(e, e), e)),
    )
}

/// a + b e + c e² + d e³
#[verifier::when_used_as_spec(spec_poly3)]
pub fn poly3(e: u64, a: u64, b: u64, c: u64, d: u64) -> (r: u64)
    ensures
        r == spec_poly3(e, a, b, c, d),
{
    fadd(
        fadd(fadd(a, fmul(b, e)), fmul(c, fmul(e, e))),
        fmul(d, fmul(fmul(e, e), e)),
    )
}

/// The 24-hour resonance coefficients 𝛿ᵣ₁, 𝛿ᵣ₂, 𝛿ᵣ₃.
pub open spec fn spec_one_day_resonance(
    orbit_0: propagator::Orbit,
    p0: u64,
    a0: u64,
) -> propagator::Resonance {
    let sini = fsin(orbit_0.inclination);
    let e = orbit_0.eccentricity;
    // p₁₆ = 3 (n₀" / a₀")²
    let q = fdiv(orbit_0.mean_motion, a0);
    let p16 = fmul(F3, fmul(q, q));
    propagator::Resonance::OneDay {
        // 𝛿ᵣ₁ = p₁₆ (¹⁵/₁₆ sin²I₀ (1 + 3 p₀) − ³/₄ (1 + p₀))
        //       (1 + 2 e₀²) 2.1460748 × 10⁻⁶ / a₀"
        dr1: fdiv(
            fmul(
                fmul(
                    fmul(
                        p16,
                        fsub(
                            fmul(fmul(F0_9375, fmul(sini, sini)), fadd(F1, fmul(F3, p0))),
                            fmul(F0_75, fadd(F1, p0)),
                        ),
                    ),
                    fadd(F1, fmul(F2, fmul(e, e))),
                ),
                F2_1460748EM6,
            ),
            a0,
        ),
        // 𝛿ᵣ₂ = 2 p₁₆ (³/₄ (1 + p₀)²) (1 + e₀² (− ⁵/₂ + ¹³/₁₆ e₀²)) 1.7891679 × 10⁻⁶
        dr2: fmul(
            fmul(
                fmul(
                    fmul(F2, p16),
                    fmul(F0_75, fmul(fadd(F1, p0), fadd(F1, p0))),
                ),
                fadd(F1, fmul(fmul(e, e), fadd(FN2_5, fmul(F0_8125, fmul(e, e))))),
            ),
            F1_7891679EM6,
        ),
        // 𝛿ᵣ₃ = 3 p₁₆ (¹⁵/₈ (1 + p₀)³) (1 + e₀² (− 6 + 6.60937 e₀²)) 2.2123015 × 10⁻⁷ / a₀"
        dr3: fdiv(
            fmul(
                fmul(
                    fmul(
                        fmul(F3, p16),
                        fmul(F1_875, fmul(fmul(fadd(F1, p0), fadd(F1, p0)), fadd(F1, p0))),
                    ),
                    fadd(F1, fmul(fmul(e, e), fadd(FN6, fmul(F6_60937, fmul(e, e))))),
                ),
                F2_2123015EM7,
            ),
            a0,
        ),
    }
}

/// The 24-hour resonance coefficients 𝛿ᵣ₁, 𝛿ᵣ₂, 𝛿ᵣ₃.
#[verifier::when_used_as_spec(spec_one_day_resonance)]
pub fn one_day_resonance(
    orbit_0: propagator::Orbit,
    p0: u64,
    a0: u64,
) -> (r: propagator::Resonance)
    ensures
        r == spec_one_day_resonance(orbit_0, p0, a0),
{
    let sini = fsin(orbit_0.inclination);
    let e = orbit_0.eccentricity;
    // p₁₆ = 3 (n₀" / a₀")²
    let q = fdiv(orbit_0.mean_motion, a0);
    let p16 = fmul(F3, fmul(q, q));
    propagator::Resonance::OneDay {
        // 𝛿ᵣ₁ = p₁₆ (¹⁵/₁₆ sin²I₀ (1 + 3 p₀) − ³/₄ (1 + p₀))
        //       (1 + 2 e₀²) 2.1460748 × 10⁻⁶ / a₀"
        dr1: fdiv(
            fmul(
                fmul(
                    fmul(
                        p16,
                        fsub(
                            fmul(fmul(F0_9375, fmul(sini, sini)), fadd(F1, fmul(F3, p0))),
                            fmul(F0_75, fadd(F1, p0)),
                        ),
                    ),
                    fadd(F1, fmul(F2, fmul(e, e))),
                ),
                F2_1460748EM6,
            ),
            a0,
        ),
        // 𝛿ᵣ₂ = 2 p₁₆ (³/₄ (1 + p₀)²) (1 + e₀² (− ⁵/₂ + ¹³/₁₆ e₀²)) 1.7891679 × 10⁻⁶
        dr2: fmul(
            fmul(
                fmul(
                    fmul(F2, p16),
                    fmul(F0_75, fmul(fadd(F1, p0), fadd(F1, p0))),
                ),
                fadd(F1, fmul(fmul(e, e), fadd(FN2_5, fmul(F0_8125, fmul(e, e))))),
            ),
            F1_7891679EM6,
        ),
        // 𝛿ᵣ₃ = 3 p₁₆ (¹⁵/₈ (1 + p₀)³) (1 + e₀² (− 6 + 6.60937 e₀²)) 2.2123015 × 10⁻⁷ / a₀"
        dr3: fdiv(
            fmul(
                fmul(
                    fmul(
                        fmul(F3, p16),
                        fmul(F1_875, fmul(fmul(fadd(F1, p0), fadd(F1, p0)), fadd(F1, p0))),
                    ),
                    fadd(F1, fmul(fmul(e, e), fadd(FN6, fmul(F6_60937, fmul(e, e))))),
                ),
                F2_2123015EM7,
            ),
            a0,
        ),
    }
}

/// The ten 12-hour tesseral resonance coefficients Dₗₘₚₖ.
pub open spec fn spec_half_day_resonance(
    orbit_0: propagator::Orbit,
    p0: u64,
    a0: u64,
    k14: u64,
) -> propagator::Resonance {
    let e = orbit_0.eccentricity;
    let sini = fsin(orbit_0.inclination);
    // p₁₇ = 3 n₀"² / a₀"²; p₁₈ = p₁₇ / a₀"; p₁₉ = p₁₈ / a₀"; p₂₀ = p₁₉ / a₀"
    let p17 = fmul(
        fmul(F3, fmul(orbit_0.mean_motion, orbit_0.mean_motion)),
        fmul(fdiv(F1, a0), fdiv(F1, a0)),
    );
    let p18 = fmul(p17, fdiv(F1, a0));
    let p19 = fmul(p18, fdiv(F1, a0));
    let p20 = fmul(p19, fdiv(F1, a0));
    // F₂₂₀ = ³/₄ (1 + 2 p₀ + p₀²)
    let f220 = fmul(F0_75, fadd(fadd(F1, fmul(F2, p0)), fmul(p0, p0)));
    // the G polynomials, branched on the load-bearing segmentation points
    // e₀ = 0.65, 0.7 and 0.715
    let g211 = if fle(e, F0_65) {
        poly2(e, G211_LA, G211_LB, G211_LC)
    } else {
        poly3(e, G211_HA, G211_HB, G211_HC, G211_HD)
    };
    let g310 = if fle(e, F0_65) {
        poly3(e, G310_LA, G310_LB, G310_LC, G310_LD)
    } else {
        poly3(e, G310_HA, G310_HB, G310_HC, G310_HD)
    };
    let g322 = if fle(e, F0_65) {
        poly3(e, G322_LA, G322_LB, G322_LC, G322_LD)
    } else {
        poly3(e, G322_HA, G322_HB, G322_HC, G322_HD)
    };
    let g410 = if fle(e, F0_65) {
        poly3(e, G410_LA, G410_LB, G410_LC, G410_LD)
    } else {
        poly3(e, G410_HA, G410_HB, G410_HC, G410_HD)
    };
    let g422 = if fle(e, F0_65) {
        poly3(e, G422_LA, G422_LB, G422_LC, G422_LD)
    } else {
        poly3(e, G422_HA, G422_HB, G422_HC, G422_HD)
    };
    let g520 = if fle(e, F0_65) {
        poly3(e, G520_LA, G520_LB, G520_LC, G520_LD)
    } else if flt(e, F0_715) {
        poly2(e, G520_MA, G520_MB, G520_MC)
    } else {
        poly3(e, G520_HA, G520_HB, G520_HC, G520_HD)
    };
    let g532 = if flt(e, F0_7) {
        poly3(e, G532_LA, G532_LB, G532_LC, G532_LD)
    } else {
        poly3(e, G532_HA, G532_HB, G532_HC, G532_HD)
    };
    let g521 = if flt(e, F0_7) {
        poly3(e, G521_LA, G521_LB, G521_LC, G521_LD)
    } else {
        poly3(e, G521_HA, G521_HB, G521_HC, G521_HD)
    };
    let g533 = if flt(e, F0_7) {
        poly3(e, G533_LA, G533_LB, G533_LC, G533_LD)
    } else {
        poly3(e, G533_HA, G533_HB, G533_HC, G533_HD)
    };
    propagator::Resonance::HalfDay {
        // D₂₂₀₋₁ = p₁₇ 1.7891679 × 10⁻⁶ F₂₂₀ (− 0.306 − 0.44 (e₀ − 0.64))
        d2201: fmul(
            fmul(fmul(p17, F1_7891679EM6), f220),
            fsub(FN0_306, fmul(fsub(e, F0_64), F0_44)),
        ),
        // D₂₂₁₁ = p₁₇ 1.7891679 × 10⁻⁶ (³/₂ sin²I₀) G₂₁₁
        d2211: fmul(
            fmul(fmul(p17, F1_7891679EM6), fmul(F1_5, fmul(sini, sini))),
            g211,
        ),
        // D₃₂₁₀ = p₁₈ 3.7393792 × 10⁻⁷ (¹⁵/₈ sin I₀ (1 − 2 p₀ − 3 p₀²)) G₃₁₀
        d3210: fmul(
            fmul(
                fmul(p18, F3_7393792EM7),
                fmul(
                    fmul(F1_875, sini),
                    fsub(fsub(F1, fmul(F2, p0)), fmul(F3, fmul(p0, p0))),
                ),
            ),
            g310,
        ),
        // D₃₂₂₂ = p₁₈ 3.7393792 × 10⁻⁷ (− ¹⁵/₈ sin I₀ (1 + 2 p₀ − 3 p₀²)) G₃₂₂
        d3222: fmul(
            fmul(
                fmul(p18, F3_7393792EM7),
                fmul(
                    fmul(FN1_875, sini),
                    fsub(fadd(F1, fmul(F2, p0)), fmul(F3, fmul(p0, p0))),
                ),
            ),
            g322,
        ),
        // D₄₄₁₀ = 2 p₁₉ 7.3636953 × 10⁻⁹ (35 sin²I₀ F₂₂₀) G₄₁₀
        d4410: fmul(
            fmul(
                fmul(fmul(F2, p19), F7_3636953EM9),
                fmul(fmul(F35, fmul(sini, sini)), f220),
            ),
            g410,
        ),
        // D₄₄₂₂ = 2 p₁₉ 7.3636953 × 10⁻⁹ (³¹⁵/₈ sin⁴I₀) G₄₂₂
        d4422: fmul(
            fmul(
                fmul(fmul(F2, p19), F7_3636953EM9),
                fmul(F39_375, fmul(fmul(sini, sini), fmul(sini, sini))),
            ),
            g422,
        ),
        // D₅₂₂₀ = p₂₀ 1.1428639 × 10⁻⁷ (³¹⁵/₃₂ sin I₀ (sin²I₀ (1 − 2 p₀ − 5 p₀²)
        //         + 0.33333333 (− 2 + 4 p₀ + 6 p₀²))) G₅₂₀
        d5220: fmul(
            fmul(
                fmul(p20, F1_1428639EM7),
                fmul(
                    fmul(F9_84375, sini),
                    fadd(
                        fmul(
                            fmul(sini, sini),
                            fsub(fsub(F1, fmul(F2, p0)), fmul(F5, fmul(p0, p0))),
                        ),
                        fmul(
                            F0_33333333,
                            fadd(fadd(FN2, fmul(F4, p0)), fmul(F6, fmul(p0, p0))),
                        ),
                    ),
                ),
            ),
            g520,
        ),
        // D₅₂₃₂ = p₂₀ 1.1428639 × 10⁻⁷ (sin I₀ (4.92187512 sin²I₀ (− 2 − 4 p₀ + 10 p₀²)
        //         + 6.56250012 (1 + 2 p₀ − 3 p₀²))) G₅₃₂
        d5232: fmul(
            fmul(
                fmul(p20, F1_1428639EM7),
                fmul(
                    sini,
                    fadd(
                        fmul(
                            fmul(F4_92187512, fmul(sini, sini)),
                            fadd(fsub(FN2, fmul(F4, p0)), fmul(F10, fmul(p0, p0))),
                        ),
                        fmul(
                            F6_56250012,
                            fsub(fadd(F1, fmul(F2, p0)), fmul(F3, fmul(p0, p0))),
                        ),
                    ),
                ),
            ),
            g532,
        ),
        // D₅₄₂₁ = 2 p₂₀ 2.1765803 × 10⁻⁹ (⁹⁴⁵/₃₂ sin I₀
        //         (2 − 8 p₀ + p₀² (− 12 + 8 p₀ + 10 p₀²))) G₅₂₁
        d5421: fmul(
            fmul(
                fmul(fmul(F2, p20), F2_1765803EM9),
                fmul(
                    fmul(F29_53125, sini),
                    fadd(
                        fsub(F2, fmul(F8, p0)),
                        fmul(
                            fmul(p0, p0),
                            fadd(fadd(FN12, fmul(F8, p0)), fmul(F10, fmul(p0, p0))),
                        ),
                    ),
                ),
            ),
            g521,
        ),
        // D₅₄₃₃ = 2 p₂₀ 2.1765803 × 10⁻⁹ (⁹⁴⁵/₃₂ sin I₀
        //         (− 2 − 8 p₀ + p₀² (12 + 8 p₀ − 10 p₀²))) G₅₃₃
        d5433: fmul(
            fmul(
                fmul(fmul(F2, p20), F2_1765803EM9),
                fmul(
                    fmul(F29_53125, sini),
                    fadd(
                        fsub(FN2, fmul(F8, p0)),
                        fmul(
                            fmul(p0, p0),
                            fsub(fadd(F12, fmul(F8, p0)), fmul(F10, fmul(p0, p0))),
                        ),
                    ),
                ),
            ),
            g533,
        ),
        k14: k14,
    }
}

/// The ten 12-hour tesseral resonance coefficients Dₗₘₚₖ.
#[verifier::when_used_as_spec(spec_half_day_resonance)]
pub fn half_day_resonance(
    orbit_0: propagator::Orbit,
    p0: u64,
    a0: u64,
    k14: u64,
) -> (r: propagator::Resonance)
    ensures
        r == spec_half_day_resonance(orbit_0, p0, a0, k14),
{
    let e = orbit_0.eccentricity;
    let sini = fsin(orbit_0.inclination);
    // p₁₇ = 3 n₀"² / a₀"²; p₁₈ = p₁₇ / a₀"; p₁₉ = p₁₈ / a₀"; p₂₀ = p₁₉ / a₀"
    let p17 = fmul(
        fmul(F3, fmul(orbit_0.mean_motion, orbit_0.mean_motion)),
        fmul(fdiv(F1, a0), fdiv(F1, a0)),
    );
    let p18 = fmul(p17, fdiv(F1, a0));
    let p19 = fmul(p18, fdiv(F1, a0));
    let p20 = fmul(p19, fdiv(F1, a0));
    // F₂₂₀ = ³/₄ (1 + 2 p₀ + p₀²)
    let f220 = fmul(F0_75, fadd(fadd(F1, fmul(F2, p0)), fmul(p0, p0)));
    // the G polynomials, branched on the load-bearing segmentation points
    // e₀ = 0.65, 0.7 and 0.715
    let g211 = if fle(e, F0_65) {
        poly2(e, G211_LA, G211_LB, G211_LC)
    } else {
        poly3(e, G211_HA, G211_HB, G211_HC, G211_HD)
    };
    let g310 = if fle(e, F0_65) {
        poly3(e, G310_LA, G310_LB, G310_LC, G310_LD)
    } else {
        poly3(e, G310_HA, G310_HB, G310_HC, G310_HD)
    };
    let g322 = if fle(e, F0_65) {
        poly3(e, G322_LA, G322_LB, G322_LC, G322_LD)
    } else {
        poly3(e, G322_HA, G322_HB, G322_HC, G322_HD)
    };
    let g410 = if fle(e, F0_65) {
        poly3(e, G410_LA, G410_LB, G410_LC, G410_LD)
    } else {
        poly3(e, G410_HA, G410_HB, G410_HC, G410_HD)
    };
    let g422 = if fle(e, F0_65) {
        poly3(e, G422_LA, G422_LB, G422_LC, G422_LD)
    } else {
        poly3(e, G422_HA, G422_HB, G422_HC, G422_HD)
    };
    let g520 = if fle(e, F0_65) {
        poly3(e, G520_LA, G520_LB, G520_LC, G520_LD)
    } else if flt(e, F0_715) {
        poly2(e, G520_MA, G520_MB, G520_MC)
    } else {
        poly3(e, G520_HA, G520_HB, G520_HC, G520_HD)
    };
    let g532 = if flt(e, F0_7) {
        poly3(e, G532_LA, G532_LB, G532_LC, G532_LD)
    } else {
        poly3(e, G532_HA, G532_HB, G532_HC, G532_HD)
    };
    let g521 = if flt(e, F0_7) {
        poly3(e, G521_LA, G521_LB, G521_LC, G521_LD)
    } else {
        poly3(e, G521_HA, G521_HB, G521_HC, G521_HD)
    };
    let g533 = if flt(e, F0_7) {
        poly3(e, G533_LA, G533_LB, G533_LC, G533_LD)
    } else {
        poly3(e, G533_HA, G533_HB, G533_HC, G533_HD)
    };
    propagator::Resonance::HalfDay {
        // D₂₂₀₋₁ = p₁₇ 1.7891679 × 10⁻⁶ F₂₂₀ (− 0.306 − 0.44 (e₀ − 0.64))
        d2201: fmul(
            fmul(fmul(p17, F1_7891679EM6), f220),
            fsub(FN0_306, fmul(fsub(e, F0_64), F0_44)),
        ),
        // D₂₂₁₁ = p₁₇ 1.7891679 × 10⁻⁶ (³/₂ sin²I₀) G₂₁₁
        d2211: fmul(
            fmul(fmul(p17, F1_7891679EM6), fmul(F1_5, fmul(sini, sini))),
            g211,
        ),
        // D₃₂₁₀ = p₁₈ 3.7393792 × 10⁻⁷ (¹⁵/₈ sin I₀ (1 − 2 p₀ − 3 p₀²)) G₃₁₀
        d3210: fmul(
            fmul(
                fmul(p18, F3_7393792EM7),
                fmul(
                    fmul(F1_875, sini),
                    fsub(fsub(F1, fmul(F2, p0)), fmul(F3, fmul(p0, p0))),
                ),
            ),
            g310,
        ),
        // D₃₂₂₂ = p₁₈ 3.7393792 × 10⁻⁷ (− ¹⁵/₈ sin I₀ (1 + 2 p₀ − 3 p₀²)) G₃₂₂
        d3222: fmul(
            fmul(
                fmul(p18, F3_7393792EM7),
                fmul(
                    fmul(FN1_875, sini),
                    fsub(fadd(F1, fmul(F2, p0)), fmul(F3, fmul(p0, p0))),
                ),
            ),
            g322,
        ),
        // D₄₄₁₀ = 2 p₁₉ 7.3636953 × 10⁻⁹ (35 sin²I₀ F₂₂₀) G₄₁₀
        d4410: fmul(
            fmul(
                fmul(fmul(F2, p19), F7_3636953EM9),
                fmul(fmul(F35, fmul(sini, sini)), f220),
            ),
            g410,
        ),
        // D₄₄₂₂ = 2 p₁₉ 7.3636953 × 10⁻⁹ (³¹⁵/₈ sin⁴I₀) G₄₂₂
        d4422: fmul(
            fmul(
                fmul(fmul(F2, p19), F7_3636953EM9),
                fmul(F39_375, fmul(fmul(sini, sini), fmul(sini, sini))),
            ),
            g422,
        ),
        // D₅₂₂₀ = p₂₀ 1.1428639 × 10⁻⁷ (³¹⁵/₃₂ sin I₀ (sin²I₀ (1 − 2 p₀ − 5 p₀²)
        //         + 0.33333333 (− 2 + 4 p₀ + 6 p₀²))) G₅₂₀
        d5220: fmul(
            fmul(
                fmul(p20, F1_1428639EM7),
                fmul(
                    fmul(F9_84375, sini),
                    fadd(
                        fmul(
                            fmul(sini, sini),
                            fsub(fsub(F1, fmul(F2, p0)), fmul(F5, fmul(p0, p0))),
                        ),
                        fmul(
                            F0_33333333,
                            fadd(fadd(FN2, fmul(F4, p0)), fmul(F6, fmul(p0, p0))),
                        ),
                    ),
                ),
            ),
            g520,
        ),
        // D₅₂₃₂ = p₂₀ 1.1428639 × 10⁻⁷ (sin I₀ (4.92187512 sin²I₀ (− 2 − 4 p₀ + 10 p₀²)
        //         + 6.56250012 (1 + 2 p₀ − 3 p₀²))) G₅₃₂
        d5232: fmul(
            fmul(
                fmul(p20, F1_1428639EM7),
                fmul(
                    sini,
                    fadd(
                        fmul(
                            fmul(F4_92187512, fmul(sini, sini)),
                            fadd(fsub(FN2, fmul(F4, p0)), fmul(F10, fmul(p0, p0))),
                        ),
                        fmul(
                            F6_56250012,
                            fsub(fadd(F1, fmul(F2, p0)), fmul(F3, fmul(p0, p0))),
                        ),
                    ),
                ),
            ),
            g532,
        ),
        // D₅₄₂₁ = 2 p₂₀ 2.1765803 × 10⁻⁹ (⁹⁴⁵/₃₂ sin I₀
        //         (2 − 8 p₀ + p₀² (− 12 + 8 p₀ + 10 p₀²))) G₅₂₁
        d5421: fmul(
            fmul(
                fmul(fmul(F2, p20), F2_1765803EM9),
                fmul(
                    fmul(F29_53125, sini),
                    fadd(
                        fsub(F2, fmul(F8, p0)),
                        fmul(
                            fmul(p0, p0),
                            fadd(fadd(FN12, fmul(F8, p0)), fmul(F10, fmul(p0, p0))),
                        ),
                    ),
                ),
            ),
            g521,
        ),
        // D₅₄₃₃ = 2 p₂₀ 2.1765803 × 10⁻⁹ (⁹⁴⁵/₃₂ sin I₀
        //         (− 2 − 8 p₀ + p₀² (12 + 8 p₀ − 10 p₀²))) G₅₃₃
        d5433: fmul(
            fmul(
                fmul(fmul(F2, p20), F2_1765803EM9),
                fmul(
                    fmul(F29_53125, sini),
                    fadd(
                        fsub(FN2, fmul(F8, p0)),
                        fmul(
                            fmul(p0, p0),
                            fsub(fadd(F12, fmul(F8, p0)), fmul(F10, fmul(p0, p0))),
                        ),
                    ),
                ),
            ),
            g533,
        ),
        k14: k14,
    }
}

/// ṅᵢ, the tesseral forcing of the mean motion at the integrator state
/// (λᵢ, tᵢ).
pub open spec fn spec_resonance_ni_dot(
    resonance: propagator::Resonance,
    lambda: u64,
    t_i: u64,
    argument_of_perigee_0: u64,
) -> u64 {
    match resonance {
        propagator::Resonance::OneDay { dr1, dr2, dr3 } => fadd(
            fadd(
                fmul(dr1, fsin(fsub(lambda, LAMBDA31))),
                fmul(dr2, fsin(fmul(F2, fsub(lambda, LAMBDA22)))),
            ),
            fmul(dr3, fsin(fmul(F3, fsub(lambda, LAMBDA33)))),
        ),
        propagator::Resonance::HalfDay {
            d2201,
            d2211,
            d3210,
            d3222,
            d4410,
            d4422,
            d5220,
            d5232,
            d5421,
            d5433,
            k14,
        } => {
            // ωᵢ = ω₀ + k₁₄ tᵢ
            let omega_i = fadd(argument_of_perigee_0, fmul(k14, t_i));
            fadd(
                fadd(
                    fadd(
                        fadd(
                            fadd(
                                fadd(
                                    fadd(
                                        fadd(
                                            fadd(
                                                fmul(
                                                    d2201,
                                                    fsin(fsub(fadd(fmul(F2, omega_i), lambda), G22)),
                                                ),
                                                fmul(d2211, fsin(fsub(lambda, G22))),
                                            ),
                                            fmul(d3210, fsin(fsub(fadd(omega_i, lambda), G32))),
                                        ),
                                        fmul(d3222, fsin(fsub(fadd(fneg(omega_i), lambda), G32))),
                                    ),
                                    fmul(
                                        d4410,
                                        fsin(fsub(fadd(fmul(F2, omega_i), fmul(F2, lambda)), G44)),
                                    ),
                                ),
                                fmul(d4422, fsin(fsub(fmul(F2, lambda), G44))),
                            ),
                            fmul(d5220, fsin(fsub(fadd(omega_i, lambda), G52))),
                        ),
                        fmul(d5232, fsin(fsub(fadd(fneg(omega_i), lambda), G52))),
                    ),
                    fmul(d5421, fsin(fsub(fadd(omega_i, fmul(F2, lambda)), G54))),
                ),
                fmul(d5433, fsin(fsub(fadd(fneg(omega_i), fmul(F2, lambda)), G54))),
            )
        },
    }
}

/// ṅᵢ, the tesseral forcing of the mean motion at the integrator state
/// (λᵢ, tᵢ).
#[verifier::when_used_as_spec(spec_resonance_ni_dot)]
pub fn resonance_ni_dot(
    resonance: propagator::Resonance,
    lambda: u64,
    t_i: u64,
    argument_of_perigee_0: u64,
) -> (r: u64)
    ensures
        r == spec_resonance_ni_dot(resonance, lambda, t_i, argument_of_perigee_0),
{
    match resonance {
        propagator::Resonance::OneDay { dr1, dr2, dr3 } => fadd(
            fadd(
                fmul(dr1, fsin(fsub(lambda, LAMBDA31))),
                fmul(dr2, fsin(fmul(F2, fsub(lambda, LAMBDA22)))),
            ),
            fmul(dr3, fsin(fmul(F3, fsub(lambda, LAMBDA33)))),
        ),
        propagator::Resonance::HalfDay {
            d2201,
            d2211,
            d3210,
            d3222,
            d4410,
            d4422,
            d5220,
            d5232,
            d5421,
            d5433,
            k14,
        } => {
            // ωᵢ = ω₀ + k₁₄ tᵢ
            let omega_i = fadd(argument_of_perigee_0, fmul(k14, t_i));
            fadd(
                fadd(
                    fadd(
                        fadd(
                            fadd(
                                fadd(
                                    fadd(
                                        fadd(
                                            fadd(
                                                fmul(
                                                    d2201,
                                                    fsin(fsub(fadd(fmul(F2, omega_i), lambda), G22)),
                                                ),
                                                fmul(d2211, fsin(fsub(lambda, G22))),
                                            ),
                                            fmul(d3210, fsin(fsub(fadd(omega_i, lambda), G32))),
                                        ),
                                        fmul(d3222, fsin(fsub(fadd(fneg(omega_i), lambda), G32))),
                                    ),
                                    fmul(
                                        d4410,
                                        fsin(fsub(fadd(fmul(F2, omega_i), fmul(F2, lambda)), G44)),
                                    ),
                                ),
                                fmul(d4422, fsin(fsub(fmul(F2, lambda), G44))),
                            ),
                            fmul(d5220, fsin(fsub(fadd(omega_i, lambda), G52))),
                        ),
                        fmul(d5232, fsin(fsub(fadd(fneg(omega_i), lambda), G52))),
                    ),
                    fmul(d5421, fsin(fsub(fadd(omega_i, fmul(F2, lambda)), G54))),
                ),
                fmul(d5433, fsin(fsub(fadd(fneg(omega_i), fmul(F2, lambda)), G54))),
            )
        },
    }
}

/// n̈ᵢ, the derivative of the tesseral forcing at the integrator state,
/// weighted by λ̇ᵢ.
pub open spec fn spec_resonance_ni_ddot(
    resonance: propagator::Resonance,
    lambda: u64,
    t_i: u64,
    argument_of_perigee_0: u64,
    lambda_dot: u64,
) -> u64 {
    match resonance {
        propagator::Resonance::OneDay { dr1, dr2, dr3 } => fmul(
            fadd(
                fadd(
                    fmul(dr1, fcos(fsub(lambda, LAMBDA31))),
                    fmul(fmul(F2, dr2), fcos(fmul(F2, fsub(lambda, LAMBDA22)))),
                ),
                fmul(fmul(F3, dr3), fcos(fmul(F3, fsub(lambda, LAMBDA33)))),
            ),
            lambda_dot,
        ),
        propagator::Resonance::HalfDay {
            d2201,
            d2211,
            d3210,
            d3222,
            d4410,
            d4422,
            d5220,
            d5232,
            d5421,
            d5433,
            k14,
        } => {
            // ωᵢ = ω₀ + k₁₄ tᵢ
            let omega_i = fadd(argument_of_perigee_0, fmul(k14, t_i));
            fmul(
                fadd(
                    fadd(
                        fadd(
                            fadd(
                                fadd(
                                    fmul(
                                        d2201,
                                        fcos(fsub(fadd(fmul(F2, omega_i), lambda), G22)),
                                    ),
                                    fmul(d2211, fcos(fsub(lambda, G22))),
                                ),
                                fmul(d3210, fcos(fsub(fadd(omega_i, lambda), G32))),
                            ),
                            fmul(d3222, fcos(fsub(fadd(fneg(omega_i), lambda), G32))),
                        ),
                        fadd(
                            fmul(d5220, fcos(fsub(fadd(omega_i, lambda), G52))),
                            fmul(d5232, fcos(fsub(fadd(fneg(omega_i), lambda), G52))),
                        ),
                    ),
                    fmul(
                        F2,
                        fadd(
                            fadd(
                                fadd(
                                    fmul(
                                        d4410,
                                        fcos(fsub(fadd(fmul(F2, omega_i), fmul(F2, lambda)), G44)),
                                    ),
                                    fmul(d4422, fcos(fsub(fmul(F2, lambda), G44))),
                                ),
                                fmul(d5421, fcos(fsub(fadd(omega_i, fmul(F2, lambda)), G54))),
                            ),
                            fmul(d5433, fcos(fsub(fadd(fneg(omega_i), fmul(F2, lambda)), G54))),
                        ),
                    ),
                ),
                lambda_dot,
            )
        },
    }
}

/// n̈ᵢ, the derivative of the tesseral forcing at the integrator state,
/// weighted by λ̇ᵢ.
#[verifier::when_used_as_spec(spec_resonance_ni_ddot)]
pub fn resonance_ni_ddot(
    resonance: propagator::Resonance,
    lambda: u64,
    t_i: u64,
    argument_of_perigee_0: u64,
    lambda_dot: u64,
) -> (r: u64)
    ensures
        r == spec_resonance_ni_ddot(resonance, lambda, t_i, argument_of_perigee_0, lambda_dot),
{
    match resonance {
        propagator::Resonance::OneDay { dr1, dr2, dr3 } => fmul(
            fadd(
                fadd(
                    fmul(dr1, fcos(fsub(lambda, LAMBDA31))),
                    fmul(fmul(F2, dr2), fcos(fmul(F2, fsub(lambda, LAMBDA22)))),
                ),
                fmul(fmul(F3, dr3), fcos(fmul(F3, fsub(lambda, LAMBDA33)))),
            ),
            lambda_dot,
        ),
        propagator::Resonance::HalfDay {
            d2201,
            d2211,
            d3210,
            d3222,
            d4410,
            d4422,
            d5220,
            d5232,
            d5421,
            d5433,
            k14,
        } => {
            // ωᵢ = ω₀ + k₁₄ tᵢ
            let omega_i = fadd(argument_of_perigee_0, fmul(k14, t_i));
            fmul(
                fadd(
                    fadd(
                        fadd(
                            fadd(
                                fadd(
                                    fmul(
                                        d2201,
                                        fcos(fsub(fadd(fmul(F2, omega_i), lambda), G22)),
                                    ),
                                    fmul(d2211, fcos(fsub(lambda, G22))),
                                ),
                                fmul(d3210, fcos(fsub(fadd(omega_i, lambda), G32))),
                            ),
                            fmul(d3222, fcos(fsub(fadd(fneg(omega_i), lambda), G32))),
                        ),
                        fadd(
                            fmul(d5220, fcos(fsub(fadd(omega_i, lambda), G52))),
                            fmul(d5232, fcos(fsub(fadd(fneg(omega_i), lambda), G52))),
                        ),
                    ),
                    fmul(
                        F2,
                        fadd(
                            fadd(
                                fadd(
                                    fmul(
                                        d4410,
                                        fcos(fsub(fadd(fmul(F2, omega_i), fmul(F2, lambda)), G44)),
                                    ),
                                    fmul(d4422, fcos(fsub(fmul(F2, lambda), G44))),
                                ),
                                fmul(d5421, fcos(fsub(fadd(omega_i, fmul(F2, lambda)), G54))),
                            ),
                            fmul(d5433, fcos(fsub(fadd(fneg(omega_i), fmul(F2, lambda)), G54))),
                        ),
                    ),
                ),
                lambda_dot,
            )
        },
    }
}

/// One 720-minute step of the integrator: tᵢ₊₁ = tᵢ + Δt,
/// nᵢ₊₁ = nᵢ + ṅᵢ Δt + n̈ᵢ Δt²/2 and λᵢ₊₁ = λᵢ + λ̇ᵢ Δt + ṅᵢ Δt²/2. The
/// discretisation deliberately uses the always-positive Δt²/2 = 259200,
/// never the signed square, so backward runs stay symmetric to forward
/// ones.
pub open spec fn spec_integrate_step(
    s: ResonanceState,
    lambda_dot: u64,
    ni_dot: u64,
    ni_ddot: u64,
    delta_t: u64,
) -> ResonanceState {
    ResonanceState {
        t: fadd(s.t, delta_t),
        mean_motion: fadd(
            s.mean_motion,
            fadd(fmul(ni_dot, delta_t), fmul(ni_ddot, HALF_DELTA_T_SQUARED)),
        ),
        lambda: fadd(
            s.lambda,
            fadd(fmul(lambda_dot, delta_t), fmul(ni_dot, HALF_DELTA_T_SQUARED)),
        ),
    }
}

/// The final predictor of the integrator: p₂₆ and p₂₇ evaluated at the
/// reached state with the current derivatives.
pub open spec fn spec_integrate_predictor(
    s: ResonanceState,
    ke: u64,
    resonance: propagator::Resonance,
    lambda_dot: u64,
    ni_dot: u64,
    ni_ddot: u64,
    sidereal_time: u64,
    t: u64,
    p21: u64,
    p22: u64,
) -> (u64, u64) {
    let dt = fsub(t, s.t);
    // p₂₆ = (kₑ / (nᵢ + ṅᵢ (t − tᵢ) + ¹/₂ n̈ᵢ (t − tᵢ)²))²ᐟ³
    let p26 = fpow(
        fdiv(
            ke,
            fadd(
                fadd(s.mean_motion, fmul(ni_dot, dt)),
                fmul(fmul(ni_ddot, fmul(dt, dt)), F0_5),
            ),
        ),
        TWO_THIRDS,
    );
    let p27 = match resonance {
        // p₂₇ = λᵢ + λ̇ᵢ (t − tᵢ) + ¹/₂ ṅᵢ (t − tᵢ)² − p₂₁ − p₂₂ + θ
        propagator::Resonance::OneDay { .. } => fadd(
            fsub(
                fsub(
                    fadd(
                        fadd(s.lambda, fmul(lambda_dot, dt)),
                        fmul(fmul(ni_dot, fmul(dt, dt)), F0_5),
                    ),
                    p21,
                ),
                p22,
            ),
            sidereal_time,
        ),
        // p₂₇ = λᵢ + λ̇ᵢ (t − tᵢ) + ¹/₂ ṅᵢ (t − tᵢ)² − 2 p₂₁ + 2 θ
        propagator::Resonance::HalfDay { .. } => fadd(
            fsub(
                fadd(
                    fadd(s.lambda, fmul(lambda_dot, dt)),
                    fmul(fmul(ni_dot, fmul(dt, dt)), F0_5),
                ),
                fmul(F2, p21),
            ),
            fmul(F2, sidereal_time),
        ),
    };
    (p26, p27)
}

/// The integrator's run, one 720-minute step per unfolding: it stops at the
/// first state from which one more full step would cross the target `t`
/// (or when the step allowance runs out), and evaluates the predictor there.
pub open spec fn spec_integrate_loop(
    s: ResonanceState,
    ke: u64,
    argument_of_perigee_0: u64,
    lambda_dot_0: u64,
    resonance: propagator::Resonance,
    sidereal_time: u64,
    t: u64,
    delta_t: u64,
    t_positive: bool,
    p21: u64,
    p22: u64,
    fuel: nat,
) -> ((u64, u64), ResonanceState)
    decreases fuel,
{
    // λ̇ᵢ = nᵢ + λ̇₀
    let lambda_dot = fadd(s.mean_motion, lambda_dot_0);
    let ni_dot = resonance_ni_dot(resonance, s.lambda, s.t, argument_of_perigee_0);
    let ni_ddot = resonance_ni_ddot(resonance, s.lambda, s.t, argument_of_perigee_0, lambda_dot);
    let done = if t_positive {
        flt(fsub(t, delta_t), s.t)
    } else {
        flt(s.t, fsub(t, delta_t))
    };
    if done || fuel == 0 {
        (
            spec_integrate_predictor(
                s,
                ke,
                resonance,
                lambda_dot,
                ni_dot,
                ni_ddot,
                sidereal_time,
                t,
                p21,
                p22,
            ),
            s,
        )
    } else {
        spec_integrate_loop(
            spec_integrate_step(s, lambda_dot, ni_dot, ni_ddot, delta_t),
            ke,
            argument_of_perigee_0,
            lambda_dot_0,
            resonance,
            sidereal_time,
            t,
            delta_t,
            t_positive,
            p21,
            p22,
            (fuel - 1) as nat,
        )
    }
}

/// The integrator's result and final state for a target time `t`:
/// θ(t) = (θ₀ + t θ̇) mod 2π, Δt = ±720 by the sign of `t`, then the stepped
/// run from the given state.
pub open spec fn spec_integrate(
    s: ResonanceState,
    geopotential: model::Geopotential,
    argument_of_perigee_0: u64,
    lambda_dot_0: u64,
    resonance: propagator::Resonance,
    sidereal_time_0: u64,
    t: u64,
    p21: u64,
    p22: u64,
) -> ((u64, u64), ResonanceState) {
    let sidereal_time = frem(fadd(sidereal_time_0, fmul(t, model::SIDEREAL_SPEED)), model::TWO_PI);
    let t_positive = flt(F0, t);
    let delta_t = if t_positive {
        DELTA_T
    } else {
        FN_DELTA_T
    };
    spec_integrate_loop(
        s,
        geopotential.ke,
        argument_of_perigee_0,
        lambda_dot_0,
        resonance,
        sidereal_time,
        t,
        delta_t,
        t_positive,
        p21,
        p22,
        STEP_LIMIT as nat,
    )
}

impl ResonanceState {
    /// A fresh integrator state at the epoch.
    pub fn new(mean_motion_0: u64, lambda_0: u64) -> (r: ResonanceState)
        ensures
            r == (ResonanceState { t: F0, mean_motion: mean_motion_0, lambda: lambda_0 }),
    {
        ResonanceState { t: F0, mean_motion: mean_motion_0, lambda: lambda_0 }
    }

    /// Advance the state to the target time `t` in fixed ±720-minute steps
    /// under the tesseral forcing, then evaluate the final predictor there:
    /// the returned pair is (p₂₆, p₂₇).
    ///
    /// The target times given to one state must grow in magnitude and keep
    /// one sign; a state must be created anew to propagate across a sign
    /// reversal (the `spec_accepts_target` precondition).
    pub fn integrate(
        &mut self,
        geopotential: &model::Geopotential,
        argument_of_perigee_0: u64,
        lambda_dot_0: u64,
        resonance: &propagator::Resonance,
        sidereal_time_0: u64,
        t: u64,
        p21: u64,
        p22: u64,
    ) -> (r: (u64, u64))
        requires
            spec_accepts_target(*old(self), t),
        ensures
            r == spec_integrate(
                *old(self),
                *geopotential,
                argument_of_perigee_0,
                lambda_dot_0,
                *resonance,
                sidereal_time_0,
                t,
                p21,
                p22,
            ).0,
            *final(self) == spec_integrate(
                *old(self),
                *geopotential,
                argument_of_perigee_0,
                lambda_dot_0,
                *resonance,
                sidereal_time_0,
                t,
                p21,
                p22,
            ).1,
    {
        // θ = θ₀ + 4.37526908801129966 × 10⁻³ t mod 2π
        let sidereal_time = frem(
            fadd(sidereal_time_0, fmul(t, model::SIDEREAL_SPEED)),
            model::TWO_PI,
        );
        let t_positive = flt(F0, t);
        let delta_t = if t_positive {
            DELTA_T
        } else {
            FN_DELTA_T
        };
        let mut fuel: u64 = STEP_LIMIT;
        #[verifier::loop_isolation(false)]
        loop
            invariant
                spec_integrate_loop(
                    *self,
                    geopotential.ke,
                    argument_of_perigee_0,
                    lambda_dot_0,
                    *resonance,
                    sidereal_time,
                    t,
                    delta_t,
                    t_positive,
                    p21,
                    p22,
                    fuel as nat,
                ) == spec_integrate(
                    *old(self),
                    *geopotential,
                    argument_of_perigee_0,
                    lambda_dot_0,
                    *resonance,
                    sidereal_time_0,
                    t,
                    p21,
                    p22,
                ),
            decreases fuel,
        {
            // λ̇ᵢ = nᵢ + λ̇₀
            let lambda_dot = fadd(self.mean_motion, lambda_dot_0);
            let ni_dot = resonance_ni_dot(*resonance, self.lambda, self.t, argument_of_perigee_0);
            let ni_ddot = resonance_ni_ddot(
                *resonance,
                self.lambda,
                self.t,
                argument_of_perigee_0,
                lambda_dot,
            );
            let done = if t_positive {
                flt(fsub(t, delta_t), self.t)
            } else {
                flt(self.t, fsub(t, delta_t))
            };
            if done || fuel == 0 {
                let dt = fsub(t, self.t);
                // p₂₆ = (kₑ / (nᵢ + ṅᵢ (t − tᵢ) + ¹/₂ n̈ᵢ (t − tᵢ)²))²ᐟ³
                let p26 = fpow(
                    fdiv(
                        geopotential.ke,
                        fadd(
                            fadd(self.mean_motion, fmul(ni_dot, dt)),
                            fmul(fmul(ni_ddot, fmul(dt, dt)), F0_5),
                        ),
                    ),
                    TWO_THIRDS,
                );
                let p27 = match resonance {
                    // p₂₇ = λᵢ + λ̇ᵢ (t − tᵢ) + ¹/₂ ṅᵢ (t − tᵢ)² − p₂₁ − p₂₂ + θ
                    propagator::Resonance::OneDay { .. } => fadd(
                        fsub(
                            fsub(
                                fadd(
                                    fadd(self.lambda, fmul(lambda_dot, dt)),
                                    fmul(fmul(ni_dot, fmul(dt, dt)), F0_5),
                                ),
                                p21,
                            ),
                            p22,
                        ),
                        sidereal_time,
                    ),
                    // p₂₇ = λᵢ + λ̇ᵢ (t − tᵢ) + ¹/₂ ṅᵢ (t − tᵢ)² − 2 p₂₁ + 2 θ
                    propagator::Resonance::HalfDay { .. } => fadd(
                        fsub(
                            fadd(
                                fadd(self.lambda, fmul(lambda_dot, dt)),
                                fmul(fmul(ni_dot, fmul(dt, dt)), F0_5),
                            ),
                            fmul(F2, p21),
                        ),
                        fmul(F2, sidereal_time),
                    ),
                };
                return (p26, p27);
            }
            // tᵢ₊₁ = tᵢ + Δt; nᵢ₊₁ = nᵢ + ṅᵢ Δt + n̈ᵢ Δt²/2; λᵢ₊₁ = λᵢ + λ̇ᵢ Δt + ṅᵢ Δt²/2
            self.t = fadd(self.t, delta_t);
            self.mean_motion = fadd(
                self.mean_motion,
                fadd(fmul(ni_dot, delta_t), fmul(ni_ddot, HALF_DELTA_T_SQUARED)),
            );
            self.lambda = fadd(
                self.lambda,
                fadd(fmul(lambda_dot, delta_t), fmul(ni_dot, HALF_DELTA_T_SQUARED)),
            );
            fuel = fuel - 1;
        }
    }
}

/// The node and perigee angles assembled by the deep-space theory at an
/// evaluation time.
#[derive(Clone, Copy, Debug)]
pub struct AnglePair {
    pub right_ascension: u64,
    pub argument_of_perigee: u64,
}

/// The deep-space propagation constants, from the common constants of
/// `Constants::new`: the summed lunisolar secular rates and the resonance
/// classification of the orbit.
pub open spec fn spec_constants(
    geopotential: model::Geopotential,
    epoch_to_sidereal_time: model::EpochToSiderealTime,
    t0: u64,
    drag_term: u64,
    orbit_0: propagator::Orbit,
    p0: u64,
    a0: u64,
    c1: u64,
    b0: u64,
    c4: u64,
    k0: u64,
    k1: u64,
    k14: u64,
    p1: u64,
    p13: u64,
    p14: u64,
) -> propagator::Constants {
    // t₁₉₀₀ = 365.25 (t₀ + 100)
    let t1900 = fmul(fadd(t0, F100), F365_25);
    let solar = third_body::perturbations_and_dots(
        orbit_0.inclination,
        orbit_0.eccentricity,
        orbit_0.argument_of_perigee,
        orbit_0.mean_motion,
        ZSINIS,
        ZCOSIS,
        fsin(orbit_0.right_ascension),
        fcos(orbit_0.right_ascension),
        SOLAR_ECCENTRICITY,
        ZSINGS,
        ZCOSGS,
        SOLAR_PERTURBATION_COEFFICIENT,
        SOLAR_MEAN_MOTION,
        // Mₛ₀ = (6.2565837 + 0.017201977 t₁₉₀₀) rem 2π
        frem(fadd(F6_2565837, fmul(F0_017201977, t1900)), model::TWO_PI),
        p1,
        b0,
    );
    let solar_perturbations = solar.0;
    let solar_dots = solar.1;
    // Ωₗₑ = 4.523602 − 9.2422029 × 10⁻⁴ t₁₉₀₀ rem 2π
    let lunar_right_ascension_epsilon = frem(
        fsub(F4_5236020, fmul(F9_2422029EM4, t1900)),
        model::TWO_PI,
    );
    // cos Iₗ = 0.91375164 − 0.03568096 cos Ωₗₑ
    let lunar_inclination_cosine = fsub(
        F0_91375164,
        fmul(F0_03568096, fcos(lunar_right_ascension_epsilon)),
    );
    // sin Iₗ = (1 − cos²Iₗ)¹ᐟ²
    let lunar_inclination_sine = fsqrt(
        fsub(F1, fmul(lunar_inclination_cosine, lunar_inclination_cosine)),
    );
    // sin Ωₗ = 0.089683511 sin Ωₗₑ / sin Iₗ
    let lunar_right_ascension_sine = fdiv(
        fmul(F0_089683511, fsin(lunar_right_ascension_epsilon)),
        lunar_inclination_sine,
    );
    // cos Ωₗ = (1 − sin²Ωₗ)¹ᐟ²
    let lunar_right_ascension_cosine = fsqrt(
        fsub(F1, fmul(lunar_right_ascension_sine, lunar_right_ascension_sine)),
    );
    // ωₗ = 5.8351514 + 0.001944368 t₁₉₀₀
    //      + tan⁻¹(0.39785416 sin Ωₗₑ / sin Iₗ,
    //              cos Ωₗ cos Ωₗₑ + 0.91744867 sin Ωₗ sin Ωₗₑ) − Ωₗₑ
    let lunar_argument_of_perigee = fsub(
        fadd(
            fadd(F5_8351514, fmul(F0_001944368, t1900)),
            fatan2(
                fdiv(
                    fmul(ZSINIS, fsin(lunar_right_ascension_epsilon)),
                    lunar_inclination_sine,
                ),
                fadd(
                    fmul(lunar_right_ascension_cosine, fcos(lunar_right_ascension_epsilon)),
                    fmul(
                        fmul(ZCOSIS, lunar_right_ascension_sine),
                        fsin(lunar_right_ascension_epsilon),
                    ),
                ),
            ),
        ),
        lunar_right_ascension_epsilon,
    );
    let lunar = third_body::perturbations_and_dots(
        orbit_0.inclination,
        orbit_0.eccentricity,
        orbit_0.argument_of_perigee,
        orbit_0.mean_motion,
        lunar_inclination_sine,
        lunar_inclination_cosine,
        // sin(Ω₀ − Ωₗ) = sin Ω₀ cos Ωₗ − cos Ω₀ sin Ωₗ
        fsub(
            fmul(fsin(orbit_0.right_ascension), lunar_right_ascension_cosine),
            fmul(fcos(orbit_0.right_ascension), lunar_right_ascension_sine),
        ),
        // cos(Ω₀ − Ωₗ) = cos Ωₗ cos Ω₀ + sin Ωₗ sin Ω₀
        fadd(
            fmul(lunar_right_ascension_cosine, fcos(orbit_0.right_ascension)),
            fmul(lunar_right_ascension_sine, fsin(orbit_0.right_ascension)),
        ),
        LUNAR_ECCENTRICITY,
        fsin(lunar_argument_of_perigee),
        fcos(lunar_argument_of_perigee),
        LUNAR_PERTURBATION_COEFFICIENT,
        LUNAR_MEAN_MOTION,
        // Mₗ₀ = (−1.1151842 + 0.228027132 t₁₉₀₀) rem 2π
        frem(fadd(FN1_1151842, fmul(F0_228027132, t1900)), model::TWO_PI),
        p1,
        b0,
    );
    let lunar_perturbations = lunar.0;
    let lunar_dots = lunar.1;
    propagator::Constants {
        geopotential: geopotential,
        drag_term: drag_term,
        // Ω̇ = p₁₃ + (Ω̇ₛ + Ω̇ₗ)
        right_ascension_dot: fadd(
            p13,
            fadd(solar_dots.right_ascension, lunar_dots.right_ascension),
        ),
        // ω̇ = k₁₄ + (ω̇ₛ + ω̇ₗ)
        argument_of_perigee_dot: fadd(
            k14,
            fadd(solar_dots.argument_of_perigee, lunar_dots.argument_of_perigee),
        ),
        // Ṁ = p₁₄ + (Ṁₛ + Ṁₗ)
        mean_anomaly_dot: fadd(p14, fadd(solar_dots.mean_anomaly, lunar_dots.mean_anomaly)),
        c1: c1,
        c4: c4,
        k0: k0,
        k1: k1,
        method: propagator::Method::DeepSpace {
            eccentricity_dot: fadd(solar_dots.eccentricity, lunar_dots.eccentricity),
            inclination_dot: fadd(solar_dots.inclination, lunar_dots.inclination),
            solar_perturbations: solar_perturbations,
            lunar_perturbations: lunar_perturbations,
            resonant: if (flt(orbit_0.mean_motion, ONE_DAY_UPPER) && flt(
                ONE_DAY_LOWER,
                orbit_0.mean_motion,
            )) || (fle(HALF_DAY_LOWER, orbit_0.mean_motion) && fle(
                orbit_0.mean_motion,
                HALF_DAY_UPPER,
            ) && fle(F0_5, orbit_0.eccentricity)) {
                let sidereal_time_0 = model::epoch_to_sidereal_time(epoch_to_sidereal_time, t0);
                if flt(orbit_0.mean_motion, ONE_DAY_UPPER) && flt(
                    ONE_DAY_LOWER,
                    orbit_0.mean_motion,
                ) {
                    propagator::Resonant::Yes {
                        // λ₀ = M₀ + Ω₀ + ω₀ − θ₀ rem 2π
                        lambda_0: frem(
                            fsub(
                                fadd(
                                    fadd(orbit_0.mean_anomaly, orbit_0.right_ascension),
                                    orbit_0.argument_of_perigee,
                                ),
                                sidereal_time_0,
                            ),
                            model::TWO_PI,
                        ),
                        // λ̇₀ = p₁₄ + (k₁₄ + p₁₃) − θ̇ + (Ṁₛ + Ṁₗ) + (ω̇ₛ + ω̇ₗ)
                        //      + (Ω̇ₛ + Ω̇ₗ) − n₀"
                        lambda_dot_0: fsub(
                            fadd(
                                fadd(
                                    fadd(
                                        fsub(fadd(p14, fadd(k14, p13)), model::SIDEREAL_SPEED),
                                        fadd(solar_dots.mean_anomaly, lunar_dots.mean_anomaly),
                                    ),
                                    fadd(
                                        solar_dots.argument_of_perigee,
                                        lunar_dots.argument_of_perigee,
                                    ),
                                ),
                                fadd(solar_dots.right_ascension, lunar_dots.right_ascension),
                            ),
                            orbit_0.mean_motion,
                        ),
                        sidereal_time_0: sidereal_time_0,
                        resonance: one_day_resonance(orbit_0, p0, a0),
                    }
                } else {
                    propagator::Resonant::Yes {
                        // λ₀ = M₀ + 2 Ω₀ − 2 θ₀ rem 2π
                        lambda_0: frem(
                            fsub(
                                fsub(
                                    fadd(
                                        fadd(orbit_0.mean_anomaly, orbit_0.right_ascension),
                                        orbit_0.right_ascension,
                                    ),
                                    sidereal_time_0,
                                ),
                                sidereal_time_0,
                            ),
                            model::TWO_PI,
                        ),
                        // λ̇₀ = p₁₄ + (Ṁₛ + Ṁₗ) + 2 (p₁₃ + (Ω̇ₛ + Ω̇ₗ) − θ̇) − n₀"
                        lambda_dot_0: fsub(
                            fadd(
                                fadd(p14, fadd(solar_dots.mean_anomaly, lunar_dots.mean_anomaly)),
                                fmul(
                                    F2,
                                    fsub(
                                        fadd(
                                            p13,
                                            fadd(
                                                solar_dots.right_ascension,
                                                lunar_dots.right_ascension,
                                            ),
                                        ),
                                        model::SIDEREAL_SPEED,
                                    ),
                                ),
                            ),
                            orbit_0.mean_motion,
                        ),
                        sidereal_time_0: sidereal_time_0,
                        resonance: half_day_resonance(orbit_0, p0, a0, k14),
                    }
                }
            } else {
                propagator::Resonant::No { a0: a0 }
            },
        },
        orbit_0: orbit_0,
    }
}

/// The deep-space propagation constants, from the common constants of
/// `Constants::new`: the summed lunisolar secular rates and the resonance
/// classification of the orbit.
pub fn constants(
    geopotential: &model::Geopotential,
    epoch_to_sidereal_time: model::EpochToSiderealTime,
    t0: u64,
    drag_term: u64,
    orbit_0: propagator::Orbit,
    p0: u64,
    a0: u64,
    c1: u64,
    b0: u64,
    c4: u64,
    k0: u64,
    k1: u64,
    k14: u64,
    p1: u64,
    p13: u64,
    p14: u64,
) -> (r: propagator::Constants)
    ensures
        r == spec_constants(
            *geopotential,
            epoch_to_sidereal_time,
            t0,
            drag_term,
            orbit_0,
            p0,
            a0,
            c1,
            b0,
            c4,
            k0,
            k1,
            k14,
            p1,
            p13,
            p14,
        ),
{
    // t₁₉₀₀ = 365.25 (t₀ + 100)
    let t1900 = fmul(fadd(t0, F100), F365_25);
    let solar = third_body::perturbations_and_dots(
        orbit_0.inclination,
        orbit_0.eccentricity,
        orbit_0.argument_of_perigee,
        orbit_0.mean_motion,
        ZSINIS,
        ZCOSIS,
        fsin(orbit_0.right_ascension),
        fcos(orbit_0.right_ascension),
        SOLAR_ECCENTRICITY,
        ZSINGS,
        ZCOSGS,
        SOLAR_PERTURBATION_COEFFICIENT,
        SOLAR_MEAN_MOTION,
        // Mₛ₀ = (6.2565837 + 0.017201977 t₁₉₀₀) rem 2π
        frem(fadd(F6_2565837, fmul(F0_017201977, t1900)), model::TWO_PI),
        p1,
        b0,
    );
    let solar_perturbations = solar.0;
    let solar_dots = solar.1;
    // Ωₗₑ = 4.523602 − 9.2422029 × 10⁻⁴ t₁₉₀₀ rem 2π
    let lunar_right_ascension_epsilon = frem(
        fsub(F4_5236020, fmul(F9_2422029EM4, t1900)),
        model::TWO_PI,
    );
    // cos Iₗ = 0.91375164 − 0.03568096 cos Ωₗₑ
    let lunar_inclination_cosine = fsub(
        F0_91375164,
        fmul(F0_03568096, fcos(lunar_right_ascension_epsilon)),
    );
    // sin Iₗ = (1 − cos²Iₗ)¹ᐟ²
    let lunar_inclination_sine = fsqrt(
        fsub(F1, fmul(lunar_inclination_cosine, lunar_inclination_cosine)),
    );
    // sin Ωₗ = 0.089683511 sin Ωₗₑ / sin Iₗ
    let lunar_right_ascension_sine = fdiv(
        fmul(F0_089683511, fsin(lunar_right_ascension_epsilon)),
        lunar_inclination_sine,
    );
    // cos Ωₗ = (1 − sin²Ωₗ)¹ᐟ²
    let lunar_right_ascension_cosine = fsqrt(
        fsub(F1, fmul(lunar_right_ascension_sine, lunar_right_ascension_sine)),
    );
    // ωₗ = 5.8351514 + 0.001944368 t₁₉₀₀
    //      + tan⁻¹(0.39785416 sin Ωₗₑ / sin Iₗ,
    //              cos Ωₗ cos Ωₗₑ + 0.91744867 sin Ωₗ sin Ωₗₑ) − Ωₗₑ
    let lunar_argument_of_perigee = fsub(
        fadd(
            fadd(F5_8351514, fmul(F0_001944368, t1900)),
            fatan2(
                fdiv(
                    fmul(ZSINIS, fsin(lunar_right_ascension_epsilon)),
                    lunar_inclination_sine,
                ),
                fadd(
                    fmul(lunar_right_ascension_cosine, fcos(lunar_right_ascension_epsilon)),
                    fmul(
                        fmul(ZCOSIS, lunar_right_ascension_sine),
                        fsin(lunar_right_ascension_epsilon),
                    ),
                ),
            ),
        ),
        lunar_right_ascension_epsilon,
    );
    let lunar = third_body::perturbations_and_dots(
        orbit_0.inclination,
        orbit_0.eccentricity,
        orbit_0.argument_of_perigee,
        orbit_0.mean_motion,
        lunar_inclination_sine,
        lunar_inclination_cosine,
        // sin(Ω₀ − Ωₗ) = sin Ω₀ cos Ωₗ − cos Ω₀ sin Ωₗ
        fsub(
            fmul(fsin(orbit_0.right_ascension), lunar_right_ascension_cosine),
            fmul(fcos(orbit_0.right_ascension), lunar_right_ascension_sine),
        ),
        // cos(Ω₀ − Ωₗ) = cos Ωₗ cos Ω₀ + sin Ωₗ sin Ω₀
        fadd(
            fmul(lunar_right_ascension_cosine, fcos(orbit_0.right_ascension)),
            fmul(lunar_right_ascension_sine, fsin(orbit_0.right_ascension)),
        ),
        LUNAR_ECCENTRICITY,
        fsin(lunar_argument_of_perigee),
        fcos(lunar_argument_of_perigee),
        LUNAR_PERTURBATION_COEFFICIENT,
        LUNAR_MEAN_MOTION,
        // Mₗ₀ = (−1.1151842 + 0.228027132 t₁₉₀₀) rem 2π
        frem(fadd(FN1_1151842, fmul(F0_228027132, t1900)), model::TWO_PI),
        p1,
        b0,
    );
    let lunar_perturbations = lunar.0;
    let lunar_dots = lunar.1;
    propagator::Constants {
        geopotential: *geopotential,
        drag_term: drag_term,
        // Ω̇ = p₁₃ + (Ω̇ₛ + Ω̇ₗ)
        right_ascension_dot: fadd(
            p13,
            fadd(solar_dots.right_ascension, lunar_dots.right_ascension),
        ),
        // ω̇ = k₁₄ + (ω̇ₛ + ω̇ₗ)
        argument_of_perigee_dot: fadd(
            k14,
            fadd(solar_dots.argument_of_perigee, lunar_dots.argument_of_perigee),
        ),
        // Ṁ = p₁₄ + (Ṁₛ + Ṁₗ)
        mean_anomaly_dot: fadd(p14, fadd(solar_dots.mean_anomaly, lunar_dots.mean_anomaly)),
        c1: c1,
        c4: c4,
        k0: k0,
        k1: k1,
        method: propagator::Method::DeepSpace {
            eccentricity_dot: fadd(solar_dots.eccentricity, lunar_dots.eccentricity),
            inclination_dot: fadd(solar_dots.inclination, lunar_dots.inclination),
            solar_perturbations: solar_perturbations,
            lunar_perturbations: lunar_perturbations,
            resonant: if (flt(orbit_0.mean_motion, ONE_DAY_UPPER) && flt(
                ONE_DAY_LOWER,
                orbit_0.mean_motion,
            )) || (fle(HALF_DAY_LOWER, orbit_0.mean_motion) && fle(
                orbit_0.mean_motion,
                HALF_DAY_UPPER,
            ) && fle(F0_5, orbit_0.eccentricity)) {
                let sidereal_time_0 = model::epoch_to_sidereal_time(epoch_to_sidereal_time, t0);
                if flt(orbit_0.mean_motion, ONE_DAY_UPPER) && flt(
                    ONE_DAY_LOWER,
                    orbit_0.mean_motion,
                ) {
                    propagator::Resonant::Yes {
                        // λ₀ = M₀ + Ω₀ + ω₀ − θ₀ rem 2π
                        lambda_0: frem(
                            fsub(
                                fadd(
                                    fadd(orbit_0.mean_anomaly, orbit_0.right_ascension),
                                    orbit_0.argument_of_perigee,
                                ),
                                sidereal_time_0,
                            ),
                            model::TWO_PI,
                        ),
                        // λ̇₀ = p₁₄ + (k₁₄ + p₁₃) − θ̇ + (Ṁₛ + Ṁₗ) + (ω̇ₛ + ω̇ₗ)
                        //      + (Ω̇ₛ + Ω̇ₗ) − n₀"
                        lambda_dot_0: fsub(
                            fadd(
                                fadd(
                                    fadd(
                                        fsub(fadd(p14, fadd(k14, p13)), model::SIDEREAL_SPEED),
                                        fadd(solar_dots.mean_anomaly, lunar_dots.mean_anomaly),
                                    ),
                                    fadd(
                                        solar_dots.argument_of_perigee,
                                        lunar_dots.argument_of_perigee,
                                    ),
                                ),
                                fadd(solar_dots.right_ascension, lunar_dots.right_ascension),
                            ),
                            orbit_0.mean_motion,
                        ),
                        sidereal_time_0: sidereal_time_0,
                        resonance: one_day_resonance(orbit_0, p0, a0),
                    }
                } else {
                    propagator::Resonant::Yes {
                        // λ₀ = M₀ + 2 Ω₀ − 2 θ₀ rem 2π
                        lambda_0: frem(
                            fsub(
                                fsub(
                                    fadd(
                                        fadd(orbit_0.mean_anomaly, orbit_0.right_ascension),
                                        orbit_0.right_ascension,
                                    ),
                                    sidereal_time_0,
                                ),
                                sidereal_time_0,
                            ),
                            model::TWO_PI,
                        ),
                        // λ̇₀ = p₁₄ + (Ṁₛ + Ṁₗ) + 2 (p₁₃ + (Ω̇ₛ + Ω̇ₗ) − θ̇) − n₀"
                        lambda_dot_0: fsub(
                            fadd(
                                fadd(p14, fadd(solar_dots.mean_anomaly, lunar_dots.mean_anomaly)),
                                fmul(
                                    F2,
                                    fsub(
                                        fadd(
                                            p13,
                                            fadd(
                                                solar_dots.right_ascension,
                                                lunar_dots.right_ascension,
                                            ),
                                        ),
                                        model::SIDEREAL_SPEED,
                                    ),
                                ),
                            ),
                            orbit_0.mean_motion,
                        ),
                        sidereal_time_0: sidereal_time_0,
                        resonance: half_day_resonance(orbit_0, p0, a0, k14),
                    }
                }
            } else {
                propagator::Resonant::No { a0: a0 }
            },
        },
        orbit_0: orbit_0,
    }
}

impl propagator::Constants {
    /// The deep-space orbital elements at `t` minutes after the epoch, and
    /// the integrator state after the evaluation.
    pub open spec fn spec_deep_space_orbital_elements(
        self,
        eccentricity_dot: u64,
        inclination_dot: u64,
        solar_perturbations: third_body::Perturbations,
        lunar_perturbations: third_body::Perturbations,
        resonant: propagator::Resonant,
        state: Option<ResonanceState>,
        t: u64,
        p21: u64,
        p22: u64,
        afspc_compatibility_mode: bool,
    ) -> (Result<propagator::OrbitalElements, propagator::Error>, Option<ResonanceState>) {
    let integrated = match resonant {
        propagator::Resonant::No { a0 } => (
            (a0, fadd(self.orbit_0.mean_anomaly, fmul(self.mean_anomaly_dot, t))),
            state,
        ),
        propagator::Resonant::Yes { lambda_dot_0, sidereal_time_0, resonance, .. } => {
            let run = spec_integrate(
                state->0,
                self.geopotential,
                self.orbit_0.argument_of_perigee,
                lambda_dot_0,
                resonance,
                sidereal_time_0,
                t,
                p21,
                p22,
            );
            (run.0, Some(run.1))
        },
    };
    let p26 = integrated.0.0;
    let p27 = integrated.0.1;
    let new_state = integrated.1;

    let solar_effects = solar_perturbations.long_period_periodic_effects(
        SOLAR_ECCENTRICITY,
        SOLAR_MEAN_MOTION,
        t,
    );
    let lunar_effects = lunar_perturbations.long_period_periodic_effects(
        LUNAR_ECCENTRICITY,
        LUNAR_MEAN_MOTION,
        t,
    );
    // δI = δIₛ + δIₗ; the rotation terms are summed the same way
    let delta_inclination = fadd(solar_effects.1, lunar_effects.1);
    let l4 = fadd(solar_effects.3, lunar_effects.3);
    let l5 = fadd(solar_effects.4, lunar_effects.4);
    // I = I₀ + İ t + (δIₛ + δIₗ)
    let inclination = fadd(
        fadd(self.orbit_0.inclination, fmul(inclination_dot, t)),
        delta_inclination,
    );
    let angles = if fle(F0_2, inclination) {
        AnglePair {
            // Ω = p₂₁ + (lₛ₅ + lₗ₅) / sin I
            right_ascension: fadd(p21, fdiv(l5, fsin(inclination))),
            // ω = p₂₂ + (lₛ₄ + lₗ₄) − cos I (lₛ₅ + lₗ₅) / sin I
            argument_of_perigee: fsub(
                fadd(p22, l4),
                fmul(fcos(inclination), fdiv(l5, fsin(inclination))),
            ),
        }
    } else {
        //             sin I sin p₂₁ + (lₛ₅ + lₗ₅) cos p₂₁ + δI cos I sin p₂₁
        // p₂₈ = tan⁻¹ ----------------------------------------------------
        //             sin I cos p₂₁ − (lₛ₅ + lₗ₅) sin p₂₁ + δI cos I cos p₂₁
        let p28 = fatan2(
            fadd(
                fmul(fsin(inclination), fsin(p21)),
                fadd(
                    fmul(l5, fcos(p21)),
                    fmul(fmul(delta_inclination, fcos(inclination)), fsin(p21)),
                ),
            ),
            fadd(
                fmul(fsin(inclination), fcos(p21)),
                fadd(
                    fmul(fneg(l5), fsin(p21)),
                    fmul(fmul(delta_inclination, fcos(inclination)), fcos(p21)),
                ),
            ),
        );
        let p21_rem = frem(p21, model::TWO_PI);
        // Ω is wrapped into the 2π window around p₂₁ rem 2π
        let right_ascension = if flt(p28, fsub(p21_rem, model::PI)) {
            fadd(p28, model::TWO_PI)
        } else if flt(fadd(p21_rem, model::PI), p28) {
            fsub(p28, model::TWO_PI)
        } else {
            p28
        };
        AnglePair {
            right_ascension: right_ascension,
            // ω = p₂₂ + (lₛ₄ + lₗ₄) + cos I ((p₂₁ rem 2π) − Ω) − δI R sin I,
            // R the Euclidean remainder of p₂₁ by 2π in AFSPC compatibility
            // mode and the truncated remainder otherwise
            argument_of_perigee: fsub(
                fadd(
                    fadd(p22, l4),
                    fmul(fcos(inclination), fsub(p21_rem, right_ascension)),
                ),
                fmul(
                    fmul(
                        delta_inclination,
                        if afspc_compatibility_mode {
                            frem_euclid(p21, model::TWO_PI)
                        } else {
                            frem(p21, model::TWO_PI)
                        },
                    ),
                    fsin(inclination),
                ),
            ),
        }
    };
    // p₂₉ = e₀ + ė t − B* C₄ t
    let p29 = fsub(
        fadd(self.orbit_0.eccentricity, fmul(eccentricity_dot, t)),
        fmul(fmul(self.drag_term, self.c4), t),
    );
    if fle(F1, p29) || flt(p29, FN0_001) {
        (Err(propagator::Error::DivergingEccentricity), new_state)
    } else {
        // e = max(p₂₉, 10⁻⁶) + (δeₛ + δeₗ)
        let eccentricity = fadd(fmax(p29, F1EM6), fadd(solar_effects.0, lunar_effects.0));
        if flt(eccentricity, F0) || flt(F1, eccentricity) {
            (Err(propagator::Error::DivergingPerturbedEccentricity), new_state)
        } else {
            // M = p₂₇ + (δMₛ + δMₗ)
            let mean_anomaly = fadd(p27, fadd(solar_effects.2, lunar_effects.2));
            // a = p₂₆ (1 − C₁ t)²
            let drag_factor = fsub(F1, fmul(self.c1, t));
            let a = fmul(p26, fmul(drag_factor, drag_factor));
            let elements = propagator::OrbitalElements {
                orbit: propagator::Orbit {
                    inclination: inclination,
                    right_ascension: angles.right_ascension,
                    eccentricity: eccentricity,
                    argument_of_perigee: angles.argument_of_perigee,
                    mean_anomaly: mean_anomaly,
                    // n = kₑ / a³ᐟ²
                    mean_motion: fdiv(self.geopotential.ke, fpow(a, F1_5)),
                },
                a: a,
                // 𝕃 = M + n₀" k₁ t²
                l: fadd(
                    mean_anomaly,
                    fmul(fmul(self.orbit_0.mean_motion, self.k1), fmul(t, t)),
                ),
                // p₃₀ = − ¹/₂ (J₃ / J₂) sin I
                p30: fmul(
                    fmul(FN0_5, fdiv(self.geopotential.j3, self.geopotential.j2)),
                    fsin(inclination),
                ),
                // p₃₁ = 1 − cos²I
                p31: fsub(F1, fmul(fcos(inclination), fcos(inclination))),
                // p₃₂ = 7 cos²I − 1
                p32: fsub(fmul(F7, fmul(fcos(inclination), fcos(inclination))), F1),
                // p₃₃ = − ¹/₄ (J₃ / J₂) sin I (3 + 5 cos I) / (1 + cos I),
                // guarded near cos I = −1
                p33: if flt(F1_5EM12, fabs(fadd(F1, fcos(inclination)))) {
                    fdiv(
                        fmul(
                            fmul(
                                fmul(FN0_25, fdiv(self.geopotential.j3, self.geopotential.j2)),
                                fsin(inclination),
                            ),
                            fadd(F3, fmul(F5, fcos(inclination))),
                        ),
                        fadd(F1, fcos(inclination)),
                    )
                } else {
                    fdiv(
                        fmul(
                            fmul(
                                fmul(FN0_25, fdiv(self.geopotential.j3, self.geopotential.j2)),
                                fsin(inclination),
                            ),
                            fadd(F3, fmul(F5, fcos(inclination))),
                        ),
                        F1_5EM12,
                    )
                },
                // p₃₄ = 3 cos²I − 1
                p34: fsub(fmul(F3, fmul(fcos(inclination), fcos(inclination))), F1),
            };
            (Ok(elements), new_state)
        }
    }
    }

    /// The deep-space orbital elements at `t` minutes after the epoch.
    ///
    /// A resonant orbit must come with a live integrator state that accepts
    /// the target time; a non-resonant one must come with none, as the
    /// precondition states.
    pub fn deep_space_orbital_elements(
        &self,
        eccentricity_dot: u64,
        inclination_dot: u64,
        solar_perturbations: &third_body::Perturbations,
        lunar_perturbations: &third_body::Perturbations,
        resonant: &propagator::Resonant,
        state: &mut Option<ResonanceState>,
        t: u64,
        p21: u64,
        p22: u64,
        afspc_compatibility_mode: bool,
    ) -> (r: Result<propagator::OrbitalElements, propagator::Error>)
        requires
            match *resonant {
                propagator::Resonant::No { .. } => *old(state) is None,
                propagator::Resonant::Yes { .. } => *old(state) is Some && spec_accepts_target(
                    (*old(state))->0,
                    t,
                ),
            },
        ensures
            r == self.spec_deep_space_orbital_elements(
                eccentricity_dot,
                inclination_dot,
                *solar_perturbations,
                *lunar_perturbations,
                *resonant,
                *old(state),
                t,
                p21,
                p22,
                afspc_compatibility_mode,
            ).0,
            *final(state) == self.spec_deep_space_orbital_elements(
                eccentricity_dot,
                inclination_dot,
                *solar_perturbations,
                *lunar_perturbations,
                *resonant,
                *old(state),
                t,
                p21,
                p22,
                afspc_compatibility_mode,
            ).1,
    {
        let integrated: (u64, u64) = match resonant {
            propagator::Resonant::No { a0 } => (
                *a0,
                fadd(self.orbit_0.mean_anomaly, fmul(self.mean_anomaly_dot, t)),
            ),
            propagator::Resonant::Yes { lambda_dot_0, sidereal_time_0, resonance, .. } => {
                match state {
                    Some(resonance_state) => resonance_state.integrate(
                        &self.geopotential,
                        self.orbit_0.argument_of_perigee,
                        *lambda_dot_0,
                        resonance,
                        *sidereal_time_0,
                        t,
                        p21,
                        p22,
                    ),
                    None => {
                        // the precondition ties a resonant orbit to a live state
                        proof {
                            assert(false);
                        }
                        (F0, F0)
                    },
                }
            },
        };
        let p26 = integrated.0;
        let p27 = integrated.1;

        let solar_effects = solar_perturbations.long_period_periodic_effects(
            SOLAR_ECCENTRICITY,
            SOLAR_MEAN_MOTION,
            t,
        );
        let lunar_effects = lunar_perturbations.long_period_periodic_effects(
            LUNAR_ECCENTRICITY,
            LUNAR_MEAN_MOTION,
            t,
        );
        // δI = δIₛ + δIₗ; the rotation terms are summed the same way
        let delta_inclination = fadd(solar_effects.1, lunar_effects.1);
        let l4 = fadd(solar_effects.3, lunar_effects.3);
        let l5 = fadd(solar_effects.4, lunar_effects.4);
        // I = I₀ + İ t + (δIₛ + δIₗ)
        let inclination = fadd(
            fadd(self.orbit_0.inclination, fmul(inclination_dot, t)),
            delta_inclination,
        );
        let angles = if fle(F0_2, inclination) {
            AnglePair {
                // Ω = p₂₁ + (lₛ₅ + lₗ₅) / sin I
                right_ascension: fadd(p21, fdiv(l5, fsin(inclination))),
                // ω = p₂₂ + (lₛ₄ + lₗ₄) − cos I (lₛ₅ + lₗ₅) / sin I
                argument_of_perigee: fsub(
                    fadd(p22, l4),
                    fmul(fcos(inclination), fdiv(l5, fsin(inclination))),
                ),
            }
        } else {
            //             sin I sin p₂₁ + (lₛ₅ + lₗ₅) cos p₂₁ + δI cos I sin p₂₁
            // p₂₈ = tan⁻¹ ----------------------------------------------------
            //             sin I cos p₂₁ − (lₛ₅ + lₗ₅) sin p₂₁ + δI cos I cos p₂₁
            let p28 = fatan2(
                fadd(
                    fmul(fsin(inclination), fsin(p21)),
                    fadd(
                        fmul(l5, fcos(p21)),
                        fmul(fmul(delta_inclination, fcos(inclination)), fsin(p21)),
                    ),
                ),
                fadd(
                    fmul(fsin(inclination), fcos(p21)),
                    fadd(
                        fmul(fneg(l5), fsin(p21)),
                        fmul(fmul(delta_inclination, fcos(inclination)), fcos(p21)),
                    ),
                ),
            );
            let p21_rem = frem(p21, model::TWO_PI);
            // Ω is wrapped into the 2π window around p₂₁ rem 2π
            let right_ascension = if flt(p28, fsub(p21_rem, model::PI)) {
                fadd(p28, model::TWO_PI)
            } else if flt(fadd(p21_rem, model::PI), p28) {
                fsub(p28, model::TWO_PI)
            } else {
                p28
            };
            AnglePair {
                right_ascension: right_ascension,
                // ω = p₂₂ + (lₛ₄ + lₗ₄) + cos I ((p₂₁ rem 2π) − Ω) − δI R sin I,
                // R the Euclidean remainder of p₂₁ by 2π in AFSPC compatibility
                // mode and the truncated remainder otherwise
                argument_of_perigee: fsub(
                    fadd(
                        fadd(p22, l4),
                        fmul(fcos(inclination), fsub(p21_rem, right_ascension)),
                    ),
                    fmul(
                        fmul(
                            delta_inclination,
                            if afspc_compatibility_mode {
                                frem_euclid(p21, model::TWO_PI)
                            } else {
                                frem(p21, model::TWO_PI)
                            },
                        ),
                        fsin(inclination),
                    ),
                ),
            }
        };
        // p₂₉ = e₀ + ė t − B* C₄ t
        let p29 = fsub(
            fadd(self.orbit_0.eccentricity, fmul(eccentricity_dot, t)),
            fmul(fmul(self.drag_term, self.c4), t),
        );
        if fle(F1, p29) || flt(p29, FN0_001) {
            Err(propagator::Error::DivergingEccentricity)
        } else {
            // e = max(p₂₉, 10⁻⁶) + (δeₛ + δeₗ)
            let eccentricity = fadd(fmax(p29, F1EM6), fadd(solar_effects.0, lunar_effects.0));
            if flt(eccentricity, F0) || flt(F1, eccentricity) {
                Err(propagator::Error::DivergingPerturbedEccentricity)
            } else {
                // M = p₂₇ + (δMₛ + δMₗ)
                let mean_anomaly = fadd(p27, fadd(solar_effects.2, lunar_effects.2));
                // a = p₂₆ (1 − C₁ t)²
                let drag_factor = fsub(F1, fmul(self.c1, t));
                let a = fmul(p26, fmul(drag_factor, drag_factor));
                let elements = propagator::OrbitalElements {
                    orbit: propagator::Orbit {
                        inclination: inclination,
                        right_ascension: angles.right_ascension,
                        eccentricity: eccentricity,
                        argument_of_perigee: angles.argument_of_perigee,
                        mean_anomaly: mean_anomaly,
                        // n = kₑ / a³ᐟ²
                        mean_motion: fdiv(self.geopotential.ke, fpow(a, F1_5)),
                    },
                    a: a,
                    // 𝕃 = M + n₀" k₁ t²
                    l: fadd(
                        mean_anomaly,
                        fmul(fmul(self.orbit_0.mean_motion, self.k1), fmul(t, t)),
                    ),
                    // p₃₀ = − ¹/₂ (J₃ / J₂) sin I
                    p30: fmul(
                        fmul(FN0_5, fdiv(self.geopotential.j3, self.geopotential.j2)),
                        fsin(inclination),
                    ),
                    // p₃₁ = 1 − cos²I
                    p31: fsub(F1, fmul(fcos(inclination), fcos(inclination))),
                    // p₃₂ = 7 cos²I − 1
                    p32: fsub(fmul(F7, fmul(fcos(inclination), fcos(inclination))), F1),
                    // p₃₃ = − ¹/₄ (J₃ / J₂) sin I (3 + 5 cos I) / (1 + cos I),
                    // guarded near cos I = −1
                    p33: if flt(F1_5EM12, fabs(fadd(F1, fcos(inclination)))) {
                        fdiv(
                            fmul(
                                fmul(
                                    fmul(FN0_25, fdiv(self.geopotential.j3, self.geopotential.j2)),
                                    fsin(inclination),
                                ),
                                fadd(F3, fmul(F5, fcos(inclination))),
                            ),
                            fadd(F1, fcos(inclination)),
                        )
                    } else {
                        fdiv(
                            fmul(
                                fmul(
                                    fmul(FN0_25, fdiv(self.geopotential.j3, self.geopotential.j2)),
                                    fsin(inclination),
                                ),
                                fadd(F3, fmul(F5, fcos(inclination))),
                            ),
                            F1_5EM12,
                        )
                    },
                    // p₃₄ = 3 cos²I − 1
                    p34: fsub(fmul(F3, fmul(fcos(inclination), fcos(inclination))), F1),
                };
                Ok(elements)
            }
        }
    }
}

} // verus!
