//! Data model of the propagator.
//!
//! Every floating-point quantity is the `u64` bit pattern of an IEEE-754
//! binary64 value (see the `fp` module).

use vstd::prelude::*;
use crate::model;

verus! {

/// Mean orbital elements at an epoch.
///
/// Angles are in radians, the mean motion is the Brouwer mean motion in
/// radians per minute.
#[derive(Clone, Copy, Debug)]
pub struct Orbit {
    pub inclination: u64,
    pub right_ascension: u64,
    pub eccentricity: u64,
    pub argument_of_perigee: u64,
    pub mean_anomaly: u64,
    pub mean_motion: u64,
}

/// The higher-order drag coefficients, used by the near-earth method when
/// the perigee altitude is at least 220 km.
#[derive(Clone, Copy, Debug)]
pub struct FullCoefficients {
    pub c5: u64,
    pub d2: u64,
    pub d3: u64,
    pub d4: u64,
    pub eta: u64,
    /// (1 + η cos M₀)³
    pub delta_m0: u64,
    /// sin M₀
    pub sin_m0: u64,
    /// B* C₃ cos ω₀
    pub omgcof: u64,
    /// − ²/₃ p₆ B* / (e₀ η)
    pub xmcof: u64,
    pub t3cof: u64,
    pub t4cof: u64,
    pub t5cof: u64,
}

/// The tesseral resonance coefficient set of a deep-space orbit.
#[derive(Clone, Copy, Debug)]
pub enum Resonance {
    /// Geosynchronous belt: three sinusoidal terms in λ.
    OneDay { dr1: u64, dr2: u64, dr3: u64 },
    /// Half-day (Molniya) belt: ten tesseral terms; `k14` is the apsidal
    /// rate needed inside the integrator.
    HalfDay {
        d2201: u64,
        d2211: u64,
        d3210: u64,
        d3222: u64,
        d4410: u64,
        d4422: u64,
        d5220: u64,
        d5232: u64,
        d5421: u64,
        d5433: u64,
        k14: u64,
    },
}

/// Whether a deep-space orbit falls in a resonance belt.
#[derive(Clone, Copy, Debug)]
pub enum Resonant {
    No { a0: u64 },
    Yes { lambda_0: u64, lambda_dot_0: u64, sidereal_time_0: u64, resonance: Resonance },
}

/// The method the propagator dispatches to, chosen on the orbital period.
#[derive(Clone, Copy, Debug)]
pub enum Method {
    /// Orbital period shorter than 225 minutes; `full` is present iff the
    /// perigee altitude is at least 220 km.
    NearEarth {
        a0: u64,
        k2: u64,
        k3: u64,
        k4: u64,
        k5: u64,
        k6: u64,
        full: Option<FullCoefficients>,
    },
    /// Orbital period of at least 225 minutes, with lunisolar perturbations.
    DeepSpace {
        eccentricity_dot: u64,
        inclination_dot: u64,
        solar_perturbations: crate::third_body::Perturbations,
        lunar_perturbations: crate::third_body::Perturbations,
        resonant: Resonant,
    },
}

/// The precomputed propagation constants of one satellite at one epoch.
///
/// Read-only once constructed; propagation never writes to it.
#[derive(Clone, Copy, Debug)]
pub struct Constants {
    pub geopotential: model::Geopotential,
    pub drag_term: u64,
    pub right_ascension_dot: u64,
    pub argument_of_perigee_dot: u64,
    pub mean_anomaly_dot: u64,
    pub c1: u64,
    pub c4: u64,
    pub k0: u64,
    pub k1: u64,
    pub method: Method,
    pub orbit_0: Orbit,
}

/// A propagated state vector in the True Equator, Mean Equinox frame.
///
/// The position is in kilometers, the velocity in kilometers per second.
#[derive(Clone, Copy, Debug)]
pub struct Prediction {
    pub position: [u64; 3],
    pub velocity: [u64; 3],
}

/// The orbital elements at an evaluation time, handed by the method-specific
/// secular theories to the shared Kepler solver.
#[derive(Clone, Copy, Debug)]
pub struct OrbitalElements {
    pub orbit: Orbit,
    /// Semi-major axis, in earth radii.
    pub a: u64,
    /// Mean longitude argument 𝕃.
    pub l: u64,
    /// − ¹/₂ (J₃ / J₂) sin I
    pub p30: u64,
    /// 1 − cos²I
    pub p31: u64,
    /// 7 cos²I − 1
    pub p32: u64,
    /// − ¹/₄ (J₃ / J₂) sin I (3 + 5 cos I) / (1 + cos I)
    pub p33: u64,
    /// 3 cos²I − 1
    pub p34: u64,
}

/// The conditions on which the propagator gives up.
#[derive(Clone, Copy, Debug, PartialEq, Eq, Structural)]
pub enum Error {
    /// The Kozai mean motion handed to the element conversion was not
    /// positive.
    KozaiMeanMotionNotPositive,
    /// The Brouwer mean motion derived by the element conversion was not
    /// positive.
    BrouwerMeanMotionNotPositive,
    /// The eccentricity at epoch was outside [0, 1).
    EccentricityOutOfRange,
    /// The secularly perturbed eccentricity left [−0.001, 1) at the
    /// evaluation time.
    DivergingEccentricity,
    /// The periodically perturbed eccentricity left [0, 1] at the
    /// evaluation time.
    DivergingPerturbedEccentricity,
    /// The semi-latus rectum turned negative at the evaluation time.
    NegativeSemiLatusRectum,
}

impl Error {
    /// The descriptive reason carried by each error.
    pub open spec fn spec_message(error: Error) -> Seq<char> {
        match error {
            Error::KozaiMeanMotionNotPositive => "the Kozai mean motion must be positive"@,
            Error::BrouwerMeanMotionNotPositive => "the Brouwer mean motion must be positive"@,
            Error::EccentricityOutOfRange => "the eccentricity must be in the range [0, 1["@,
            Error::DivergingEccentricity => "diverging eccentricity"@,
            Error::DivergingPerturbedEccentricity => "diverging perturbed eccentricity"@,
            Error::NegativeSemiLatusRectum => "negative semi-latus rectum"@,
        }
    }

    /// The descriptive reason carried by the error.
    pub fn message(&self) -> (r: &'static str)
        ensures
            r@ == Error::spec_message(*self),
    {
        match self {
            Error::KozaiMeanMotionNotPositive => "the Kozai mean motion must be positive",
            Error::BrouwerMeanMotionNotPositive => "the Brouwer mean motion must be positive",
            Error::EccentricityOutOfRange => "the eccentricity must be in the range [0, 1[",
            Error::DivergingEccentricity => "diverging eccentricity",
            Error::DivergingPerturbedEccentricity => "diverging perturbed eccentricity",
            Error::NegativeSemiLatusRectum => "negative semi-latus rectum",
        }
    }
}

} // verus!
