//! The inputs on which each error of the propagator surfaces.

fn wgs72_orbit(
    inclination: f64,
    right_ascension: f64,
    eccentricity: f64,
    argument_of_perigee: f64,
    mean_anomaly: f64,
    kozai_mean_motion: f64,
) -> sgp4::Orbit {
    let geopotential = sgp4::model::wgs72();
    sgp4::Orbit::from_kozai_elements(
        &geopotential,
        inclination.to_bits(),
        right_ascension.to_bits(),
        eccentricity.to_bits(),
        argument_of_perigee.to_bits(),
        mean_anomaly.to_bits(),
        kozai_mean_motion.to_bits(),
    )
    .unwrap()
}

fn wgs72_constants(t0: f64, drag_term: f64, orbit: sgp4::Orbit) -> sgp4::Constants {
    let geopotential = sgp4::model::wgs72();
    sgp4::Constants::new(
        &geopotential,
        sgp4::model::EpochToSiderealTime::Afspc,
        t0.to_bits(),
        drag_term.to_bits(),
        orbit,
    )
    .unwrap()
}

#[test]
fn nonpositive_kozai_mean_motion_is_rejected() {
    let geopotential = sgp4::model::wgs72();
    for mean_motion in [0.0f64, -0.05] {
        let error = sgp4::Orbit::from_kozai_elements(
            &geopotential,
            0.6f64.to_bits(),
            0.0f64.to_bits(),
            0.1f64.to_bits(),
            0.0f64.to_bits(),
            0.0f64.to_bits(),
            mean_motion.to_bits(),
        )
        .unwrap_err();
        assert_eq!(error, sgp4::Error::KozaiMeanMotionNotPositive);
        assert_eq!(error.message(), "the Kozai mean motion must be positive");
    }
}

#[test]
fn out_of_range_eccentricity_is_rejected() {
    let geopotential = sgp4::model::wgs72();
    for eccentricity in [1.0f64, 1.5, -0.1] {
        let orbit = sgp4::Orbit {
            inclination: 0.6f64.to_bits(),
            right_ascension: 0.0f64.to_bits(),
            eccentricity: eccentricity.to_bits(),
            argument_of_perigee: 0.0f64.to_bits(),
            mean_anomaly: 0.0f64.to_bits(),
            mean_motion: 0.05f64.to_bits(),
        };
        let error = sgp4::Constants::new(
            &geopotential,
            sgp4::model::EpochToSiderealTime::Afspc,
            0.0f64.to_bits(),
            0.0f64.to_bits(),
            orbit,
        )
        .unwrap_err();
        assert_eq!(error, sgp4::Error::EccentricityOutOfRange);
        assert_eq!(error.message(), "the eccentricity must be in the range [0, 1[");
    }
}

#[test]
fn strong_drag_diverges_the_eccentricity() {
    // NORAD 11801 carries a large drag term; far from the epoch the secular
    // eccentricity leaves [-0.001, 1)
    let orbit = wgs72_orbit(
        46.7916f64.to_radians(),
        230.4354f64.to_radians(),
        0.7318036,
        47.4722f64.to_radians(),
        10.4117f64.to_radians(),
        2.28537848 * std::f64::consts::PI / 720.0,
    );
    let constants = wgs72_constants(-19.373589875756331, 0.014311, orbit);
    let error = constants
        .propagate_afspc_compatibility_mode(700000.0f64.to_bits())
        .unwrap_err();
    assert_eq!(error, sgp4::Error::DivergingEccentricity);
    assert_eq!(error.message(), "diverging eccentricity");
}

#[test]
fn lunisolar_terms_diverge_the_perturbed_eccentricity() {
    // a deep-space orbit whose secular eccentricity has decayed to the 10⁻⁶
    // floor while the lunisolar periodic correction is negative
    let orbit = wgs72_orbit(0.6, 1.0, 0.05, 0.5, 1.2, 1.5 * std::f64::consts::PI / 720.0);
    let constants = wgs72_constants(0.0, 1.0e-5, orbit);
    let error = constants
        .propagate_afspc_compatibility_mode(103393318.68062569f64.to_bits())
        .unwrap_err();
    assert_eq!(error, sgp4::Error::DivergingPerturbedEccentricity);
    assert_eq!(error.message(), "diverging perturbed eccentricity");
}

#[test]
fn highly_eccentric_orbit_fails_at_epoch() {
    // e₀ = 0.99 with the perigee inside the earth breaks the theory down at
    // the epoch itself: the semi-latus rectum of the Kepler solution turns
    // negative
    let orbit = wgs72_orbit(
        34.0f64.to_radians(),
        0.0,
        0.99,
        45.0f64.to_radians(),
        0.0,
        10.0 * std::f64::consts::PI / 720.0,
    );
    let constants = wgs72_constants(0.0, 1.0e-4, orbit);
    let error = constants
        .propagate_afspc_compatibility_mode(0.0f64.to_bits())
        .unwrap_err();
    assert_eq!(error, sgp4::Error::NegativeSemiLatusRectum);
    assert_eq!(error.message(), "negative semi-latus rectum");
}
