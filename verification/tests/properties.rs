//! The library-wide properties of the propagator, on concrete values.

fn tle(
    epoch: f64,
    drag_term: f64,
    inclination: f64,
    right_ascension: f64,
    eccentricity: f64,
    argument_of_perigee: f64,
    mean_anomaly: f64,
    mean_motion: f64,
) -> sgp4::tle::Tle {
    sgp4::tle::Tle {
        epoch: epoch.to_bits(),
        epoch_afspc_compatibility_mode: epoch.to_bits(),
        drag_term: drag_term.to_bits(),
        inclination: inclination.to_bits(),
        right_ascension: right_ascension.to_bits(),
        eccentricity: eccentricity.to_bits(),
        argument_of_perigee: argument_of_perigee.to_bits(),
        mean_anomaly: mean_anomaly.to_bits(),
        mean_motion: mean_motion.to_bits(),
    }
}

fn molniya_8195() -> sgp4::tle::Tle {
    tle(
        6.4800332770431179,
        0.11873e-3,
        64.1586,
        279.0717,
        0.6877146,
        264.7651,
        20.2257,
        2.00491383,
    )
}

fn position_distance(a: &sgp4::Prediction, b: &sgp4::Prediction) -> f64 {
    let mut sum = 0.0;
    for k in 0..3 {
        let d = f64::from_bits(a.position[k]) - f64::from_bits(b.position[k]);
        sum += d * d;
    }
    sum.sqrt()
}

/// Converts a Brouwer mean motion back to a Kozai mean motion by fixed-point
/// iteration of the forward conversion's correction factor.
fn brouwer_to_kozai(geopotential: &sgp4::model::Geopotential, inclination: f64, eccentricity: f64, brouwer: f64) -> f64 {
    let ke = f64::from_bits(geopotential.ke);
    let j2 = f64::from_bits(geopotential.j2);
    let mut kozai = brouwer;
    for _ in 0..20 {
        let a1 = (ke / kozai).powf(2.0 / 3.0);
        let p2 = 0.75 * j2 * (3.0 * inclination.cos().powi(2) - 1.0)
            / (1.0 - eccentricity.powi(2)).powf(1.5);
        let d1 = p2 / a1.powi(2);
        let d0 = p2
            / (a1 * (1.0 - d1.powi(2) - d1 * (1.0 / 3.0 + 134.0 * d1.powi(2) / 81.0))).powi(2);
        kozai = brouwer * (1.0 + d0);
    }
    kozai
}

#[test]
fn kozai_brouwer_round_trip() {
    let geopotential = sgp4::model::wgs72();
    let cases: [(f64, f64, f64); 3] = [
        (0.5981, 0.1859667, 10.82419157 * std::f64::consts::PI / 720.0),
        (1.1199, 0.6877146, 2.00491383 * std::f64::consts::PI / 720.0),
        (1.7178, 0.0000884, 14.35478080 * std::f64::consts::PI / 720.0),
    ];
    for (inclination, eccentricity, kozai) in cases {
        let orbit = sgp4::Orbit::from_kozai_elements(
            &geopotential,
            inclination.to_bits(),
            0.0f64.to_bits(),
            eccentricity.to_bits(),
            0.0f64.to_bits(),
            0.0f64.to_bits(),
            kozai.to_bits(),
        )
        .unwrap();
        let brouwer = f64::from_bits(orbit.mean_motion);
        let recovered = brouwer_to_kozai(&geopotential, inclination, eccentricity, brouwer);
        assert!(
            ((recovered - kozai) / kozai).abs() < 1.0e-14,
            "round trip {} -> {} -> {}",
            kozai,
            brouwer,
            recovered,
        );
    }
}

#[test]
fn zero_time_propagation_matches_two_body_motion() {
    // with vanishing harmonics and no drag the theory reduces to a Kepler
    // orbit: at t = 0 the radius is a (1 - e cos E₀) aₑ and the speed obeys
    // the vis-viva relation
    let geopotential = sgp4::model::Geopotential {
        ae: 6378.135f64.to_bits(),
        ke: 0.07436691613317342f64.to_bits(),
        j2: 1.0e-30f64.to_bits(),
        j3: 0.0f64.to_bits(),
        j4: 0.0f64.to_bits(),
    };
    let cases: [(f64, f64); 2] = [(0.1, 1.2), (0.4, 4.0)];
    for (eccentricity, mean_anomaly) in cases {
        let orbit = sgp4::Orbit::from_kozai_elements(
            &geopotential,
            0.6f64.to_bits(),
            1.0f64.to_bits(),
            eccentricity.to_bits(),
            0.5f64.to_bits(),
            mean_anomaly.to_bits(),
            0.05f64.to_bits(),
        )
        .unwrap();
        let constants = sgp4::Constants::new(
            &geopotential,
            sgp4::model::EpochToSiderealTime::Afspc,
            0.0f64.to_bits(),
            0.0f64.to_bits(),
            orbit,
        )
        .unwrap();
        let prediction = constants.propagate(0.0f64.to_bits()).unwrap();
        let ae = f64::from_bits(geopotential.ae);
        let ke = f64::from_bits(geopotential.ke);
        let n = f64::from_bits(constants.orbit_0.mean_motion);
        let a = (ke / n).powf(2.0 / 3.0);
        let mut eccentric_anomaly: f64 = mean_anomaly;
        for _ in 0..50 {
            eccentric_anomaly -= (eccentric_anomaly - eccentricity * eccentric_anomaly.sin()
                - mean_anomaly)
                / (1.0 - eccentricity * eccentric_anomaly.cos());
        }
        let radius = a * (1.0 - eccentricity * eccentric_anomaly.cos()) * ae;
        let magnitude = (0..3)
            .map(|k| f64::from_bits(prediction.position[k]).powi(2))
            .sum::<f64>()
            .sqrt();
        assert!(
            ((magnitude - radius) / radius).abs() < 1.0e-9,
            "|r| = {}, two-body radius = {}",
            magnitude,
            radius,
        );
        let speed_squared = (0..3)
            .map(|k| f64::from_bits(prediction.velocity[k]).powi(2))
            .sum::<f64>();
        let vis_viva = (ae * ke / 60.0).powi(2) * (2.0 / (radius / ae) - 1.0 / a);
        assert!(
            ((speed_squared - vis_viva) / vis_viva).abs() < 1.0e-9,
            "v² = {}, vis-viva = {}",
            speed_squared,
            vis_viva,
        );
    }
}

#[test]
fn propagation_is_deterministic() {
    let constants = sgp4::Constants::from_tle_afspc_compatibility_mode(&molniya_8195()).unwrap();
    for t in [0.0f64, 360.0, 1440.0] {
        let first = constants.propagate_afspc_compatibility_mode(t.to_bits()).unwrap();
        let second = constants.propagate_afspc_compatibility_mode(t.to_bits()).unwrap();
        assert_eq!(first.position, second.position);
        assert_eq!(first.velocity, second.velocity);
    }
}

#[test]
fn sequential_state_matches_fresh_states() {
    let constants = sgp4::Constants::from_tle_afspc_compatibility_mode(&molniya_8195()).unwrap();
    let mut state = constants.initial_state();
    for t in [0.0f64, 720.0, 1440.0, 2160.0, 2880.0] {
        let sequential = constants
            .propagate_from_state(t.to_bits(), &mut state, true)
            .unwrap();
        let mut fresh_state = constants.initial_state();
        let fresh = constants
            .propagate_from_state(t.to_bits(), &mut fresh_state, true)
            .unwrap();
        assert!(
            position_distance(&sequential, &fresh) < 1.0e-9,
            "sequential and fresh states disagree at t = {}",
            t,
        );
    }
}

#[test]
fn resonance_branch_continuity() {
    // across the G-polynomial segmentation points the prediction moves
    // continuously: a 10⁻⁹ step in e₀ over a boundary moves each coordinate
    // by far less than 10⁻³ km
    for edge in [0.65f64, 0.7, 0.715] {
        let below = sgp4::Constants::from_tle_afspc_compatibility_mode(&tle(
            6.4800332770431179,
            0.0,
            64.1586,
            279.0717,
            edge - 1.0e-9,
            264.7651,
            20.2257,
            2.00491383,
        ))
        .unwrap();
        let above = sgp4::Constants::from_tle_afspc_compatibility_mode(&tle(
            6.4800332770431179,
            0.0,
            64.1586,
            279.0717,
            edge + 1.0e-9,
            264.7651,
            20.2257,
            2.00491383,
        ))
        .unwrap();
        let t = 60.0f64.to_bits();
        let low = below.propagate_afspc_compatibility_mode(t).unwrap();
        let high = above.propagate_afspc_compatibility_mode(t).unwrap();
        assert!(
            position_distance(&low, &high) < 1.0e-3,
            "jump of {} km across e₀ = {}",
            position_distance(&low, &high),
            edge,
        );
    }
}

#[test]
fn compatibility_modes_agree_for_positive_times() {
    let constants = sgp4::Constants::from_tle_afspc_compatibility_mode(&tle(
        -19.373589875756331,
        0.014311,
        46.7916,
        230.4354,
        0.7318036,
        47.4722,
        10.4117,
        2.28537848,
    ))
    .unwrap();
    for t in [0.0f64, 360.0, 1440.0, 10000.0] {
        let plain = constants.propagate(t.to_bits()).unwrap();
        let afspc = constants.propagate_afspc_compatibility_mode(t.to_bits()).unwrap();
        assert_eq!(plain.position, afspc.position);
        assert_eq!(plain.velocity, afspc.velocity);
    }
}

fn low_inclination_deep_space() -> sgp4::Constants {
    // a deep-space orbit under the 0.2 rad inclination threshold whose node
    // angle p₂₁ turns negative after a few thousand minutes
    let geopotential = sgp4::model::wgs72();
    let orbit = sgp4::Orbit::from_kozai_elements(
        &geopotential,
        0.1f64.to_bits(),
        0.001f64.to_bits(),
        0.3f64.to_bits(),
        1.0f64.to_bits(),
        2.0f64.to_bits(),
        (1.5 * std::f64::consts::PI / 720.0).to_bits(),
    )
    .unwrap();
    sgp4::Constants::new(
        &geopotential,
        sgp4::model::EpochToSiderealTime::Afspc,
        6.0f64.to_bits(),
        0.0f64.to_bits(),
        orbit,
    )
    .unwrap()
}

#[test]
fn compatibility_modes_agree_while_node_angle_is_positive() {
    let constants = low_inclination_deep_space();
    let plain = constants.propagate(100.0f64.to_bits()).unwrap();
    let afspc = constants.propagate_afspc_compatibility_mode(100.0f64.to_bits()).unwrap();
    assert_eq!(plain.position, afspc.position);
    assert_eq!(plain.velocity, afspc.velocity);
}

#[test]
fn node_angle_wraps_through_the_modular_reduction() {
    // far from the epoch the node angle p₂₁ passes below −2π, so the
    // modular reduction in the low-inclination branch does real work in
    // both compatibility modes
    let constants = low_inclination_deep_space();
    let plain = constants.propagate(2.51e7f64.to_bits()).unwrap();
    for (k, expected) in [
        (0usize, 30299.941590418f64),
        (1, -17352.211227071),
        (2, 1315.658582000),
    ] {
        let got = f64::from_bits(plain.position[k]);
        assert!((got - expected).abs() < 1.0e-4, "position[{}] = {}", k, got);
    }
    let afspc = constants.propagate_afspc_compatibility_mode(2.51e7f64.to_bits()).unwrap();
    for (k, expected) in [
        (0usize, 30304.256821616f64),
        (1, -17344.554301984),
        (2, 1317.225480373),
    ] {
        let got = f64::from_bits(afspc.position[k]);
        assert!((got - expected).abs() < 1.0e-4, "position[{}] = {}", k, got);
    }
}

#[test]
fn compatibility_modes_differ_once_node_angle_turns_negative() {
    // where p₂₁ is negative the truncated and the Euclidean remainder differ
    // by 2π, and the low-inclination branch feels it
    let constants = low_inclination_deep_space();
    let plain = constants.propagate(5000.0f64.to_bits()).unwrap();
    let afspc = constants.propagate_afspc_compatibility_mode(5000.0f64.to_bits()).unwrap();
    let distance = position_distance(&plain, &afspc);
    assert!(
        distance > 1.0e-3,
        "modes should part here, they differ by {} km",
        distance,
    );
}
