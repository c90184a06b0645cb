//! End-to-end propagation scenarios, in AFSPC compatibility mode with the
//! WGS72 gravity model, checked against the canonical SGP4 verification
//! values.

fn tle(
    epoch: f64,
    drag_term: f64,
    inclination: f64,
    right_ascension: f64,
    eccentricity: f64,
    argument_of_perigee: f64,
    mean_anomaly: f64,
    mean_motion: f64,
) -> sgp4::tle::Tle {
    sgp4::tle::Tle {
        epoch: epoch.to_bits(),
        epoch_afspc_compatibility_mode: epoch.to_bits(),
        drag_term: drag_term.to_bits(),
        inclination: inclination.to_bits(),
        right_ascension: right_ascension.to_bits(),
        eccentricity: eccentricity.to_bits(),
        argument_of_perigee: argument_of_perigee.to_bits(),
        mean_anomaly: mean_anomaly.to_bits(),
        mean_motion: mean_motion.to_bits(),
    }
}

fn assert_prediction(
    prediction: &sgp4::Prediction,
    position: [f64; 3],
    velocity: [f64; 3],
    position_tolerance: f64,
    velocity_tolerance: f64,
) {
    for k in 0..3 {
        let p = f64::from_bits(prediction.position[k]);
        assert!(
            (p - position[k]).abs() < position_tolerance,
            "position[{}] = {}, expected {}",
            k,
            p,
            position[k],
        );
        let v = f64::from_bits(prediction.velocity[k]);
        assert!(
            (v - velocity[k]).abs() < velocity_tolerance,
            "velocity[{}] = {}, expected {}",
            k,
            v,
            velocity[k],
        );
    }
}

fn vanguard_1() -> sgp4::tle::Tle {
    // NORAD 5, epoch 2000 day 179.78495062
    tle(
        0.48811759238877483,
        0.28098e-4,
        34.2682,
        348.7242,
        0.1859667,
        331.7664,
        19.3264,
        10.82419157,
    )
}

fn deep_space_11801() -> sgp4::tle::Tle {
    // NORAD 11801, epoch 1980 day 230.29629788
    tle(
        -19.373589875756331,
        0.014311,
        46.7916,
        230.4354,
        0.7318036,
        47.4722,
        10.4117,
        2.28537848,
    )
}

fn molniya_8195() -> sgp4::tle::Tle {
    // NORAD 8195, epoch 2006 day 176.33215444
    tle(
        6.4800332770431179,
        0.11873e-3,
        64.1586,
        279.0717,
        0.6877146,
        264.7651,
        20.2257,
        2.00491383,
    )
}

fn sun_synchronous_28057() -> sgp4::tle::Tle {
    // NORAD 28057, epoch 2006 day 177.78615833
    tle(
        6.4840141227378512,
        0.35940e-4,
        98.4283,
        247.6961,
        0.0000884,
        90.1588,
        269.9891,
        14.35478080,
    )
}

#[test]
fn vanguard_1_at_epoch() {
    let constants = sgp4::Constants::from_tle_afspc_compatibility_mode(&vanguard_1()).unwrap();
    let prediction = constants.propagate_afspc_compatibility_mode(0.0f64.to_bits()).unwrap();
    // within a meter and a millimeter per second of the reference row
    assert_prediction(
        &prediction,
        [7022.46526, -1400.08276, 0.03986],
        [1.893841, 6.405893, 4.534807],
        1.0e-3,
        1.0e-6,
    );
    assert_prediction(
        &prediction,
        [7022.465292664, -1400.082967554, 0.039951554],
        [1.89384101451, 6.40589375921, 4.53480725035],
        1.0e-4,
        1.0e-7,
    );
}

#[test]
fn vanguard_1_after_one_day() {
    let constants = sgp4::Constants::from_tle_afspc_compatibility_mode(&vanguard_1()).unwrap();
    let prediction = constants.propagate_afspc_compatibility_mode(1440.0f64.to_bits()).unwrap();
    assert_prediction(
        &prediction,
        [-938.559239429, -6268.187488314, -4294.029247512],
        [7.53610520926, -0.42712770712, 0.98987807956],
        1.0e-4,
        1.0e-7,
    );
}

#[test]
fn deep_space_11801_at_epoch() {
    let constants =
        sgp4::Constants::from_tle_afspc_compatibility_mode(&deep_space_11801()).unwrap();
    let prediction = constants.propagate_afspc_compatibility_mode(0.0f64.to_bits()).unwrap();
    assert_prediction(
        &prediction,
        [7473.371024914, 428.947483124, 5828.748467827],
        [5.10715539086, 6.44468030463, -0.18613329734],
        1.0e-4,
        1.0e-7,
    );
}

#[test]
fn deep_space_11801_after_six_hours() {
    let constants =
        sgp4::Constants::from_tle_afspc_compatibility_mode(&deep_space_11801()).unwrap();
    let prediction = constants.propagate_afspc_compatibility_mode(360.0f64.to_bits()).unwrap();
    assert_prediction(
        &prediction,
        [-3305.221486939, 32410.843233313, -24697.169749545],
        [-1.30113731915, -1.15131560019, -0.28333582252],
        1.0e-4,
        1.0e-7,
    );
}

#[test]
fn molniya_8195_at_epoch() {
    let constants = sgp4::Constants::from_tle_afspc_compatibility_mode(&molniya_8195()).unwrap();
    let prediction = constants.propagate_afspc_compatibility_mode(0.0f64.to_bits()).unwrap();
    assert_prediction(
        &prediction,
        [2349.894833501, -14785.938115615, 0.021193785],
        [2.72148809556, -3.25681165466, 4.49841667237],
        1.0e-4,
        1.0e-7,
    );
}

#[test]
fn molniya_8195_after_twelve_hours() {
    let constants = sgp4::Constants::from_tle_afspc_compatibility_mode(&molniya_8195()).unwrap();
    let mut state = constants.initial_state();
    assert!(state.is_some());
    let prediction = constants
        .propagate_from_state(720.0f64.to_bits(), &mut state, true)
        .unwrap();
    assert_prediction(
        &prediction,
        [2622.132222072, -15125.154649244, 474.510483981],
        [2.68828719878, -3.07842666413, 4.49497953045],
        1.0e-4,
        1.0e-7,
    );
}

#[test]
fn sun_synchronous_28057_after_two_hours() {
    let constants =
        sgp4::Constants::from_tle_afspc_compatibility_mode(&sun_synchronous_28057()).unwrap();
    let prediction = constants.propagate_afspc_compatibility_mode(120.0f64.to_bits()).unwrap();
    assert_prediction(
        &prediction,
        [-1816.143055649, -1833.676917962, 6661.867050349],
        [2.32577114690, 6.65630204222, 2.46106528258],
        1.0e-4,
        1.0e-7,
    );
}

#[test]
fn near_zero_eccentricity_is_clamped() {
    // a deep-space orbit with e₀ = 5 × 10⁻⁷ runs with the eccentricity
    // floored at 10⁻⁶
    let geopotential = sgp4::model::wgs72();
    let orbit = sgp4::Orbit::from_kozai_elements(
        &geopotential,
        0.6f64.to_bits(),
        1.0f64.to_bits(),
        5.0e-7f64.to_bits(),
        0.5f64.to_bits(),
        1.2f64.to_bits(),
        (1.5 * std::f64::consts::PI / 720.0).to_bits(),
    )
    .unwrap();
    let constants = sgp4::Constants::new(
        &geopotential,
        sgp4::model::EpochToSiderealTime::Afspc,
        0.0f64.to_bits(),
        0.0f64.to_bits(),
        orbit,
    )
    .unwrap();
    let prediction = constants.propagate_afspc_compatibility_mode(0.0f64.to_bits()).unwrap();
    assert_prediction(
        &prediction,
        [-24439.357565333, 10753.501379954, 18053.783601078],
        [-1.56915476117, -3.13706400655, -0.25548664781],
        1.0e-4,
        1.0e-7,
    );
}

#[test]
fn molniya_8195_backward_in_time() {
    // negative offsets drive the resonance integrator backward; one state
    // serves successive targets of growing magnitude and one sign
    let constants = sgp4::Constants::from_tle_afspc_compatibility_mode(&molniya_8195()).unwrap();
    let mut state = constants.initial_state();
    let first = constants
        .propagate_from_state((-720.0f64).to_bits(), &mut state, true)
        .unwrap();
    assert_prediction(
        &first,
        [2074.170537883, -14427.807272379, -474.163108216],
        [2.75372185703, -3.44510351093, 4.49589143381],
        1.0e-4,
        1.0e-7,
    );
    let second = constants
        .propagate_from_state((-1440.0f64).to_bits(), &mut state, true)
        .unwrap();
    assert_prediction(
        &second,
        [1795.049332672, -14049.700613174, -947.434540313],
        [2.78463717951, -3.64392731684, 4.48640551285],
        1.0e-4,
        1.0e-7,
    );
}

#[test]
fn initial_state_matches_method() {
    let near_earth = sgp4::Constants::from_tle_afspc_compatibility_mode(&vanguard_1()).unwrap();
    assert!(near_earth.initial_state().is_none());
    let non_resonant =
        sgp4::Constants::from_tle_afspc_compatibility_mode(&deep_space_11801()).unwrap();
    assert!(non_resonant.initial_state().is_none());
    let resonant = sgp4::Constants::from_tle_afspc_compatibility_mode(&molniya_8195()).unwrap();
    assert!(resonant.initial_state().is_some());
}
