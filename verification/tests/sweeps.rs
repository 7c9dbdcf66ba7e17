use sweeplab::dispatch::{
    experiment_of_name, invalid_params_message, not_connected_message, required_roles,
    result_path_message, role_of_device_name, too_many_points_message, Experiment,
};
use sweeplab::protocol::Role;
use sweeplab::rows::{parse_pair_row, render_pair_row, render_peak_row};
use sweeplab::sweep::{
    validate_current_sweep, validate_wavelength_check, validate_wavelength_sweep,
    SweepRequestError, SweepSpec,
};

#[test]
fn point_count_is_floor_plus_one() {
    // start 1530 nm, stop 1540 nm, step 2 nm: six points
    let spec = SweepSpec {
        start: 1_530_000_000,
        stop: 1_540_000_000,
        step: 2_000_000,
        dwell_ms: 100,
    };
    assert_eq!(spec.point_count(), 6);
    for i in 0..6u64 {
        assert_eq!(spec.setpoint(i), 1_530_000_000 + (i as i64) * 2_000_000);
    }
    // an uneven step still floors
    let odd = SweepSpec {
        start: 1_530_000_000,
        stop: 1_540_000_000,
        step: 3_000_000,
        dwell_ms: 100,
    };
    assert_eq!(odd.point_count(), 4);
}

#[test]
fn wavelength_sweep_accepts_safe_ranges() {
    let r = validate_wavelength_sweep(1_530_000_000, 1_540_000_000, 2_000_000, 500);
    let spec = r.expect("a safe range must be accepted");
    assert_eq!(spec.start, 1_530_000_000);
    assert_eq!(spec.stop, 1_540_000_000);
}

#[test]
fn wavelength_outside_envelope_is_rejected() {
    // below 1527.60 nm and above 1570.01 nm must never reach an instrument
    assert_eq!(
        validate_wavelength_sweep(1_527_590_000, 1_540_000_000, 2_000_000, 500),
        Err(SweepRequestError::InvalidParams)
    );
    assert_eq!(
        validate_wavelength_sweep(1_530_000_000, 1_570_020_000, 2_000_000, 500),
        Err(SweepRequestError::InvalidParams)
    );
    assert_eq!(
        validate_wavelength_check(1_527_590_000),
        Err(SweepRequestError::InvalidParams)
    );
    assert_eq!(validate_wavelength_check(1_527_600_000), Ok(1_527_600_000));
    assert_eq!(validate_wavelength_check(1_570_010_000), Ok(1_570_010_000));
}

#[test]
fn current_outside_envelope_is_rejected() {
    assert_eq!(
        validate_current_sweep(-1_000_000, 50_000_000, 1_000_000, 100),
        Err(SweepRequestError::InvalidParams)
    );
    assert_eq!(
        validate_current_sweep(0, 150_000_000, 1_000_000, 100),
        Err(SweepRequestError::InvalidParams)
    );
    assert!(validate_current_sweep(0, 100_000_000, 1_000_000, 100).is_ok());
}

#[test]
fn backward_or_flat_ranges_are_rejected() {
    assert_eq!(
        validate_wavelength_sweep(1_540_000_000, 1_530_000_000, 2_000_000, 500),
        Err(SweepRequestError::InvalidParams)
    );
    assert_eq!(
        validate_wavelength_sweep(1_530_000_000, 1_530_000_000, 2_000_000, 500),
        Err(SweepRequestError::InvalidParams)
    );
    assert_eq!(
        validate_wavelength_sweep(1_530_000_000, 1_540_000_000, 0, 500),
        Err(SweepRequestError::InvalidParams)
    );
}

#[test]
fn too_many_points_is_refused_with_the_count() {
    // start 1530, stop 1550, step 1: twenty-one points, over the cap of nine
    let r = validate_wavelength_sweep(1_530_000_000, 1_550_000_000, 1_000_000, 500);
    assert_eq!(r, Err(SweepRequestError::TooManyPoints { count: 21 }));
    assert_eq!(
        too_many_points_message(21),
        "Too many data points: 21. Maximum allowed is 9."
    );
    // nine points exactly is still fine
    let ok = validate_wavelength_sweep(1_530_000_000, 1_538_000_000, 1_000_000, 500);
    assert!(ok.is_ok());
}

#[test]
fn rows_render_with_fixed_precision() {
    assert_eq!(render_pair_row(1_530_000_000, -10_500_000, 3, 6), "1530.000,-10.500000");
    assert_eq!(
        render_peak_row(1_530_000_000, 1_531_234_500, -12_345_678),
        "1530.00,1531.2345,-12.35"
    );
}

#[test]
fn summary_rows_round_trip() {
    let rows = [
        (1_530_000_000i64, -10_500_000i64),
        (1_532_000_000, -11_250_000),
        (1_534_000_000, -100_000_000),
    ];
    let mut file = String::from("Wavelength (nm),Power (dBm)\n");
    for (w, p) in rows.iter() {
        file.push_str(&render_pair_row(*w, *p, 3, 6));
        file.push('\n');
    }
    let mut read_back = Vec::new();
    for line in file.lines().skip(1) {
        read_back.push(parse_pair_row(line).expect("a written row must read back"));
    }
    assert_eq!(read_back, rows);
}

#[test]
fn experiment_names_map_to_experiments() {
    let n = String::from("wavelength_sweep");
    assert_eq!(experiment_of_name(&n), Some(Experiment::WavelengthSweep));
    assert_eq!(
        experiment_of_name(&String::from("current_sweep")),
        Some(Experiment::CurrentSweep)
    );
    assert_eq!(
        experiment_of_name(&String::from("wavelength_check")),
        Some(Experiment::WavelengthCheck)
    );
    assert_eq!(
        experiment_of_name(&String::from("wavelength_sweep_osa")),
        Some(Experiment::WavelengthSweepOsa)
    );
    assert_eq!(experiment_of_name(&String::from("mystery")), None);
}

#[test]
fn device_names_map_to_roles() {
    assert_eq!(role_of_device_name(&String::from("cld1015")), Some(Role::Driver));
    assert_eq!(role_of_device_name(&String::from("n77")), Some(Role::Laser));
    assert_eq!(role_of_device_name(&String::from("power_meter")), Some(Role::PowerMeter));
    assert_eq!(role_of_device_name(&String::from("osa")), Some(Role::Analyzer));
    assert_eq!(role_of_device_name(&String::from("scope")), None);
}

#[test]
fn dispatcher_texts_match_the_protocol() {
    assert_eq!(required_roles(Experiment::WavelengthSweepOsa), (Role::Laser, Role::Analyzer));
    assert_eq!(
        not_connected_message(Experiment::WavelengthSweep),
        "N77 laser or power meter not connected"
    );
    assert_eq!(
        invalid_params_message(Experiment::CurrentSweep),
        "Invalid current sweep parameters"
    );
    assert_eq!(result_path_message(Experiment::WavelengthSweep), "wavelength_sweep_results.csv");
}
