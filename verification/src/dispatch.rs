//! The request dispatcher's decisions: which experiment a name denotes,
//! which instruments it needs, and the exact texts reported upward.

use vstd::prelude::*;

verus! {

use crate::protocol::Role;
use crate::num::{spec_digits, render_u64};

/// The four experiments a request can name.
#[derive(Clone, Copy, Debug, PartialEq, Eq, Structural)]
pub enum Experiment {
    CurrentSweep,
    WavelengthCheck,
    WavelengthSweep,
    WavelengthSweepOsa,
}

/// Maps a request's experiment name to the experiment, `None` for any
/// other name.
pub fn experiment_of_name(name: &String) -> (r: Option<Experiment>)
    ensures
        r == Some(Experiment::CurrentSweep) <==> name@ == "current_sweep"@,
        r == Some(Experiment::WavelengthCheck) <==> name@ == "wavelength_check"@,
        r == Some(Experiment::WavelengthSweep) <==> name@ == "wavelength_sweep"@,
        r == Some(Experiment::WavelengthSweepOsa) <==> name@ == "wavelength_sweep_osa"@,
{
    proof {
        reveal_strlit("current_sweep");
        reveal_strlit("wavelength_check");
        reveal_strlit("wavelength_sweep");
        reveal_strlit("wavelength_sweep_osa");
        assert("current_sweep"@.len() == 13);
        assert("wavelength_check"@.len() == 16);
        assert("wavelength_sweep"@.len() == 16);
        assert("wavelength_sweep_osa"@.len() == 20);
        assert("wavelength_check"@[11] == 'c');
        assert("wavelength_sweep"@[11] == 's');
    }
    if name.eq(&String::from_str("current_sweep")) {
        Some(Experiment::CurrentSweep)
    } else if name.eq(&String::from_str("wavelength_check")) {
        Some(Experiment::WavelengthCheck)
    } else if name.eq(&String::from_str("wavelength_sweep")) {
        Some(Experiment::WavelengthSweep)
    } else if name.eq(&String::from_str("wavelength_sweep_osa")) {
        Some(Experiment::WavelengthSweepOsa)
    } else {
        None
    }
}

/// Maps a connection-check device name to its role, `None` for any
/// other name.
pub fn role_of_device_name(name: &String) -> (r: Option<Role>)
    ensures
        r == Some(Role::Driver) <==> name@ == "cld1015"@,
        r == Some(Role::Laser) <==> name@ == "n77"@,
        r == Some(Role::PowerMeter) <==> name@ == "power_meter"@,
        r == Some(Role::Analyzer) <==> name@ == "osa"@,
{
    proof {
        reveal_strlit("cld1015");
        reveal_strlit("n77");
        reveal_strlit("power_meter");
        reveal_strlit("osa");
        assert("cld1015"@.len() == 7);
        assert("n77"@.len() == 3);
        assert("power_meter"@.len() == 11);
        assert("osa"@.len() == 3);
        assert("n77"@[0] == 'n');
        assert("osa"@[0] == 'o');
    }
    if name.eq(&String::from_str("cld1015")) {
        Some(Role::Driver)
    } else if name.eq(&String::from_str("n77")) {
        Some(Role::Laser)
    } else if name.eq(&String::from_str("power_meter")) {
        Some(Role::PowerMeter)
    } else if name.eq(&String::from_str("osa")) {
        Some(Role::Analyzer)
    } else {
        None
    }
}

/// The two instruments each experiment drives.
pub fn required_roles(e: Experiment) -> (r: (Role, Role))
    ensures
        e is CurrentSweep ==> r == (Role::Driver, Role::Analyzer),
        e is WavelengthCheck ==> r == (Role::Laser, Role::PowerMeter),
        e is WavelengthSweep ==> r == (Role::Laser, Role::PowerMeter),
        e is WavelengthSweepOsa ==> r == (Role::Laser, Role::Analyzer),
{
    match e {
        Experiment::CurrentSweep => (Role::Driver, Role::Analyzer),
        Experiment::WavelengthCheck => (Role::Laser, Role::PowerMeter),
        Experiment::WavelengthSweep => (Role::Laser, Role::PowerMeter),
        Experiment::WavelengthSweepOsa => (Role::Laser, Role::Analyzer),
    }
}

/// The failure text when an experiment's instruments are not connected.
pub fn not_connected_message(e: Experiment) -> (r: String)
    ensures
        e is CurrentSweep ==> r@ == "CLD1015 or OSA not connected"@,
        e is WavelengthCheck ==> r@ == "N77 laser or power meter not connected"@,
        e is WavelengthSweep ==> r@ == "N77 laser or power meter not connected"@,
        e is WavelengthSweepOsa ==> r@ == "N77 laser or OSA not connected"@,
{
    match e {
        Experiment::CurrentSweep => String::from_str("CLD1015 or OSA not connected"),
        Experiment::WavelengthCheck => String::from_str(
            "N77 laser or power meter not connected",
        ),
        Experiment::WavelengthSweep => String::from_str(
            "N77 laser or power meter not connected",
        ),
        Experiment::WavelengthSweepOsa => String::from_str("N77 laser or OSA not connected"),
    }
}

/// The failure text when an experiment's parameters are refused.
pub fn invalid_params_message(e: Experiment) -> (r: String)
    ensures
        e is CurrentSweep ==> r@ == "Invalid current sweep parameters"@,
        e is WavelengthCheck ==> r@ == "Invalid wavelength check parameters"@,
        e is WavelengthSweep ==> r@ == "Invalid wavelength sweep parameters"@,
        e is WavelengthSweepOsa ==> r@ == "Invalid wavelength sweep parameters"@,
{
    match e {
        Experiment::CurrentSweep => String::from_str("Invalid current sweep parameters"),
        Experiment::WavelengthCheck => String::from_str(
            "Invalid wavelength check parameters",
        ),
        Experiment::WavelengthSweep => String::from_str(
            "Invalid wavelength sweep parameters",
        ),
        Experiment::WavelengthSweepOsa => String::from_str(
            "Invalid wavelength sweep parameters",
        ),
    }
}

/// The failure text when a wavelength sweep would take too many points.
pub fn too_many_points_message(count: u64) -> (r: String)
    ensures
        r@ == "Too many data points: "@ + spec_digits(count as nat)
            + ". Maximum allowed is 9."@,
{
    let mut s = String::from_str("Too many data points: ");
    let num = render_u64(count);
    s.append(num.as_str());
    s.append(". Maximum allowed is 9.");
    proof {
        assert(s@ =~= "Too many data points: "@ + spec_digits(count as nat)
            + ". Maximum allowed is 9."@);
    }
    s
}

/// The failure text for an experiment name nothing matches.
pub fn unknown_experiment_message(name: &String) -> (r: String)
    ensures
        r@ == "Unknown experiment: "@ + name@,
{
    let mut s = String::from_str("Unknown experiment: ");
    s.append(name.as_str());
    s
}

/// The failure text for a device name nothing matches.
pub fn unknown_device_message(name: &String) -> (r: String)
    ensures
        r@ == "Unknown device: "@ + name@,
{
    let mut s = String::from_str("Unknown device: ");
    s.append(name.as_str());
    s
}

/// What the success reply names as the experiment's output.
pub fn result_path_message(e: Experiment) -> (r: String)
    ensures
        e is CurrentSweep ==> r@ == "current_sweep_results.csv and trace_data/"@,
        e is WavelengthCheck ==> r@ == "wavelength_check_result.csv"@,
        e is WavelengthSweep ==> r@ == "wavelength_sweep_results.csv"@,
        e is WavelengthSweepOsa
            ==> r@ == "wavelength_sweep_trace_results.csv and trace_data/"@,
{
    match e {
        Experiment::CurrentSweep => String::from_str(
            "current_sweep_results.csv and trace_data/",
        ),
        Experiment::WavelengthCheck => String::from_str("wavelength_check_result.csv"),
        Experiment::WavelengthSweep => String::from_str("wavelength_sweep_results.csv"),
        Experiment::WavelengthSweepOsa => String::from_str(
            "wavelength_sweep_trace_results.csv and trace_data/",
        ),
    }
}

} // verus!
