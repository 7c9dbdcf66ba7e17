//! The sweep state machines.
//!
//! Each sweep variant is a machine: `step` consumes the outcome of the
//! previous action and says what to do next.  The unverified runner
//! owns the bus, the clock and the files; every decision — command
//! text, ordering, validation, parsing, what lands in each row — is
//! made and proved here.

use vstd::prelude::*;

verus! {

use crate::protocol::{Action, Event, Role, AbortReason, laser_wavelength_cmd,
    meter_wavelength_cmd, mk_laser_wavelength_cmd, mk_meter_wavelength_cmd};
use crate::sweep::{SweepSpec, wavelength_in_range, check_wavelength};
use crate::reply::{spec_power_reading, select_power_field, scalar_or,
    peak_wavelength_micro_nm, power_micro_dbm_or_sentinel, parse_trace, sample_power,
    reply_fields, spec_trace_count, trace_count, spec_grid_wavelength,
    WAVELENGTH_SENTINEL, POWER_SENTINEL};
use crate::rows::{spec_pair_row, render_pair_row, power_header, spec_peak_row,
    render_peak_row, peak_header};
use crate::protocol::{trace_path, mk_trace_path};

/// Where a laser/power-meter sweep stands.  A phase is named after the
/// action it is about to request; phases with an index are inside the
/// point loop.
#[derive(Clone, Copy, Debug, PartialEq, Eq, Structural)]
pub enum SweepPhase {
    /// Create the summary file.
    Open,
    /// Laser output off while configuring.
    LaserIdle,
    /// Wavelength control to automatic.
    LaserAuto,
    /// Laser power unit to dBm.
    LaserUnit,
    /// Laser power level to its default.
    LaserLevel,
    /// Meter to constant-wavelength mode.
    MeterMode,
    /// Meter averaging time.
    MeterAvg,
    /// Meter unit to dBm.
    MeterUnit,
    /// Laser output on.
    PowerOn,
    /// First setpoint, before the loop.
    SetFirst,
    /// Initial stabilization wait.
    WaitFirst,
    /// Validate point `i` and set the laser.
    Point(u64),
    /// Recalibrate the meter to point `i`.
    Calibrate(u64),
    /// Dwell after setting point `i`.
    Dwell(u64),
    /// Trigger the meter reading at point `i`.
    Ask(u64),
    /// Read the meter's reply line at point `i`.
    Read(u64),
    /// Parse the reply and record point `i`.
    Record(u64),
    /// Laser output off after the last point.
    LaserOff,
    /// Query the laser's error status.
    AskLaserErr,
    /// Read the laser's error reply.
    ReadLaserErr,
    /// Query the meter's error status.
    AskMeterErr,
    /// Read the meter's error reply.
    ReadMeterErr,
    /// Report completion.
    Closing,
    /// Terminal: finished.
    Done,
    /// Terminal: aborted.
    Stopped,
}

/// The laser + power-meter wavelength sweep.
pub struct WavelengthSweep {
    /// The validated sweep parameters; never changed after construction.
    pub params: SweepSpec,
    /// The program counter.
    pub phase: SweepPhase,
    /// The pairs recorded so far: setpoint and measured power, in
    /// sweep order.
    pub recorded: Ghost<Seq<(int, int)>>,
}

impl WavelengthSweep {
    /// Exactly `k` pairs recorded, the `j`-th at setpoint `start + j*step`.
    pub open spec fn history_ok(self, k: int) -> bool {
        &&& self.recorded@.len() == k
        &&& forall|j: int| 0 <= j < k
            ==> (#[trigger] self.recorded@[j]).0 == self.params.spec_setpoint(j)
    }

    pub open spec fn wf(self) -> bool {
        &&& self.params.wf()
        &&& match self.phase {
            SweepPhase::Point(i) => i < self.params.spec_point_count()
                && self.history_ok(i as int),
            SweepPhase::Calibrate(i) => i < self.params.spec_point_count()
                && self.history_ok(i as int),
            SweepPhase::Dwell(i) => i < self.params.spec_point_count()
                && self.history_ok(i as int),
            SweepPhase::Ask(i) => i < self.params.spec_point_count()
                && self.history_ok(i as int),
            SweepPhase::Read(i) => i < self.params.spec_point_count()
                && self.history_ok(i as int),
            SweepPhase::Record(i) => i < self.params.spec_point_count()
                && self.history_ok(i as int),
            SweepPhase::LaserOff => self.history_ok(self.params.spec_point_count()),
            SweepPhase::AskLaserErr => self.history_ok(self.params.spec_point_count()),
            SweepPhase::ReadLaserErr => self.history_ok(self.params.spec_point_count()),
            SweepPhase::AskMeterErr => self.history_ok(self.params.spec_point_count()),
            SweepPhase::ReadMeterErr => self.history_ok(self.params.spec_point_count()),
            SweepPhase::Closing => self.history_ok(self.params.spec_point_count()),
            SweepPhase::Done => self.history_ok(self.params.spec_point_count()),
            SweepPhase::Stopped => true,
            _ => self.history_ok(0),
        }
    }

    /// The phases that consume a reply line.
    pub open spec fn wants_line(self) -> bool {
        self.phase matches SweepPhase::Record(_) || self.phase is AskMeterErr
            || self.phase is Closing
    }

    pub open spec fn is_terminal(self) -> bool {
        self.phase is Done || self.phase is Stopped
    }

    pub fn new(params: SweepSpec) -> (r: Self)
        requires
            params.wf(),
        ensures
            r.wf(),
            r.params == params,
            r.phase == SweepPhase::Open,
            r.recorded@ == Seq::<(int, int)>::empty(),
    {
        WavelengthSweep { params, phase: SweepPhase::Open, recorded: Ghost(Seq::empty()) }
    }

    /// One protocol step: consumes the previous action's outcome and
    /// yields the next action.  The clauses below are the protocol: the
    /// exact command for each phase, validation before every in-loop
    /// write, and the exact recorded row.
    pub fn step(&mut self, ev: Event) -> (a: Action)
        requires
            old(self).wf(),
            !old(self).is_terminal(),
            old(self).wants_line() ==> ev.is_line(),
        ensures
            final(self).wf(),
            final(self).params == old(self).params,
            !(old(self).phase matches SweepPhase::Record(_))
                ==> final(self).recorded@ == old(self).recorded@,
            old(self).phase is Open ==> (a matches Action::OpenSummary { path, header }
                && path@ == "data/wavelength_sweep_results.csv"@
                && header@ == "Wavelength (nm),Power (dBm)"@
                && final(self).phase is LaserIdle),
            old(self).phase is LaserIdle ==> (a matches Action::Send { role, cmd }
                && role == Role::Laser && cmd@ == ":SOURce2:POWer:STATe 0\n"@
                && final(self).phase is LaserAuto),
            old(self).phase is LaserAuto ==> (a matches Action::Send { role, cmd }
                && role == Role::Laser && cmd@ == ":SOURce2:WAVelength:AUTO 1\n"@
                && final(self).phase is LaserUnit),
            old(self).phase is LaserUnit ==> (a matches Action::Send { role, cmd }
                && role == Role::Laser && cmd@ == ":SOURce2:POWer:UNit 0\n"@
                && final(self).phase is LaserLevel),
            old(self).phase is LaserLevel ==> (a matches Action::Send { role, cmd }
                && role == Role::Laser
                && cmd@ == ":SOURce2:POWer:LEVel:IMMediate:AMPLitude DEF\n"@
                && final(self).phase is MeterMode),
            old(self).phase is MeterMode ==> (a matches Action::Send { role, cmd }
                && role == Role::PowerMeter && cmd@ == "WMOD CONST1\n"@
                && final(self).phase is MeterAvg),
            old(self).phase is MeterAvg ==> (a matches Action::Send { role, cmd }
                && role == Role::PowerMeter && cmd@ == "AVG 50\n"@
                && final(self).phase is MeterUnit),
            old(self).phase is MeterUnit ==> (a matches Action::Send { role, cmd }
                && role == Role::PowerMeter && cmd@ == "UNIT 0\n"@
                && final(self).phase is PowerOn),
            old(self).phase is PowerOn ==> (a matches Action::Send { role, cmd }
                && role == Role::Laser && cmd@ == ":SOURce2:POWer:STATe 1\n"@
                && final(self).phase is SetFirst),
            old(self).phase is SetFirst ==> (a matches Action::Send { role, cmd }
                && role == Role::Laser
                && cmd@ == laser_wavelength_cmd(old(self).params.start as int)
                && final(self).phase is WaitFirst),
            old(self).phase is WaitFirst ==> (a matches Action::Wait { ms }
                && ms == old(self).params.dwell_ms
                && final(self).phase == SweepPhase::Point(0)),
            old(self).phase matches SweepPhase::Point(i) ==> ({
                let w = old(self).params.spec_setpoint(i as int);
                if wavelength_in_range(w) {
                    a matches Action::Send { role, cmd } && role == Role::Laser
                        && cmd@ == laser_wavelength_cmd(w)
                        && final(self).phase == SweepPhase::Calibrate(i)
                } else {
                    a matches Action::Abort { reason }
                        && reason matches AbortReason::UnsafeSetpoint { value }
                        && value as int == w && final(self).phase is Stopped
                }
            }),
            old(self).phase matches SweepPhase::Calibrate(i) ==> (
                a matches Action::Send { role, cmd } && role == Role::PowerMeter
                && cmd@ == meter_wavelength_cmd(old(self).params.spec_setpoint(i as int))
                && final(self).phase == SweepPhase::Dwell(i)),
            old(self).phase matches SweepPhase::Dwell(i) ==> (a matches Action::Wait { ms }
                && ms == old(self).params.dwell_ms
                && final(self).phase == SweepPhase::Ask(i)),
            old(self).phase matches SweepPhase::Ask(i) ==> (
                a matches Action::Send { role, cmd } && role == Role::PowerMeter
                && cmd@ == "READ? 0\n"@ && final(self).phase == SweepPhase::Read(i)),
            old(self).phase matches SweepPhase::Read(i) ==> (a matches Action::Recv { role, confirm } && !confirm
                && role == Role::PowerMeter && final(self).phase == SweepPhase::Record(i)),
            old(self).phase matches SweepPhase::Record(i) ==> ({
                match spec_power_reading(ev->text@) {
                    Ok(p) => a matches Action::AppendRow { row }
                        && row@ == spec_pair_row(
                            old(self).params.spec_setpoint(i as int), p, 3, 6)
                        && final(self).recorded@ == old(self).recorded@.push(
                            (old(self).params.spec_setpoint(i as int), p))
                        && (if i + 1 < old(self).params.spec_point_count() {
                            final(self).phase == SweepPhase::Point((i + 1) as u64)
                        } else {
                            final(self).phase is LaserOff
                        }),
                    Err(e) => a matches Action::Abort { reason }
                        && (reason matches AbortReason::Protocol { err, field }
                            && err == e
                            && field@ == crate::reply::spec_second_field(ev->text@))
                        && final(self).recorded@ == old(self).recorded@
                        && final(self).phase is Stopped,
                }
            }),
            old(self).phase is LaserOff ==> (a matches Action::Send { role, cmd }
                && role == Role::Laser && cmd@ == ":SOURce2:POWer:STATe 0\n"@
                && final(self).phase is AskLaserErr),
            old(self).phase is AskLaserErr ==> (a matches Action::Send { role, cmd }
                && role == Role::Laser && cmd@ == "SYST:ERR?\n"@
                && final(self).phase is ReadLaserErr),
            old(self).phase is ReadLaserErr ==> (a matches Action::Recv { role, confirm } && !confirm
                && role == Role::Laser && final(self).phase is AskMeterErr),
            old(self).phase is AskMeterErr ==> (a matches Action::Send { role, cmd }
                && role == Role::PowerMeter && cmd@ == "ERR?\n"@
                && final(self).phase is ReadMeterErr),
            old(self).phase is ReadMeterErr ==> (a matches Action::Recv { role, confirm } && !confirm
                && role == Role::PowerMeter && final(self).phase is Closing),
            old(self).phase is Closing ==> (a is Finish && final(self).phase is Done),
    {
        match self.phase {
            SweepPhase::Open => {
                self.phase = SweepPhase::LaserIdle;
                Action::OpenSummary {
                    path: String::from_str("data/wavelength_sweep_results.csv"),
                    header: power_header(),
                }
            },
            SweepPhase::LaserIdle => {
                self.phase = SweepPhase::LaserAuto;
                Action::Send {
                    role: Role::Laser,
                    cmd: String::from_str(":SOURce2:POWer:STATe 0\n"),
                }
            },
            SweepPhase::LaserAuto => {
                self.phase = SweepPhase::LaserUnit;
                Action::Send {
                    role: Role::Laser,
                    cmd: String::from_str(":SOURce2:WAVelength:AUTO 1\n"),
                }
            },
            SweepPhase::LaserUnit => {
                self.phase = SweepPhase::LaserLevel;
                Action::Send {
                    role: Role::Laser,
                    cmd: String::from_str(":SOURce2:POWer:UNit 0\n"),
                }
            },
            SweepPhase::LaserLevel => {
                self.phase = SweepPhase::MeterMode;
                Action::Send {
                    role: Role::Laser,
                    cmd: String::from_str(":SOURce2:POWer:LEVel:IMMediate:AMPLitude DEF\n"),
                }
            },
            SweepPhase::MeterMode => {
                self.phase = SweepPhase::MeterAvg;
                Action::Send {
                    role: Role::PowerMeter,
                    cmd: String::from_str("WMOD CONST1\n"),
                }
            },
            SweepPhase::MeterAvg => {
                self.phase = SweepPhase::MeterUnit;
                Action::Send { role: Role::PowerMeter, cmd: String::from_str("AVG 50\n") }
            },
            SweepPhase::MeterUnit => {
                self.phase = SweepPhase::PowerOn;
                Action::Send { role: Role::PowerMeter, cmd: String::from_str("UNIT 0\n") }
            },
            SweepPhase::PowerOn => {
                self.phase = SweepPhase::SetFirst;
                Action::Send {
                    role: Role::Laser,
                    cmd: String::from_str(":SOURce2:POWer:STATe 1\n"),
                }
            },
            SweepPhase::SetFirst => {
                self.phase = SweepPhase::WaitFirst;
                Action::Send {
                    role: Role::Laser,
                    cmd: mk_laser_wavelength_cmd(self.params.start),
                }
            },
            SweepPhase::WaitFirst => {
                self.phase = SweepPhase::Point(0);
                Action::Wait { ms: self.params.dwell_ms }
            },
            SweepPhase::Point(i) => {
                let w = self.params.setpoint(i);
                if check_wavelength(w) {
                    self.phase = SweepPhase::Calibrate(i);
                    Action::Send { role: Role::Laser, cmd: mk_laser_wavelength_cmd(w) }
                } else {
                    self.phase = SweepPhase::Stopped;
                    Action::Abort { reason: AbortReason::UnsafeSetpoint { value: w } }
                }
            },
            SweepPhase::Calibrate(i) => {
                let w = self.params.setpoint(i);
                self.phase = SweepPhase::Dwell(i);
                Action::Send { role: Role::PowerMeter, cmd: mk_meter_wavelength_cmd(w) }
            },
            SweepPhase::Dwell(i) => {
                self.phase = SweepPhase::Ask(i);
                Action::Wait { ms: self.params.dwell_ms }
            },
            SweepPhase::Ask(i) => {
                self.phase = SweepPhase::Read(i);
                Action::Send { role: Role::PowerMeter, cmd: String::from_str("READ? 0\n") }
            },
            SweepPhase::Read(i) => {
                self.phase = SweepPhase::Record(i);
                Action::Recv { role: Role::PowerMeter, confirm: false }
            },
            SweepPhase::Record(i) => {
                let text = match ev {
                    Event::Line { text } => text,
                    _ => String::new(),
                };
                let w = self.params.setpoint(i);
                match select_power_field(text.as_str()) {
                    Ok(p) => {
                        let row = render_pair_row(w, p, 3, 6);
                        proof {
                            self.recorded@ = self.recorded@.push((w as int, p as int));
                        }
                        let n = self.params.point_count();
                        if i + 1 < n {
                            self.phase = SweepPhase::Point(i + 1);
                        } else {
                            self.phase = SweepPhase::LaserOff;
                        }
                        Action::AppendRow { row }
                    },
                    Err(e) => {
                        let field = crate::reply::second_field_text(text.as_str());
                        self.phase = SweepPhase::Stopped;
                        Action::Abort { reason: AbortReason::Protocol { err: e, field } }
                    },
                }
            },
            SweepPhase::LaserOff => {
                self.phase = SweepPhase::AskLaserErr;
                Action::Send {
                    role: Role::Laser,
                    cmd: String::from_str(":SOURce2:POWer:STATe 0\n"),
                }
            },
            SweepPhase::AskLaserErr => {
                self.phase = SweepPhase::ReadLaserErr;
                Action::Send { role: Role::Laser, cmd: String::from_str("SYST:ERR?\n") }
            },
            SweepPhase::ReadLaserErr => {
                self.phase = SweepPhase::AskMeterErr;
                Action::Recv { role: Role::Laser, confirm: false }
            },
            SweepPhase::AskMeterErr => {
                self.phase = SweepPhase::ReadMeterErr;
                Action::Send { role: Role::PowerMeter, cmd: String::from_str("ERR?\n") }
            },
            SweepPhase::ReadMeterErr => {
                self.phase = SweepPhase::Closing;
                Action::Recv { role: Role::PowerMeter, confirm: false }
            },
            SweepPhase::Closing => {
                self.phase = SweepPhase::Done;
                Action::Finish
            },
            SweepPhase::Done => Action::Finish,
            SweepPhase::Stopped => Action::Finish,
        }
    }
}


/// Law: a laser/power-meter sweep that ran to completion recorded
/// exactly one pair per point — `floor((stop-start)/step) + 1` of them —
/// in sweep order, the `j`-th at setpoint `start + j*step`.
pub proof fn lemma_finished_sweep_recorded_all(m: WavelengthSweep)
    requires
        m.wf(),
        m.phase is Done,
    ensures
        m.recorded@.len() == m.params.spec_point_count(),
        forall|j: int| 0 <= j < m.recorded@.len()
            ==> (#[trigger] m.recorded@[j]).0 == m.params.spec_setpoint(j),
{
}

/// Where a single-point wavelength check stands.
#[derive(Clone, Copy, Debug, PartialEq, Eq, Structural)]
pub enum CheckPhase {
    /// Create the result file.
    Open,
    /// Laser output off while configuring.
    LaserIdle,
    /// Wavelength control to automatic.
    LaserAuto,
    /// Laser power unit to dBm.
    LaserUnit,
    /// Laser power level to its default.
    LaserLevel,
    /// Meter to constant-wavelength mode.
    MeterMode,
    /// Meter averaging time.
    MeterAvg,
    /// Meter unit to dBm.
    MeterUnit,
    /// Laser output on.
    PowerOn,
    /// Initial stabilization wait.
    WaitInit,
    /// Validate the wavelength and set the laser.
    SetPoint,
    /// Recalibrate the meter.
    Calibrate,
    /// The fixed settle before measuring.
    Settle,
    /// Trigger the meter reading.
    Ask,
    /// Read the meter's reply line.
    Read,
    /// Parse the reply and record the point.
    Record,
    /// Laser output off.
    LaserOff,
    /// Query the laser's error status.
    AskLaserErr,
    /// Read the laser's error reply.
    ReadLaserErr,
    /// Query the meter's error status.
    AskMeterErr,
    /// Read the meter's error reply.
    ReadMeterErr,
    /// Report completion.
    Closing,
    /// Terminal: finished.
    Done,
    /// Terminal: aborted.
    Stopped,
}

/// How long the meter settles after recalibration, in milliseconds.
pub const CHECK_SETTLE_MS: u64 = 150;

/// The single-point wavelength check: one setpoint, one power reading.
pub struct WavelengthCheck {
    /// The wavelength to check, in micro-nm.
    pub wavelength: i64,
    /// The initial stabilization wait, in milliseconds.
    pub stabilization_ms: u64,
    /// The program counter.
    pub phase: CheckPhase,
}

impl WavelengthCheck {
    pub open spec fn wf(self) -> bool {
        crate::micro_bounded(self.wavelength as int)
    }

    /// The phases that consume a reply line.
    pub open spec fn wants_line(self) -> bool {
        self.phase is Record || self.phase is AskMeterErr || self.phase is Closing
    }

    pub open spec fn is_terminal(self) -> bool {
        self.phase is Done || self.phase is Stopped
    }

    pub fn new(wavelength: i64, stabilization_ms: u64) -> (r: Self)
        requires
            crate::micro_bounded(wavelength as int),
        ensures
            r.wf(),
            r.wavelength == wavelength,
            r.stabilization_ms == stabilization_ms,
            r.phase == CheckPhase::Open,
    {
        WavelengthCheck { wavelength, stabilization_ms, phase: CheckPhase::Open }
    }

    /// One protocol step of the check.
    pub fn step(&mut self, ev: Event) -> (a: Action)
        requires
            old(self).wf(),
            !old(self).is_terminal(),
            old(self).wants_line() ==> ev.is_line(),
        ensures
            final(self).wf(),
            final(self).wavelength == old(self).wavelength,
            final(self).stabilization_ms == old(self).stabilization_ms,
            old(self).phase is Open ==> (a matches Action::OpenSummary { path, header }
                && path@ == "wavelength_check_result.csv"@
                && header@ == "Wavelength (nm),Power (dBm)"@
                && final(self).phase is LaserIdle),
            old(self).phase is LaserIdle ==> (a matches Action::Send { role, cmd }
                && role == Role::Laser && cmd@ == ":SOURce2:POWer:STATe 0\n"@
                && final(self).phase is LaserAuto),
            old(self).phase is LaserAuto ==> (a matches Action::Send { role, cmd }
                && role == Role::Laser && cmd@ == ":SOURce2:WAVelength:AUTO 1\n"@
                && final(self).phase is LaserUnit),
            old(self).phase is LaserUnit ==> (a matches Action::Send { role, cmd }
                && role == Role::Laser && cmd@ == ":SOURce2:POWer:UNit 0\n"@
                && final(self).phase is LaserLevel),
            old(self).phase is LaserLevel ==> (a matches Action::Send { role, cmd }
                && role == Role::Laser
                && cmd@ == ":SOURce2:POWer:LEVel:IMMediate:AMPLitude DEF\n"@
                && final(self).phase is MeterMode),
            old(self).phase is MeterMode ==> (a matches Action::Send { role, cmd }
                && role == Role::PowerMeter && cmd@ == "WMOD CONST1\n"@
                && final(self).phase is MeterAvg),
            old(self).phase is MeterAvg ==> (a matches Action::Send { role, cmd }
                && role == Role::PowerMeter && cmd@ == "AVG 50\n"@
                && final(self).phase is MeterUnit),
            old(self).phase is MeterUnit ==> (a matches Action::Send { role, cmd }
                && role == Role::PowerMeter && cmd@ == "UNIT 0\n"@
                && final(self).phase is PowerOn),
            old(self).phase is PowerOn ==> (a matches Action::Send { role, cmd }
                && role == Role::Laser && cmd@ == ":SOURce2:POWer:STATe 1\n"@
                && final(self).phase is WaitInit),
            old(self).phase is WaitInit ==> (a matches Action::Wait { ms }
                && ms == old(self).stabilization_ms && final(self).phase is SetPoint),
            old(self).phase is SetPoint ==> ({
                let w = old(self).wavelength as int;
                if wavelength_in_range(w) {
                    a matches Action::Send { role, cmd } && role == Role::Laser
                        && cmd@ == laser_wavelength_cmd(w)
                        && final(self).phase is Calibrate
                } else {
                    a matches Action::Abort { reason }
                        && reason matches AbortReason::UnsafeSetpoint { value }
                        && value as int == w && final(self).phase is Stopped
                }
            }),
            old(self).phase is Calibrate ==> (a matches Action::Send { role, cmd }
                && role == Role::PowerMeter
                && cmd@ == meter_wavelength_cmd(old(self).wavelength as int)
                && final(self).phase is Settle),
            old(self).phase is Settle ==> (a matches Action::Wait { ms }
                && ms == CHECK_SETTLE_MS && final(self).phase is Ask),
            old(self).phase is Ask ==> (a matches Action::Send { role, cmd }
                && role == Role::PowerMeter && cmd@ == "READ? 0\n"@
                && final(self).phase is Read),
            old(self).phase is Read ==> (a matches Action::Recv { role, confirm } && !confirm
                && role == Role::PowerMeter && final(self).phase is Record),
            old(self).phase is Record ==> ({
                match spec_power_reading(ev->text@) {
                    Ok(p) => a matches Action::AppendRow { row }
                        && row@ == spec_pair_row(old(self).wavelength as int, p, 3, 6)
                        && final(self).phase is LaserOff,
                    Err(e) => a matches Action::Abort { reason }
                        && (reason matches AbortReason::Protocol { err, field }
                            && err == e
                            && field@ == crate::reply::spec_second_field(ev->text@))
                        && final(self).phase is Stopped,
                }
            }),
            old(self).phase is LaserOff ==> (a matches Action::Send { role, cmd }
                && role == Role::Laser && cmd@ == ":SOURce2:POWer:STATe 0\n"@
                && final(self).phase is AskLaserErr),
            old(self).phase is AskLaserErr ==> (a matches Action::Send { role, cmd }
                && role == Role::Laser && cmd@ == "SYST:ERR?\n"@
                && final(self).phase is ReadLaserErr),
            old(self).phase is ReadLaserErr ==> (a matches Action::Recv { role, confirm } && !confirm
                && role == Role::Laser && final(self).phase is AskMeterErr),
            old(self).phase is AskMeterErr ==> (a matches Action::Send { role, cmd }
                && role == Role::PowerMeter && cmd@ == "ERR?\n"@
                && final(self).phase is ReadMeterErr),
            old(self).phase is ReadMeterErr ==> (a matches Action::Recv { role, confirm } && !confirm
                && role == Role::PowerMeter && final(self).phase is Closing),
            old(self).phase is Closing ==> (a is Finish && final(self).phase is Done),
    {
        match self.phase {
            CheckPhase::Open => {
                self.phase = CheckPhase::LaserIdle;
                Action::OpenSummary {
                    path: String::from_str("wavelength_check_result.csv"),
                    header: power_header(),
                }
            },
            CheckPhase::LaserIdle => {
                self.phase = CheckPhase::LaserAuto;
                Action::Send {
                    role: Role::Laser,
                    cmd: String::from_str(":SOURce2:POWer:STATe 0\n"),
                }
            },
            CheckPhase::LaserAuto => {
                self.phase = CheckPhase::LaserUnit;
                Action::Send {
                    role: Role::Laser,
                    cmd: String::from_str(":SOURce2:WAVelength:AUTO 1\n"),
                }
            },
            CheckPhase::LaserUnit => {
                self.phase = CheckPhase::LaserLevel;
                Action::Send {
                    role: Role::Laser,
                    cmd: String::from_str(":SOURce2:POWer:UNit 0\n"),
                }
            },
            CheckPhase::LaserLevel => {
                self.phase = CheckPhase::MeterMode;
                Action::Send {
                    role: Role::Laser,
                    cmd: String::from_str(":SOURce2:POWer:LEVel:IMMediate:AMPLitude DEF\n"),
                }
            },
            CheckPhase::MeterMode => {
                self.phase = CheckPhase::MeterAvg;
                Action::Send {
                    role: Role::PowerMeter,
                    cmd: String::from_str("WMOD CONST1\n"),
                }
            },
            CheckPhase::MeterAvg => {
                self.phase = CheckPhase::MeterUnit;
                Action::Send { role: Role::PowerMeter, cmd: String::from_str("AVG 50\n") }
            },
            CheckPhase::MeterUnit => {
                self.phase = CheckPhase::PowerOn;
                Action::Send { role: Role::PowerMeter, cmd: String::from_str("UNIT 0\n") }
            },
            CheckPhase::PowerOn => {
                self.phase = CheckPhase::WaitInit;
                Action::Send {
                    role: Role::Laser,
                    cmd: String::from_str(":SOURce2:POWer:STATe 1\n"),
                }
            },
            CheckPhase::WaitInit => {
                self.phase = CheckPhase::SetPoint;
                Action::Wait { ms: self.stabilization_ms }
            },
            CheckPhase::SetPoint => {
                let w = self.wavelength;
                if check_wavelength(w) {
                    self.phase = CheckPhase::Calibrate;
                    Action::Send { role: Role::Laser, cmd: mk_laser_wavelength_cmd(w) }
                } else {
                    self.phase = CheckPhase::Stopped;
                    Action::Abort { reason: AbortReason::UnsafeSetpoint { value: w } }
                }
            },
            CheckPhase::Calibrate => {
                self.phase = CheckPhase::Settle;
                Action::Send {
                    role: Role::PowerMeter,
                    cmd: mk_meter_wavelength_cmd(self.wavelength),
                }
            },
            CheckPhase::Settle => {
                self.phase = CheckPhase::Ask;
                Action::Wait { ms: CHECK_SETTLE_MS }
            },
            CheckPhase::Ask => {
                self.phase = CheckPhase::Read;
                Action::Send { role: Role::PowerMeter, cmd: String::from_str("READ? 0\n") }
            },
            CheckPhase::Read => {
                self.phase = CheckPhase::Record;
                Action::Recv { role: Role::PowerMeter, confirm: false }
            },
            CheckPhase::Record => {
                let text = match ev {
                    Event::Line { text } => text,
                    _ => String::new(),
                };
                match select_power_field(text.as_str()) {
                    Ok(p) => {
                        let row = render_pair_row(self.wavelength, p, 3, 6);
                        self.phase = CheckPhase::LaserOff;
                        Action::AppendRow { row }
                    },
                    Err(e) => {
                        let field = crate::reply::second_field_text(text.as_str());
                        self.phase = CheckPhase::Stopped;
                        Action::Abort { reason: AbortReason::Protocol { err: e, field } }
                    },
                }
            },
            CheckPhase::LaserOff => {
                self.phase = CheckPhase::AskLaserErr;
                Action::Send {
                    role: Role::Laser,
                    cmd: String::from_str(":SOURce2:POWer:STATe 0\n"),
                }
            },
            CheckPhase::AskLaserErr => {
                self.phase = CheckPhase::ReadLaserErr;
                Action::Send { role: Role::Laser, cmd: String::from_str("SYST:ERR?\n") }
            },
            CheckPhase::ReadLaserErr => {
                self.phase = CheckPhase::AskMeterErr;
                Action::Recv { role: Role::Laser, confirm: false }
            },
            CheckPhase::AskMeterErr => {
                self.phase = CheckPhase::ReadMeterErr;
                Action::Send { role: Role::PowerMeter, cmd: String::from_str("ERR?\n") }
            },
            CheckPhase::ReadMeterErr => {
                self.phase = CheckPhase::Closing;
                Action::Recv { role: Role::PowerMeter, confirm: false }
            },
            CheckPhase::Closing => {
                self.phase = CheckPhase::Done;
                Action::Finish
            },
            CheckPhase::Done => Action::Finish,
            CheckPhase::Stopped => Action::Finish,
        }
    }
}


/// Where a laser/analyzer trace sweep stands.
#[derive(Clone, Copy, Debug, PartialEq, Eq, Structural)]
pub enum TracePhase {
    /// Create the summary file.
    Open,
    /// Analyzer to single-sweep mode.
    SingleSweep,
    /// Analyzer center and span.
    CenterSpan,
    /// Query the trace length.
    AskTraceLen,
    /// Read the trace-length reply.
    ReadTraceLen,
    /// Remember the trace length; laser output off while configuring.
    LaserIdle,
    /// Wavelength control to automatic.
    LaserAuto,
    /// Laser power unit to dBm.
    LaserUnit,
    /// Laser power level to its default.
    LaserLevel,
    /// Laser output on.
    PowerOn,
    /// The sweep's starting setpoint, before the loop.
    SetFirst,
    /// Initial stabilization wait.
    WaitInit,
    /// First trigger-and-confirm, before the loop.
    TrigFirst,
    /// Read the first confirmation.
    ReadTrigFirst,
    /// Validate point `i` and set the laser.
    Point(u64),
    /// Dwell after setting point `i`.
    Dwell(u64),
    /// Trigger-and-confirm the analyzer sweep at point `i`.
    Trig(u64),
    /// Read the confirmation at point `i`.
    ReadTrig(u64),
    /// Mark the highest peak at point `i`.
    Mark(u64),
    /// Query the peak wavelength at point `i`.
    AskPeakWl(u64),
    /// Read the peak wavelength at point `i`.
    ReadPeakWl(u64),
    /// Remember the peak wavelength; query the peak power.
    AskPeakPw(u64),
    /// Read the peak power at point `i`.
    ReadPeakPw(u64),
    /// Record the summary row of point `i`; then ask for the trace.
    AskTrace(u64),
    /// Query the raw trace of point `i`.
    QueryTrace(u64),
    /// Read the raw trace reply of point `i`.
    ReadTraceData(u64),
    /// Reconstruct and write the trace file of point `i`.
    WriteFile(u64),
    /// Laser output off after the last point.
    LaserEnd,
    /// Analyzer sweeping off.
    AnalyzerOff,
    /// Query the laser's error status.
    AskLaserErr,
    /// Read the laser's error reply.
    ReadLaserErr,
    /// Query the analyzer's error status.
    AskAnalyzerErr,
    /// Read the analyzer's error reply.
    ReadAnalyzerErr,
    /// Report completion.
    Closing,
    /// Terminal: finished.
    Done,
    /// Terminal: aborted.
    Stopped,
}

/// The laser + analyzer wavelength sweep with a full trace per point.
pub struct TraceSweep {
    /// The validated sweep parameters; never changed after construction.
    pub params: SweepSpec,
    /// How many samples each trace holds, from the analyzer's reply.
    pub trace_len: u64,
    /// The peak wavelength of the point in hand, in micro-nm.
    pub peak_wl: i64,
    /// The program counter.
    pub phase: TracePhase,
    /// The setpoints whose summary row was appended, in sweep order.
    pub rows_done: Ghost<Seq<int>>,
    /// The setpoints whose trace file was written, in sweep order.
    pub traces_done: Ghost<Seq<int>>,
}

impl TraceSweep {
    /// Exactly `k` entries, the `j`-th being setpoint `start + j*step`.
    pub open spec fn prefix_ok(self, h: Seq<int>, k: int) -> bool {
        &&& h.len() == k
        &&& forall|j: int| 0 <= j < k ==> #[trigger] h[j] == self.params.spec_setpoint(j)
    }

    pub open spec fn wf(self) -> bool {
        &&& self.params.wf()
        &&& 2 <= self.trace_len <= 1_000_000
        &&& crate::micro_bounded(self.peak_wl as int)
        &&& match self.phase {
            TracePhase::Point(i) => i < self.params.spec_point_count()
                && self.prefix_ok(self.rows_done@, i as int)
                && self.prefix_ok(self.traces_done@, i as int),
            TracePhase::Dwell(i) => i < self.params.spec_point_count()
                && self.prefix_ok(self.rows_done@, i as int)
                && self.prefix_ok(self.traces_done@, i as int),
            TracePhase::Trig(i) => i < self.params.spec_point_count()
                && self.prefix_ok(self.rows_done@, i as int)
                && self.prefix_ok(self.traces_done@, i as int),
            TracePhase::ReadTrig(i) => i < self.params.spec_point_count()
                && self.prefix_ok(self.rows_done@, i as int)
                && self.prefix_ok(self.traces_done@, i as int),
            TracePhase::Mark(i) => i < self.params.spec_point_count()
                && self.prefix_ok(self.rows_done@, i as int)
                && self.prefix_ok(self.traces_done@, i as int),
            TracePhase::AskPeakWl(i) => i < self.params.spec_point_count()
                && self.prefix_ok(self.rows_done@, i as int)
                && self.prefix_ok(self.traces_done@, i as int),
            TracePhase::ReadPeakWl(i) => i < self.params.spec_point_count()
                && self.prefix_ok(self.rows_done@, i as int)
                && self.prefix_ok(self.traces_done@, i as int),
            TracePhase::AskPeakPw(i) => i < self.params.spec_point_count()
                && self.prefix_ok(self.rows_done@, i as int)
                && self.prefix_ok(self.traces_done@, i as int),
            TracePhase::ReadPeakPw(i) => i < self.params.spec_point_count()
                && self.prefix_ok(self.rows_done@, i as int)
                && self.prefix_ok(self.traces_done@, i as int),
            TracePhase::AskTrace(i) => i < self.params.spec_point_count()
                && self.prefix_ok(self.rows_done@, i as int)
                && self.prefix_ok(self.traces_done@, i as int),
            TracePhase::QueryTrace(i) => i < self.params.spec_point_count()
                && self.prefix_ok(self.rows_done@, i + 1)
                && self.prefix_ok(self.traces_done@, i as int),
            TracePhase::ReadTraceData(i) => i < self.params.spec_point_count()
                && self.prefix_ok(self.rows_done@, i + 1)
                && self.prefix_ok(self.traces_done@, i as int),
            TracePhase::WriteFile(i) => i < self.params.spec_point_count()
                && self.prefix_ok(self.rows_done@, i + 1)
                && self.prefix_ok(self.traces_done@, i as int),
            TracePhase::LaserEnd => self.run_done(),
            TracePhase::AnalyzerOff => self.run_done(),
            TracePhase::AskLaserErr => self.run_done(),
            TracePhase::ReadLaserErr => self.run_done(),
            TracePhase::AskAnalyzerErr => self.run_done(),
            TracePhase::ReadAnalyzerErr => self.run_done(),
            TracePhase::Closing => self.run_done(),
            TracePhase::Done => self.run_done(),
            TracePhase::Stopped => true,
            _ => self.prefix_ok(self.rows_done@, 0) && self.prefix_ok(self.traces_done@, 0),
        }
    }

    /// Every point's summary row and trace file are out.
    pub open spec fn run_done(self) -> bool {
        &&& self.prefix_ok(self.rows_done@, self.params.spec_point_count())
        &&& self.prefix_ok(self.traces_done@, self.params.spec_point_count())
    }

    /// The phases that consume a reply line.
    pub open spec fn wants_line(self) -> bool {
        ||| self.phase is LaserIdle
        ||| self.phase matches TracePhase::AskPeakPw(_)
        ||| self.phase matches TracePhase::AskTrace(_)
        ||| self.phase matches TracePhase::WriteFile(_)
    }

    pub open spec fn is_terminal(self) -> bool {
        self.phase is Done || self.phase is Stopped
    }

    pub fn new(params: SweepSpec) -> (r: Self)
        requires
            params.wf(),
        ensures
            r.wf(),
            r.params == params,
            r.phase == TracePhase::Open,
    {
        TraceSweep {
            params,
            trace_len: crate::reply::DEFAULT_TRACE_POINTS,
            peak_wl: 0,
            phase: TracePhase::Open,
            rows_done: Ghost(Seq::empty()),
            traces_done: Ghost(Seq::empty()),
        }
    }

    /// One protocol step of the trace sweep.
    #[verifier::rlimit(60)]
    pub fn step(&mut self, ev: Event) -> (a: Action)
        requires
            old(self).wf(),
            !old(self).is_terminal(),
            old(self).wants_line() ==> ev.is_line(),
        ensures
            final(self).wf(),
            final(self).params == old(self).params,
            !(old(self).phase matches TracePhase::AskTrace(_))
                ==> final(self).rows_done@ == old(self).rows_done@,
            !(old(self).phase matches TracePhase::WriteFile(_))
                ==> final(self).traces_done@ == old(self).traces_done@,
            old(self).phase is Open ==> (a matches Action::OpenSummary { path, header }
                && path@ == "data/wavelength_sweep_trace_results.csv"@
                && header@
                    == "Laser Wavelength (nm),Peak Wavelength (nm),Peak Power (dBm)"@
                && final(self).phase is SingleSweep),
            old(self).phase is SingleSweep ==> (a matches Action::Send { role, cmd }
                && role == Role::Analyzer && cmd@ == "SNGLS;\n"@
                && final(self).phase is CenterSpan),
            old(self).phase is CenterSpan ==> (a matches Action::Send { role, cmd }
                && role == Role::Analyzer && cmd@ == "CENTERWL 1549NM;SPANWL 44NM;\n"@
                && final(self).phase is AskTraceLen),
            old(self).phase is AskTraceLen ==> (a matches Action::Send { role, cmd }
                && role == Role::Analyzer && cmd@ == "MDS?;\n"@
                && final(self).phase is ReadTraceLen),
            old(self).phase is ReadTraceLen ==> (a matches Action::Recv { role, confirm } && !confirm
                && role == Role::Analyzer && final(self).phase is LaserIdle),
            old(self).phase is LaserIdle ==> (a matches Action::Send { role, cmd }
                && role == Role::Laser && cmd@ == ":SOURce2:POWer:STATe 0\n"@
                && final(self).trace_len as int == spec_trace_count(ev->text@)
                && final(self).phase is LaserAuto),
            old(self).phase is LaserAuto ==> (a matches Action::Send { role, cmd }
                && role == Role::Laser && cmd@ == ":SOURce2:WAVelength:AUTO 1\n"@
                && final(self).phase is LaserUnit),
            old(self).phase is LaserUnit ==> (a matches Action::Send { role, cmd }
                && role == Role::Laser && cmd@ == ":SOURce2:POWer:UNit 0\n"@
                && final(self).phase is LaserLevel),
            old(self).phase is LaserLevel ==> (a matches Action::Send { role, cmd }
                && role == Role::Laser
                && cmd@ == ":SOURce2:POWer:LEVel:IMMediate:AMPLitude DEF\n"@
                && final(self).phase is PowerOn),
            old(self).phase is PowerOn ==> (a matches Action::Send { role, cmd }
                && role == Role::Laser && cmd@ == ":SOURce2:POWer:STATe 1\n"@
                && final(self).phase is SetFirst),
            old(self).phase is SetFirst ==> (a matches Action::Send { role, cmd }
                && role == Role::Laser
                && cmd@ == laser_wavelength_cmd(old(self).params.start as int)
                && final(self).phase is WaitInit),
            old(self).phase is WaitInit ==> (a matches Action::Wait { ms }
                && ms == old(self).params.dwell_ms && final(self).phase is TrigFirst),
            old(self).phase is TrigFirst ==> (a matches Action::Send { role, cmd }
                && role == Role::Analyzer && cmd@ == "TS;DONE?;\n"@
                && final(self).phase is ReadTrigFirst),
            old(self).phase is ReadTrigFirst ==> (a matches Action::Recv { role, confirm }
                && role == Role::Analyzer && confirm
                && final(self).phase == TracePhase::Point(0)),
            old(self).phase matches TracePhase::Point(i) ==> ({
                let w = old(self).params.spec_setpoint(i as int);
                if wavelength_in_range(w) {
                    a matches Action::Send { role, cmd } && role == Role::Laser
                        && cmd@ == laser_wavelength_cmd(w)
                        && final(self).phase == TracePhase::Dwell(i)
                } else {
                    a matches Action::Abort { reason }
                        && reason matches AbortReason::UnsafeSetpoint { value }
                        && value as int == w && final(self).phase is Stopped
                }
            }),
            old(self).phase matches TracePhase::Dwell(i) ==> (a matches Action::Wait { ms }
                && ms == old(self).params.dwell_ms
                && final(self).phase == TracePhase::Trig(i)),
            old(self).phase matches TracePhase::Trig(i) ==> (
                a matches Action::Send { role, cmd } && role == Role::Analyzer
                && cmd@ == "TS;DONE?;\n"@ && final(self).phase == TracePhase::ReadTrig(i)),
            old(self).phase matches TracePhase::ReadTrig(i) ==> (
                a matches Action::Recv { role, confirm } && role == Role::Analyzer
                && confirm && final(self).phase == TracePhase::Mark(i)),
            old(self).phase matches TracePhase::Mark(i) ==> (
                a matches Action::Send { role, cmd } && role == Role::Analyzer
                && cmd@ == "MKPK HI;\n"@ && final(self).phase == TracePhase::AskPeakWl(i)),
            old(self).phase matches TracePhase::AskPeakWl(i) ==> (
                a matches Action::Send { role, cmd } && role == Role::Analyzer
                && cmd@ == "MKWL?;\n"@ && final(self).phase == TracePhase::ReadPeakWl(i)),
            old(self).phase matches TracePhase::ReadPeakWl(i) ==> (
                a matches Action::Recv { role, confirm } && !confirm && role == Role::Analyzer
                && final(self).phase == TracePhase::AskPeakPw(i)),
            old(self).phase matches TracePhase::AskPeakPw(i) ==> (
                a matches Action::Send { role, cmd } && role == Role::Analyzer
                && cmd@ == "MKA?;\n"@
                && final(self).peak_wl as int
                    == scalar_or(ev->text@, 15, WAVELENGTH_SENTINEL as int)
                && final(self).phase == TracePhase::ReadPeakPw(i)),
            old(self).phase matches TracePhase::ReadPeakPw(i) ==> (
                a matches Action::Recv { role, confirm } && !confirm && role == Role::Analyzer
                && final(self).phase == TracePhase::AskTrace(i)),
            old(self).phase matches TracePhase::AskTrace(i) ==> (
                a matches Action::AppendRow { row }
                && row@ == spec_peak_row(
                    old(self).params.spec_setpoint(i as int),
                    old(self).peak_wl as int,
                    scalar_or(ev->text@, 6, POWER_SENTINEL as int))
                && final(self).rows_done@ == old(self).rows_done@.push(
                    old(self).params.spec_setpoint(i as int))
                && final(self).phase == TracePhase::QueryTrace(i)),
            old(self).phase matches TracePhase::QueryTrace(i) ==> ({
                &&& a matches Action::Send { role, cmd }
                &&& role == Role::Analyzer
                &&& cmd@ == "TRA?;\n"@
                &&& final(self).phase == TracePhase::ReadTraceData(i)
            }),
            old(self).phase matches TracePhase::ReadTraceData(i) ==> (
                a matches Action::Recv { role, confirm } && !confirm && role == Role::Analyzer
                && final(self).phase == TracePhase::WriteFile(i)),
            old(self).phase matches TracePhase::WriteFile(i) ==> ({
                let w = old(self).params.spec_setpoint(i as int);
                let fs = reply_fields(ev->text@);
                let m = vstd::math::min(old(self).trace_len as int, fs.len() as int);
                &&& a matches Action::WriteTrace { path, header, rows }
                &&& path@ == trace_path(w)
                &&& header@ == "Wavelength (nm),Power (dBm)"@
                &&& rows@.len() == m
                &&& forall|j: int| 0 <= j < m ==> (#[trigger] rows@[j])@
                    == spec_pair_row(
                        spec_grid_wavelength(
                            old(self).params.start as int,
                            old(self).params.stop as int,
                            old(self).trace_len as int,
                            j),
                        sample_power(fs[j]), 4, 4)
                &&& final(self).traces_done@ == old(self).traces_done@.push(w)
                &&& (if i + 1 < old(self).params.spec_point_count() {
                    final(self).phase == TracePhase::Point((i + 1) as u64)
                } else {
                    final(self).phase is LaserEnd
                })
            }),
            old(self).phase is LaserEnd ==> (a matches Action::Send { role, cmd }
                && role == Role::Laser && cmd@ == ":SOURce2:POWer:STATe 0\n"@
                && final(self).phase is AnalyzerOff),
            old(self).phase is AnalyzerOff ==> (a matches Action::Send { role, cmd }
                && role == Role::Analyzer && cmd@ == "SWEEP OFF;\n"@
                && final(self).phase is AskLaserErr),
            old(self).phase is AskLaserErr ==> (a matches Action::Send { role, cmd }
                && role == Role::Laser && cmd@ == "SYST:ERR?\n"@
                && final(self).phase is ReadLaserErr),
            old(self).phase is ReadLaserErr ==> (a matches Action::Recv { role, confirm } && !confirm
                && role == Role::Laser && final(self).phase is AskAnalyzerErr),
            old(self).phase is AskAnalyzerErr ==> (a matches Action::Send { role, cmd }
                && role == Role::Analyzer && cmd@ == "XERR?;\n"@
                && final(self).phase is ReadAnalyzerErr),
            old(self).phase is ReadAnalyzerErr ==> (a matches Action::Recv { role, confirm } && !confirm
                && role == Role::Analyzer && final(self).phase is Closing),
            old(self).phase is Closing ==> (a is Finish && final(self).phase is Done),
    {
        match self.phase {
            TracePhase::Open => {
                self.phase = TracePhase::SingleSweep;
                Action::OpenSummary {
                    path: String::from_str("data/wavelength_sweep_trace_results.csv"),
                    header: peak_header(),
                }
            },
            TracePhase::SingleSweep => {
                self.phase = TracePhase::CenterSpan;
                Action::Send { role: Role::Analyzer, cmd: String::from_str("SNGLS;\n") }
            },
            TracePhase::CenterSpan => {
                self.phase = TracePhase::AskTraceLen;
                Action::Send {
                    role: Role::Analyzer,
                    cmd: String::from_str("CENTERWL 1549NM;SPANWL 44NM;\n"),
                }
            },
            TracePhase::AskTraceLen => {
                self.phase = TracePhase::ReadTraceLen;
                Action::Send { role: Role::Analyzer, cmd: String::from_str("MDS?;\n") }
            },
            TracePhase::ReadTraceLen => {
                self.phase = TracePhase::LaserIdle;
                Action::Recv { role: Role::Analyzer, confirm: false }
            },
            TracePhase::LaserIdle => {
                let text = match ev {
                    Event::Line { text } => text,
                    _ => String::new(),
                };
                self.trace_len = trace_count(text.as_str());
                self.phase = TracePhase::LaserAuto;
                Action::Send {
                    role: Role::Laser,
                    cmd: String::from_str(":SOURce2:POWer:STATe 0\n"),
                }
            },
            TracePhase::LaserAuto => {
                self.phase = TracePhase::LaserUnit;
                Action::Send {
                    role: Role::Laser,
                    cmd: String::from_str(":SOURce2:WAVelength:AUTO 1\n"),
                }
            },
            TracePhase::LaserUnit => {
                self.phase = TracePhase::LaserLevel;
                Action::Send {
                    role: Role::Laser,
                    cmd: String::from_str(":SOURce2:POWer:UNit 0\n"),
                }
            },
            TracePhase::LaserLevel => {
                self.phase = TracePhase::PowerOn;
                Action::Send {
                    role: Role::Laser,
                    cmd: String::from_str(":SOURce2:POWer:LEVel:IMMediate:AMPLitude DEF\n"),
                }
            },
            TracePhase::PowerOn => {
                self.phase = TracePhase::SetFirst;
                Action::Send {
                    role: Role::Laser,
                    cmd: String::from_str(":SOURce2:POWer:STATe 1\n"),
                }
            },
            TracePhase::SetFirst => {
                self.phase = TracePhase::WaitInit;
                Action::Send {
                    role: Role::Laser,
                    cmd: mk_laser_wavelength_cmd(self.params.start),
                }
            },
            TracePhase::WaitInit => {
                self.phase = TracePhase::TrigFirst;
                Action::Wait { ms: self.params.dwell_ms }
            },
            TracePhase::TrigFirst => {
                self.phase = TracePhase::ReadTrigFirst;
                Action::Send { role: Role::Analyzer, cmd: String::from_str("TS;DONE?;\n") }
            },
            TracePhase::ReadTrigFirst => {
                self.phase = TracePhase::Point(0);
                Action::Recv { role: Role::Analyzer, confirm: true }
            },
            TracePhase::Point(i) => {
                let w = self.params.setpoint(i);
                if check_wavelength(w) {
                    self.phase = TracePhase::Dwell(i);
                    Action::Send { role: Role::Laser, cmd: mk_laser_wavelength_cmd(w) }
                } else {
                    self.phase = TracePhase::Stopped;
                    Action::Abort { reason: AbortReason::UnsafeSetpoint { value: w } }
                }
            },
            TracePhase::Dwell(i) => {
                self.phase = TracePhase::Trig(i);
                Action::Wait { ms: self.params.dwell_ms }
            },
            TracePhase::Trig(i) => {
                self.phase = TracePhase::ReadTrig(i);
                Action::Send { role: Role::Analyzer, cmd: String::from_str("TS;DONE?;\n") }
            },
            TracePhase::ReadTrig(i) => {
                self.phase = TracePhase::Mark(i);
                Action::Recv { role: Role::Analyzer, confirm: true }
            },
            TracePhase::Mark(i) => {
                self.phase = TracePhase::AskPeakWl(i);
                Action::Send { role: Role::Analyzer, cmd: String::from_str("MKPK HI;\n") }
            },
            TracePhase::AskPeakWl(i) => {
                self.phase = TracePhase::ReadPeakWl(i);
                Action::Send { role: Role::Analyzer, cmd: String::from_str("MKWL?;\n") }
            },
            TracePhase::ReadPeakWl(i) => {
                self.phase = TracePhase::AskPeakPw(i);
                Action::Recv { role: Role::Analyzer, confirm: false }
            },
            TracePhase::AskPeakPw(i) => {
                let text = match ev {
                    Event::Line { text } => text,
                    _ => String::new(),
                };
                self.peak_wl = peak_wavelength_micro_nm(text.as_str());
                self.phase = TracePhase::ReadPeakPw(i);
                Action::Send { role: Role::Analyzer, cmd: String::from_str("MKA?;\n") }
            },
            TracePhase::ReadPeakPw(i) => {
                self.phase = TracePhase::AskTrace(i);
                Action::Recv { role: Role::Analyzer, confirm: false }
            },
            TracePhase::AskTrace(i) => {
                let text = match ev {
                    Event::Line { text } => text,
                    _ => String::new(),
                };
                let pk_pw = power_micro_dbm_or_sentinel(text.as_str());
                let w = self.params.setpoint(i);
                let row = render_peak_row(w, self.peak_wl, pk_pw);
                proof {
                    self.rows_done@ = self.rows_done@.push(w as int);
                }
                self.phase = TracePhase::QueryTrace(i);
                Action::AppendRow { row }
            },
            TracePhase::QueryTrace(i) => {
                self.phase = TracePhase::ReadTraceData(i);
                Action::Send { role: Role::Analyzer, cmd: String::from_str("TRA?;\n") }
            },
            TracePhase::ReadTraceData(i) => {
                self.phase = TracePhase::WriteFile(i);
                Action::Recv { role: Role::Analyzer, confirm: false }
            },
            TracePhase::WriteFile(i) => {
                let text = match ev {
                    Event::Line { text } => text,
                    _ => String::new(),
                };
                let w = self.params.setpoint(i);
                let tl = self.trace_len;
                let st = self.params.start;
                let sp = self.params.stop;
                let samples = parse_trace(text.as_str(), tl, st, sp);
                let ghost fs = reply_fields(text@);
                let mut rows: Vec<String> = Vec::new();
                let mut j: usize = 0;
                while j < samples.len()
                    invariant
                        0 <= j <= samples@.len(),
                        rows@.len() == j,
                        st <= sp,
                        crate::micro_bounded(st as int),
                        crate::micro_bounded(sp as int),
                        forall|k: int| 0 <= k < samples@.len()
                            ==> (#[trigger] samples@[k]).wavelength as int
                                    == spec_grid_wavelength(
                                        st as int, sp as int, tl as int, k)
                                && st <= samples@[k].wavelength <= sp
                                && samples@[k].power as int == sample_power(fs[k]),
                        forall|k: int| 0 <= k < j ==> (#[trigger] rows@[k])@
                            == spec_pair_row(
                                spec_grid_wavelength(st as int, sp as int, tl as int, k),
                                sample_power(fs[k]), 4, 4),
                    decreases samples@.len() - j,
                {
                    let smp = samples[j];
                    proof {
                        assert(crate::micro_bounded(smp.power as int));
                    }
                    let row = render_pair_row(smp.wavelength, smp.power, 4, 4);
                    rows.push(row);
                    j = j + 1;
                }
                proof {
                    self.traces_done@ = self.traces_done@.push(w as int);
                }
                let n = self.params.point_count();
                if i + 1 < n {
                    self.phase = TracePhase::Point(i + 1);
                } else {
                    self.phase = TracePhase::LaserEnd;
                }
                Action::WriteTrace {
                    path: mk_trace_path(w),
                    header: power_header(),
                    rows,
                }
            },
            TracePhase::LaserEnd => {
                self.phase = TracePhase::AnalyzerOff;
                Action::Send {
                    role: Role::Laser,
                    cmd: String::from_str(":SOURce2:POWer:STATe 0\n"),
                }
            },
            TracePhase::AnalyzerOff => {
                self.phase = TracePhase::AskLaserErr;
                Action::Send { role: Role::Analyzer, cmd: String::from_str("SWEEP OFF;\n") }
            },
            TracePhase::AskLaserErr => {
                self.phase = TracePhase::ReadLaserErr;
                Action::Send { role: Role::Laser, cmd: String::from_str("SYST:ERR?\n") }
            },
            TracePhase::ReadLaserErr => {
                self.phase = TracePhase::AskAnalyzerErr;
                Action::Recv { role: Role::Laser, confirm: false }
            },
            TracePhase::AskAnalyzerErr => {
                self.phase = TracePhase::ReadAnalyzerErr;
                Action::Send { role: Role::Analyzer, cmd: String::from_str("XERR?;\n") }
            },
            TracePhase::ReadAnalyzerErr => {
                self.phase = TracePhase::Closing;
                Action::Recv { role: Role::Analyzer, confirm: false }
            },
            TracePhase::Closing => {
                self.phase = TracePhase::Done;
                Action::Finish
            },
            TracePhase::Done => Action::Finish,
            TracePhase::Stopped => Action::Finish,
        }
    }
}

/// Law: a trace sweep that ran to completion appended exactly one
/// summary row and wrote exactly one trace file per point —
/// `floor((stop-start)/step) + 1` of each — in sweep order, the `j`-th
/// at setpoint `start + j*step`.
pub proof fn lemma_finished_trace_sweep_recorded_all(m: TraceSweep)
    requires
        m.wf(),
        m.phase is Done,
    ensures
        m.rows_done@.len() == m.params.spec_point_count(),
        m.traces_done@.len() == m.params.spec_point_count(),
        forall|j: int| 0 <= j < m.rows_done@.len()
            ==> #[trigger] m.rows_done@[j] == m.params.spec_setpoint(j),
        forall|j: int| 0 <= j < m.traces_done@.len()
            ==> #[trigger] m.traces_done@[j] == m.params.spec_setpoint(j),
{
}

} // verus!
