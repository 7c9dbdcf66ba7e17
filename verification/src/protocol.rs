//! The wire protocol: instrument roles, the actions a sweep asks its
//! runner to perform, and the exact command strings of each instrument's
//! dialect.

use vstd::prelude::*;

verus! {

use crate::num::{spec_fixed, spec_to_scale, render_micro};
use crate::micro_bounded;

/// The four bus-addressed instruments.
#[derive(Clone, Copy, Debug, PartialEq, Eq, Structural)]
pub enum Role {
    /// The tunable laser source.
    Laser,
    /// The optical power meter.
    PowerMeter,
    /// The optical spectrum analyzer.
    Analyzer,
    /// The laser-diode current driver.
    Driver,
}

/// Why a sweep stops before its natural end.
#[derive(Clone, Debug, PartialEq, Eq)]
pub enum AbortReason {
    /// A computed setpoint left the safety envelope; nothing further is
    /// written to any instrument.
    UnsafeSetpoint { value: i64 },
    /// A mandatory reading was missing or malformed; `field` is the
    /// selected field's text, empty where none was present.
    Protocol { err: crate::reply::ProtocolError, field: String },
}

/// One thing the unverified runner must do next.  The runner performs
/// it and calls `step` again with the outcome.
pub enum Action {
    /// Write `cmd` to the instrument of `role`.
    Send { role: Role, cmd: String },
    /// Read one reply line from the instrument of `role`; answer with
    /// `Event::Line`.  When `confirm` is set the line is a
    /// sweep-completion confirmation: a reply other than `1` deserves a
    /// logged warning, never an abort.
    Recv { role: Role, confirm: bool },
    /// Sleep at least `ms` milliseconds.
    Wait { ms: u64 },
    /// Create (or truncate) the summary file and write its header line.
    OpenSummary { path: String, header: String },
    /// Append one data row to the summary file.
    AppendRow { row: String },
    /// Write one whole trace file: header line, then the rows.
    WriteTrace { path: String, header: String, rows: Vec<String> },
    /// The sweep finished; the laser is off.
    Finish,
    /// The sweep stopped early; no further instrument write follows.
    Abort { reason: AbortReason },
}

/// The outcome the runner reports back to `step`.
pub enum Event {
    /// Nothing has run yet; ask for the first action.
    Start,
    /// The previous action completed.
    Done,
    /// The previous `Recv` returned this reply line.
    Line { text: String },
}

impl Event {
    /// Whether this event carries a reply line.
    pub open spec fn is_line(self) -> bool {
        self is Line
    }
}

/// The laser's wavelength command: `:SOURce2:WAVelength:CW <nm>NM`,
/// three fraction digits.
pub open spec fn laser_wavelength_cmd(w: int) -> Seq<char> {
    ":SOURce2:WAVelength:CW "@ + spec_fixed(spec_to_scale(w, 3), 3) + "NM\n"@
}

/// Builds `laser_wavelength_cmd` for a micro-nm setpoint.
pub fn mk_laser_wavelength_cmd(w: i64) -> (r: String)
    requires
        micro_bounded(w as int),
    ensures
        r@ == laser_wavelength_cmd(w as int),
{
    let mut s = String::from_str(":SOURce2:WAVelength:CW ");
    let num = render_micro(w, 3);
    s.append(num.as_str());
    s.append("NM\n");
    proof {
        assert(s@ =~= laser_wavelength_cmd(w as int));
    }
    s
}

/// The power meter's calibration command: `WAV <nm>`, three fraction
/// digits.
pub open spec fn meter_wavelength_cmd(w: int) -> Seq<char> {
    "WAV "@ + spec_fixed(spec_to_scale(w, 3), 3) + "\n"@
}

/// Builds `meter_wavelength_cmd` for a micro-nm setpoint.
pub fn mk_meter_wavelength_cmd(w: i64) -> (r: String)
    requires
        micro_bounded(w as int),
    ensures
        r@ == meter_wavelength_cmd(w as int),
{
    let mut s = String::from_str("WAV ");
    let num = render_micro(w, 3);
    s.append(num.as_str());
    s.append("\n");
    proof {
        assert(s@ =~= meter_wavelength_cmd(w as int));
    }
    s
}

/// The per-point trace file: `trace_<nm>nm.csv` under the trace
/// directory, the wavelength to two fraction digits.
pub open spec fn trace_path(w: int) -> Seq<char> {
    "data/wavelength_sweep_trace_data/trace_"@ + spec_fixed(spec_to_scale(w, 2), 2)
        + "nm.csv"@
}

/// Builds `trace_path` for a micro-nm setpoint.
pub fn mk_trace_path(w: i64) -> (r: String)
    requires
        micro_bounded(w as int),
    ensures
        r@ == trace_path(w as int),
{
    let mut s = String::from_str("data/wavelength_sweep_trace_data/trace_");
    let num = render_micro(w, 2);
    s.append(num.as_str());
    s.append("nm.csv");
    proof {
        assert(s@ =~= trace_path(w as int));
    }
    s
}

} // verus!
