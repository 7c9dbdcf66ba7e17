use sweeplab::engine::{TraceSweep, WavelengthCheck, WavelengthSweep};
use sweeplab::protocol::{AbortReason, Action, Event, Role};
use sweeplab::registry::{clear_cmd, identify_cmd, resource_address, Registry};
use sweeplab::reply::ProtocolError;
use sweeplab::sweep::SweepSpec;

/// What a scripted run of a machine produced.
struct RunLog {
    sends: Vec<(Role, String)>,
    recvs: Vec<(Role, bool)>,
    waits: Vec<u64>,
    summary: Option<(String, String)>,
    rows: Vec<String>,
    traces: Vec<(String, String, Vec<String>)>,
    abort: Option<AbortReason>,
}

fn run_sweep(m: &mut WavelengthSweep, replies: &[&str]) -> RunLog {
    let mut log = RunLog {
        sends: vec![],
        recvs: vec![],
        waits: vec![],
        summary: None,
        rows: vec![],
        traces: vec![],
        abort: None,
    };
    let mut replies = replies.iter();
    let mut ev = Event::Start;
    loop {
        match m.step(ev) {
            Action::Send { role, cmd } => {
                log.sends.push((role, cmd));
                ev = Event::Done;
            }
            Action::Recv { role, confirm } => {
                log.recvs.push((role, confirm));
                let text = replies.next().expect("the script ran out of replies");
                ev = Event::Line { text: String::from(*text) };
            }
            Action::Wait { ms } => {
                log.waits.push(ms);
                ev = Event::Done;
            }
            Action::OpenSummary { path, header } => {
                log.summary = Some((path, header));
                ev = Event::Done;
            }
            Action::AppendRow { row } => {
                log.rows.push(row);
                ev = Event::Done;
            }
            Action::WriteTrace { path, header, rows } => {
                log.traces.push((path, header, rows));
                ev = Event::Done;
            }
            Action::Finish => break,
            Action::Abort { reason } => {
                log.abort = Some(reason);
                break;
            }
        }
    }
    log
}

fn run_check(m: &mut WavelengthCheck, replies: &[&str]) -> RunLog {
    let mut log = RunLog {
        sends: vec![],
        recvs: vec![],
        waits: vec![],
        summary: None,
        rows: vec![],
        traces: vec![],
        abort: None,
    };
    let mut replies = replies.iter();
    let mut ev = Event::Start;
    loop {
        match m.step(ev) {
            Action::Send { role, cmd } => {
                log.sends.push((role, cmd));
                ev = Event::Done;
            }
            Action::Recv { role, confirm } => {
                log.recvs.push((role, confirm));
                let text = replies.next().expect("the script ran out of replies");
                ev = Event::Line { text: String::from(*text) };
            }
            Action::Wait { ms } => {
                log.waits.push(ms);
                ev = Event::Done;
            }
            Action::OpenSummary { path, header } => {
                log.summary = Some((path, header));
                ev = Event::Done;
            }
            Action::AppendRow { row } => {
                log.rows.push(row);
                ev = Event::Done;
            }
            Action::WriteTrace { path, header, rows } => {
                log.traces.push((path, header, rows));
                ev = Event::Done;
            }
            Action::Finish => break,
            Action::Abort { reason } => {
                log.abort = Some(reason);
                break;
            }
        }
    }
    log
}

fn run_trace(m: &mut TraceSweep, replies: &[&str]) -> RunLog {
    let mut log = RunLog {
        sends: vec![],
        recvs: vec![],
        waits: vec![],
        summary: None,
        rows: vec![],
        traces: vec![],
        abort: None,
    };
    let mut replies = replies.iter();
    let mut ev = Event::Start;
    loop {
        match m.step(ev) {
            Action::Send { role, cmd } => {
                log.sends.push((role, cmd));
                ev = Event::Done;
            }
            Action::Recv { role, confirm } => {
                log.recvs.push((role, confirm));
                let text = replies.next().expect("the script ran out of replies");
                ev = Event::Line { text: String::from(*text) };
            }
            Action::Wait { ms } => {
                log.waits.push(ms);
                ev = Event::Done;
            }
            Action::OpenSummary { path, header } => {
                log.summary = Some((path, header));
                ev = Event::Done;
            }
            Action::AppendRow { row } => {
                log.rows.push(row);
                ev = Event::Done;
            }
            Action::WriteTrace { path, header, rows } => {
                log.traces.push((path, header, rows));
                ev = Event::Done;
            }
            Action::Finish => break,
            Action::Abort { reason } => {
                log.abort = Some(reason);
                break;
            }
        }
    }
    log
}

#[test]
fn wavelength_sweep_runs_the_full_protocol() {
    let spec = SweepSpec {
        start: 1_530_000_000,
        stop: 1_532_000_000,
        step: 2_000_000,
        dwell_ms: 250,
    };
    let mut m = WavelengthSweep::new(spec);
    let log = run_sweep(
        &mut m,
        &[
            "-12.3,-10.5,-11.1,-9.9\r\n",
            "-12.3,-11.25,-11.1,-9.9\r\n",
            "0,\"No error\"\r\n",
            "0\r\n",
        ],
    );
    assert!(log.abort.is_none());
    let (path, header) = log.summary.expect("the summary file must be opened");
    assert_eq!(path, "data/wavelength_sweep_results.csv");
    assert_eq!(header, "Wavelength (nm),Power (dBm)");
    let expected_sends: Vec<(Role, &str)> = vec![
        (Role::Laser, ":SOURce2:POWer:STATe 0\n"),
        (Role::Laser, ":SOURce2:WAVelength:AUTO 1\n"),
        (Role::Laser, ":SOURce2:POWer:UNit 0\n"),
        (Role::Laser, ":SOURce2:POWer:LEVel:IMMediate:AMPLitude DEF\n"),
        (Role::PowerMeter, "WMOD CONST1\n"),
        (Role::PowerMeter, "AVG 50\n"),
        (Role::PowerMeter, "UNIT 0\n"),
        (Role::Laser, ":SOURce2:POWer:STATe 1\n"),
        (Role::Laser, ":SOURce2:WAVelength:CW 1530.000NM\n"),
        (Role::Laser, ":SOURce2:WAVelength:CW 1530.000NM\n"),
        (Role::PowerMeter, "WAV 1530.000\n"),
        (Role::PowerMeter, "READ? 0\n"),
        (Role::Laser, ":SOURce2:WAVelength:CW 1532.000NM\n"),
        (Role::PowerMeter, "WAV 1532.000\n"),
        (Role::PowerMeter, "READ? 0\n"),
        (Role::Laser, ":SOURce2:POWer:STATe 0\n"),
        (Role::Laser, "SYST:ERR?\n"),
        (Role::PowerMeter, "ERR?\n"),
    ];
    let got: Vec<(Role, &str)> =
        log.sends.iter().map(|(r, c)| (*r, c.as_str())).collect();
    assert_eq!(got, expected_sends);
    assert_eq!(log.waits, vec![250, 250, 250]);
    assert_eq!(log.rows, vec!["1530.000,-10.500000", "1532.000,-11.250000"]);
}

#[test]
fn sweep_aborts_on_malformed_mandatory_reading() {
    let spec = SweepSpec {
        start: 1_530_000_000,
        stop: 1_532_000_000,
        step: 2_000_000,
        dwell_ms: 10,
    };
    let mut m = WavelengthSweep::new(spec);
    let log = run_sweep(&mut m, &["-12.3,bogus,-11.1,-9.9\r\n"]);
    assert_eq!(
        log.abort,
        Some(AbortReason::Protocol {
            err: ProtocolError::MalformedField,
            field: String::from("bogus"),
        })
    );
    assert!(log.rows.is_empty());
}

#[test]
fn sweep_aborts_mid_run_when_a_setpoint_leaves_the_envelope() {
    // the machine itself re-validates every setpoint: the third point of
    // this sweep lies above 1570.01 nm, so the run stops there, after the
    // first two points' rows were already recorded
    let spec = SweepSpec {
        start: 1_560_000_000,
        stop: 1_580_000_000,
        step: 10_000_000,
        dwell_ms: 1,
    };
    let mut m = WavelengthSweep::new(spec);
    let log = run_sweep(
        &mut m,
        &["-1.0,-2.0,-3.0,-4.0\r\n", "-1.0,-2.5,-3.0,-4.0\r\n"],
    );
    assert_eq!(
        log.abort,
        Some(AbortReason::UnsafeSetpoint { value: 1_580_000_000 })
    );
    assert_eq!(log.rows, vec!["1560.000,-2.000000", "1570.000,-2.500000"]);
    // nothing was written to any instrument for the rejected setpoint
    assert!(!log
        .sends
        .iter()
        .any(|(_, c)| c.as_str().contains("1580.000")));
}

#[test]
fn check_records_one_point() {
    let mut m = WavelengthCheck::new(1_530_000_000, 400);
    let log = run_check(
        &mut m,
        &["-12.3,-10.5,-11.1,-9.9\r\n", "0,\"No error\"\r\n", "0\r\n"],
    );
    assert!(log.abort.is_none());
    let (path, _) = log.summary.expect("the result file must be opened");
    assert_eq!(path, "wavelength_check_result.csv");
    assert_eq!(log.rows, vec!["1530.000,-10.500000"]);
    assert_eq!(log.waits, vec![400, 150]);
}

#[test]
fn check_rejects_unsafe_wavelength_before_setting_it() {
    // 1520 nm is outside the envelope: the machine aborts at the
    // validation step and no wavelength command is ever issued
    let mut m = WavelengthCheck::new(1_520_000_000, 100);
    let log = run_check(&mut m, &[]);
    assert_eq!(
        log.abort,
        Some(AbortReason::UnsafeSetpoint { value: 1_520_000_000 })
    );
    assert!(log.sends.iter().all(|(_, c)| !c.contains("WAVelength:CW")));
    assert!(log.rows.is_empty());
}

#[test]
fn trace_sweep_reconstructs_traces_on_the_grid() {
    let spec = SweepSpec {
        start: 1_530_000_000,
        stop: 1_538_000_000,
        step: 8_000_000,
        dwell_ms: 100,
    };
    let mut m = TraceSweep::new(spec);
    let log = run_trace(
        &mut m,
        &[
            "5\r\n",                       // trace length
            "1\r\n",                       // first trigger confirmed
            "1\r\n",                       // point 0 trigger
            "1.531e-6\r\n",                // point 0 peak wavelength (m)
            "-11.25\r\n",                  // point 0 peak power
            "-10.0,-11.5,junk,-12.25,-13.0\r\n", // point 0 trace
            "0\r\n",                       // point 1 trigger: not confirmed, logged only
            "1.537e-6\r\n",
            "-13.5\r\n",
            "-20.0,-21.0\r\n",
            "0,\"No error\"\r\n",
            "0\r\n",
        ],
    );
    assert!(log.abort.is_none());
    let (path, header) = log.summary.expect("the summary file must be opened");
    assert_eq!(path, "data/wavelength_sweep_trace_results.csv");
    assert_eq!(header, "Laser Wavelength (nm),Peak Wavelength (nm),Peak Power (dBm)");
    assert_eq!(
        log.rows,
        vec!["1530.00,1531.0000,-11.25", "1538.00,1537.0000,-13.50"]
    );
    assert_eq!(log.traces.len(), 2);
    let (tpath, theader, trows) = &log.traces[0];
    assert_eq!(tpath, "data/wavelength_sweep_trace_data/trace_1530.00nm.csv");
    assert_eq!(theader, "Wavelength (nm),Power (dBm)");
    // five grid slots over 1530..1538 nm; the malformed third sample is
    // recorded as -100 dBm at its grid wavelength, and the run went on
    assert_eq!(
        trows,
        &vec![
            String::from("1530.0000,-10.0000"),
            String::from("1532.0000,-11.5000"),
            String::from("1534.0000,-100.0000"),
            String::from("1536.0000,-12.2500"),
            String::from("1538.0000,-13.0000"),
        ]
    );
    // the second trace reply held only two samples
    let (_, _, trows1) = &log.traces[1];
    assert_eq!(
        trows1,
        &vec![String::from("1530.0000,-20.0000"), String::from("1532.0000,-21.0000")]
    );
    // the analyzer was told to sweep once per point, plus the first arm
    let triggers = log
        .sends
        .iter()
        .filter(|(r, c)| *r == Role::Analyzer && c.as_str() == "TS;DONE?;\n")
        .count();
    assert_eq!(triggers, 3);
    // exactly the trigger confirmations are flagged for the runner's
    // warning log
    let confirms = log.recvs.iter().filter(|(_, c)| *c).count();
    assert_eq!(confirms, 3);
}

#[test]
fn trace_sweep_arms_at_its_own_start() {
    // the first wavelength command after laser-on carries the sweep's
    // own starting value
    let spec = SweepSpec {
        start: 1_540_000_000,
        stop: 1_544_000_000,
        step: 4_000_000,
        dwell_ms: 5,
    };
    let mut m = TraceSweep::new(spec);
    let log = run_trace(
        &mut m,
        &[
            "5\r\n",
            "1\r\n",
            "1\r\n",
            "1.541e-6\r\n",
            "-9.5\r\n",
            "-1,-2,-3,-4,-5\r\n",
            "1\r\n",
            "1.543e-6\r\n",
            "-9.75\r\n",
            "-6,-7,-8,-9,-10\r\n",
            "0,\"No error\"\r\n",
            "0\r\n",
        ],
    );
    assert!(log.abort.is_none());
    let first_cw = log
        .sends
        .iter()
        .find(|(_, c)| c.as_str().contains("WAVelength:CW"))
        .expect("the laser must be set after it is turned on");
    assert_eq!(first_cw.1.as_str(), ":SOURce2:WAVelength:CW 1540.000NM\n");
    assert_eq!(
        log.rows,
        vec!["1540.00,1541.0000,-9.50", "1544.00,1543.0000,-9.75"]
    );
}

#[test]
fn registry_remembers_sessions_and_identities() {
    let mut reg = Registry::new();
    assert!(!reg.is_open(Role::Laser));
    reg.mark_open(Role::Laser);
    assert!(reg.is_open(Role::Laser));
    assert!(!reg.is_open(Role::Analyzer));
    let id = reg.record_identity(Role::Laser, "Keysight,N7776C,X,1.0\r\n");
    assert_eq!(id.as_str(), "Keysight,N7776C,X,1.0");
    assert_eq!(reg.identity(Role::Laser).as_str(), "Keysight,N7776C,X,1.0");
    assert_eq!(reg.identity(Role::PowerMeter).as_str(), "");
}

#[test]
fn dialects_differ_only_for_the_analyzer() {
    assert_eq!(clear_cmd(Role::Laser), "*CLS\n");
    assert_eq!(clear_cmd(Role::Analyzer), "CLS;\n");
    assert_eq!(identify_cmd(Role::Driver), "*IDN?\n");
    assert_eq!(identify_cmd(Role::Analyzer), "ID?;\n");
    assert_eq!(resource_address(Role::Laser), "GPIB0::21::INSTR");
    assert_eq!(resource_address(Role::PowerMeter), "GPIB0::16::INSTR");
    assert_eq!(resource_address(Role::Analyzer), "GPIB0::23::INSTR");
    assert_eq!(resource_address(Role::Driver), "USB::4883::32847::M01053290::0::INSTR");
}
