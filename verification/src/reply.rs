//! Interpretation of textual instrument replies.
//!
//! A reply line is trimmed of surrounding whitespace and read either as
//! one scalar, as a comma-separated tuple from which a fixed field is
//! selected, or as a comma-separated list of trace samples laid over an
//! evenly spaced wavelength grid.

use vstd::prelude::*;

verus! {

use crate::num::{
    find_char2, lemma_find_char2_is, spec_parse_scaled,
    spec_parse_u64, parse_scaled, parse_u64_text, spec_round_div,
};

/// Power recorded when a sample fails to parse, in micro-dBm.
pub const POWER_SENTINEL: i64 = -100_000_000;

/// Wavelength recorded when a peak reply fails to parse, in micro-nm.
pub const WAVELENGTH_SENTINEL: i64 = 0;

/// Trace length assumed when the analyzer's reply is unusable.
pub const DEFAULT_TRACE_POINTS: u64 = 800;

/// The whitespace that surrounds instrument replies.
pub open spec fn is_space(c: char) -> bool {
    c == ' ' || c == '\t' || c == '\n' || c == '\r' || c == '\u{000B}' || c == '\u{000C}'
}

pub open spec fn trim_front(s: Seq<char>) -> Seq<char>
    decreases s.len(),
{
    if s.len() > 0 && is_space(s[0]) {
        trim_front(s.drop_first())
    } else {
        s
    }
}

pub open spec fn trim_back(s: Seq<char>) -> Seq<char>
    decreases s.len(),
{
    if s.len() > 0 && is_space(s.last()) {
        trim_back(s.drop_last())
    } else {
        s
    }
}

/// `s` without leading and trailing whitespace.
pub open spec fn spec_trim(s: Seq<char>) -> Seq<char> {
    trim_back(trim_front(s))
}

proof fn lemma_trim_front_is(s: Seq<char>, l: int)
    requires
        0 <= l <= s.len(),
        forall|j: int| 0 <= j < l ==> is_space(#[trigger] s[j]),
        l == s.len() || !is_space(s[l]),
    ensures
        trim_front(s) == s.skip(l),
    decreases l,
{
    if l == 0 {
        assert(s.skip(0) =~= s);
    } else {
        let t = s.drop_first();
        assert(forall|j: int| 0 <= j < l - 1 ==> is_space(#[trigger] t[j]));
        lemma_trim_front_is(t, l - 1);
        assert(t.skip(l - 1) =~= s.skip(l));
    }
}

proof fn lemma_trim_back_is(s: Seq<char>, r: int)
    requires
        0 <= r <= s.len(),
        forall|j: int| r <= j < s.len() ==> is_space(#[trigger] s[j]),
        r == 0 || !is_space(s[r - 1]),
    ensures
        trim_back(s) == s.take(r),
    decreases s.len(),
{
    if r == s.len() {
        assert(s.take(r) =~= s);
    } else {
        let t = s.drop_last();
        assert(forall|j: int| r <= j < t.len() ==> is_space(#[trigger] t[j]));
        lemma_trim_back_is(t, r);
        assert(t.take(r) =~= s.take(r));
    }
}

/// Removes surrounding whitespace, exactly as `spec_trim` describes.
pub fn trim(s: &str) -> (r: String)
    ensures
        r@ == spec_trim(s@),
{
    let n = s.unicode_len();
    let mut l: usize = 0;
    let mut stop: bool = false;
    while !stop
        invariant
            0 <= l <= n == s@.len(),
            forall|j: int| 0 <= j < l ==> is_space(#[trigger] s@[j]),
            stop ==> l == n || !is_space(s@[l as int]),
        decreases n - l + (if stop { 0int } else { 1int }),
    {
        if l == n {
            stop = true;
        } else {
            let c = s.get_char(l);
            if c == ' ' || c == '\t' || c == '\n' || c == '\r' || c == '\u{000B}' || c == '\u{000C}' {
                l = l + 1;
            } else {
                stop = true;
            }
        }
    }
    let mut r: usize = n;
    let mut stop2: bool = false;
    while !stop2
        invariant
            l <= r <= n == s@.len(),
            forall|j: int| 0 <= j < l ==> is_space(#[trigger] s@[j]),
            l == n || !is_space(s@[l as int]),
            forall|j: int| r <= j < n ==> is_space(#[trigger] s@[j]),
            stop2 ==> r == l || !is_space(s@[r - 1]),
        decreases r - l + (if stop2 { 0int } else { 1int }),
    {
        if r == l {
            stop2 = true;
        } else {
            let c = s.get_char(r - 1);
            if c == ' ' || c == '\t' || c == '\n' || c == '\r' || c == '\u{000B}' || c == '\u{000C}' {
                r = r - 1;
            } else {
                stop2 = true;
            }
        }
    }
    proof {
        lemma_trim_front_is(s@, l as int);
        let t = s@.skip(l as int);
        assert(forall|j: int| r - l <= j < t.len() ==> is_space(#[trigger] t[j]));
        if r > l {
            assert(t[r - l - 1] == s@[r - 1]);
        }
        lemma_trim_back_is(t, r - l);
        assert(t.take(r - l) =~= s@.subrange(l as int, r as int));
    }
    let sub = s.substring_char(l, r);
    String::from_str(sub)
}

/// `s` split at every occurrence of `sep`; always at least one piece.
pub open spec fn split_on(s: Seq<char>, sep: char) -> Seq<Seq<char>>
    decreases s.len(),
{
    let p = find_char2(s, sep, sep);
    if 0 <= p < s.len() {
        seq![s.take(p)] + split_on(s.skip(p + 1), sep)
    } else {
        seq![s]
    }
}

/// Splits `s` at every comma, exactly as `split_on` describes.
pub fn split_commas(s: &str) -> (r: Vec<String>)
    ensures
        r@.map_values(|t: String| t@) == split_on(s@, ','),
{
    let n = s.unicode_len();
    let mut out: Vec<String> = Vec::new();
    let mut start: usize = 0;
    let mut done: bool = false;
    proof {
        assert(s@.skip(0) =~= s@);
        assert(out@.map_values(|t: String| t@) =~= Seq::<Seq<char>>::empty());
    }
    while !done
        invariant
            0 <= start <= n == s@.len(),
            !done ==> split_on(s@, ',')
                == out@.map_values(|t: String| t@) + split_on(s@.skip(start as int), ','),
            done ==> split_on(s@, ',') == out@.map_values(|t: String| t@),
        decreases n - start + (if done { 0int } else { 1int }),
    {
        let ghost rest = s@.skip(start as int);
        let q = crate::num::scan2(s, n, start, n, ',', ',');
        proof {
            assert forall|j: int| 0 <= j < q - start implies #[trigger] rest[j] != ','
                && rest[j] != ',' by {
                assert(rest[j] == s@[start + j]);
            }
            if (q as int) < (n as int) {
                assert(rest[q - start] == s@[q as int]);
            }
            lemma_find_char2_is(rest, ',', ',', q - start);
        }
        let piece = s.substring_char(start, q);
        let ghost before = out@;
        out.push(String::from_str(piece));
        proof {
            assert(piece@ =~= rest.take(q - start));
            assert(out@.map_values(|t: String| t@)
                =~= before.map_values(|t: String| t@) + seq![piece@]);
        }
        if q == n {
            proof {
                assert(split_on(rest, ',') =~= seq![rest]);
                assert(rest =~= piece@);
            }
            done = true;
        } else {
            proof {
                assert(split_on(rest, ',')
                    =~= seq![rest.take(q - start)] + split_on(rest.skip(q - start + 1), ','));
                assert(rest.skip(q - start + 1) =~= s@.skip(q + 1));
            }
            start = q + 1;
        }
    }
    out
}

/// A reply that cannot yield the mandatory reading.
#[derive(Clone, Copy, Debug, PartialEq, Eq, Structural)]
pub enum ProtocolError {
    /// The reply holds no field at the selected position.
    MissingField,
    /// The selected field is present but is not a number.
    MalformedField,
}

/// The comma-separated fields of a trimmed reply line.
pub open spec fn reply_fields(line: Seq<char>) -> Seq<Seq<char>> {
    split_on(spec_trim(line), ',')
}

/// The mandatory reading of a multi-value power-meter reply: its
/// second field, in micro-dBm.  A reply with fewer than two fields has
/// no such reading; a second field that is not a number within physical
/// bounds is malformed.
pub open spec fn spec_power_reading(line: Seq<char>) -> Result<int, ProtocolError> {
    let fs = reply_fields(line);
    if fs.len() < 2 {
        Err(ProtocolError::MissingField)
    } else {
        match spec_parse_scaled(fs[1], 6) {
            Some(v) => if crate::micro_bounded(v) {
                Ok(v)
            } else {
                Err(ProtocolError::MalformedField)
            },
            None => Err(ProtocolError::MalformedField),
        }
    }
}

/// The text of the selected field, empty where the reply has no second
/// field.
pub open spec fn spec_second_field(line: Seq<char>) -> Seq<char> {
    let fs = reply_fields(line);
    if fs.len() >= 2 {
        fs[1]
    } else {
        Seq::<char>::empty()
    }
}

/// Hands out the selected field's text, for reporting.
pub fn second_field_text(line: &str) -> (r: String)
    ensures
        r@ == spec_second_field(line@),
{
    let t = trim(line);
    let fields = split_commas(t.as_str());
    proof {
        assert(fields@.map_values(|x: String| x@).len() == fields@.len());
    }
    if fields.len() >= 2 {
        proof {
            assert(fields@.map_values(|x: String| x@)[1] == fields@[1]@);
        }
        fields[1].clone()
    } else {
        String::new()
    }
}

/// Selects the second field of a multi-value power-meter reply, in
/// micro-dBm.  The reading is mandatory: a missing or malformed field
/// is a protocol error, never a substituted value.
pub fn select_power_field(line: &str) -> (r: Result<i64, ProtocolError>)
    ensures
        match r {
            Ok(v) => spec_power_reading(line@) == Ok::<int, ProtocolError>(v as int),
            Err(e) => spec_power_reading(line@) == Err::<int, ProtocolError>(e),
        },
{
    let t = trim(line);
    let fields = split_commas(t.as_str());
    proof {
        assert(fields@.map_values(|x: String| x@).len() == fields@.len());
    }
    if fields.len() < 2 {
        return Err(ProtocolError::MissingField);
    }
    proof {
        assert(fields@.map_values(|x: String| x@)[1] == fields@[1]@);
    }
    match parse_scaled(fields[1].as_str(), 6) {
        Some(v) => {
            if -1_000_000_000_000_000 <= v && v <= 1_000_000_000_000_000 {
                Ok(v)
            } else {
                Err(ProtocolError::MalformedField)
            }
        },
        None => Err(ProtocolError::MalformedField),
    }
}

/// A scalar reply read in units of `10^-p`, with a sentinel where the
/// text is not a number or the number is beyond any physical quantity.
pub open spec fn scalar_or(line: Seq<char>, p: nat, sentinel: int) -> int {
    match spec_parse_scaled(spec_trim(line), p) {
        Some(v) => if crate::micro_bounded(v) {
            v
        } else {
            sentinel
        },
        None => sentinel,
    }
}

/// The analyzer reports its peak wavelength in meters; this reads it in
/// micro-nm, `WAVELENGTH_SENTINEL` where unusable.
pub fn peak_wavelength_micro_nm(line: &str) -> (r: i64)
    ensures
        r as int == scalar_or(line@, 15, WAVELENGTH_SENTINEL as int),
{
    let t = trim(line);
    match parse_scaled(t.as_str(), 15) {
        Some(v) => {
            if -1_000_000_000_000_000 <= v && v <= 1_000_000_000_000_000 {
                v
            } else {
                WAVELENGTH_SENTINEL
            }
        },
        None => WAVELENGTH_SENTINEL,
    }
}

/// A power reply in micro-dBm, `POWER_SENTINEL` where unusable.
pub fn power_micro_dbm_or_sentinel(line: &str) -> (r: i64)
    ensures
        r as int == scalar_or(line@, 6, POWER_SENTINEL as int),
{
    let t = trim(line);
    match parse_scaled(t.as_str(), 6) {
        Some(v) => {
            if -1_000_000_000_000_000 <= v && v <= 1_000_000_000_000_000 {
                v
            } else {
                POWER_SENTINEL
            }
        },
        None => POWER_SENTINEL,
    }
}

/// A trigger-and-confirm reply affirms completion when it trims to `1`.
pub open spec fn spec_sweep_confirmed(line: Seq<char>) -> bool {
    spec_trim(line) == "1"@
}

/// Decides `spec_sweep_confirmed`.
pub fn sweep_confirmed(line: &str) -> (r: bool)
    ensures
        r == spec_sweep_confirmed(line@),
{
    let t = trim(line);
    t.eq(&String::from_str("1"))
}

/// How many samples a trace holds, from the analyzer's reply to the
/// trace-length query.
pub open spec fn spec_trace_count(line: Seq<char>) -> int {
    match spec_parse_u64(spec_trim(line)) {
        Some(v) => if 2 <= v <= 1_000_000 {
            v
        } else {
            DEFAULT_TRACE_POINTS as int
        },
        None => DEFAULT_TRACE_POINTS as int,
    }
}

/// Reads the trace length, falling back to `DEFAULT_TRACE_POINTS` on an
/// unusable reply and on a count that no grid can be laid over.
pub fn trace_count(line: &str) -> (r: u64)
    ensures
        r as int == spec_trace_count(line@),
        2 <= r <= 1_000_000,
{
    let t = trim(line);
    match parse_u64_text(t.as_str()) {
        Some(v) => {
            if 2 <= v && v <= 1_000_000 {
                v
            } else {
                DEFAULT_TRACE_POINTS
            }
        },
        None => DEFAULT_TRACE_POINTS,
    }
}

/// The wavelength of grid slot `j`, the sweep's bounds divided evenly
/// over `n` slots: `start + round(j * (stop - start) / (n - 1))`.
pub open spec fn spec_grid_wavelength(start: int, stop: int, n: int, j: int) -> int {
    start + spec_round_div(j * (stop - start), n - 1)
}

/// Computes one grid wavelength and keeps it within the sweep bounds.
pub fn grid_wavelength(start: i64, stop: i64, n: u64, j: u64) -> (r: i64)
    requires
        2 <= n,
        j < n,
        start <= stop,
        crate::micro_bounded(start as int),
        crate::micro_bounded(stop as int),
    ensures
        r as int == spec_grid_wavelength(start as int, stop as int, n as int, j as int),
        start <= r <= stop,
{
    let delta: i64 = stop - start;
    proof {
        let jj = j as int;
        let dd = delta as int;
        assert(0 <= jj * dd <= 40_000_000_000_000_000_000_000_000_000_000_000)
            by (nonlinear_arith)
            requires 0 <= jj <= 20_000_000_000_000_000_000 && 0 <= dd
                <= 2_000_000_000_000_000;
    }
    let num: i128 = (j as i128) * (delta as i128);
    let q: i128 = (n as i128) - 1;
    let h: i128 = q / 2;
    let off: i128 = (num + h) / q;
    proof {
        let jj = j as int;
        let dd = delta as int;
        let qq = q as int;
        assert(num == jj * dd);
        assert(0 <= jj * dd) by (nonlinear_arith)
            requires jj >= 0 && dd >= 0;
        assert(jj * dd <= qq * dd) by (nonlinear_arith)
            requires 0 <= jj <= qq && dd >= 0;
        let hh = h as int;
        assert(0 <= hh < qq);
        vstd::arithmetic::div_mod::lemma_fundamental_div_mod_converse_div(
            qq * dd + hh, qq, dd, hh,
        );
        assert(dd * qq == qq * dd) by (nonlinear_arith);
        assert((qq * dd + hh) / qq == dd);
        vstd::arithmetic::div_mod::lemma_div_is_ordered(jj * dd + hh, qq * dd + hh, qq);
        assert(off <= dd);
        assert(off >= 0) by (nonlinear_arith)
            requires jj * dd + hh >= 0 && qq >= 1 && off == (jj * dd + hh) / qq;
        assert(spec_round_div(jj * dd, qq) == off);
    }
    start + (off as i64)
}

/// One reconstructed trace sample: a grid wavelength and the power the
/// analyzer reported for it, both in micro-units.
#[derive(Clone, Copy, Debug, PartialEq, Eq, Structural)]
pub struct TraceSample {
    pub wavelength: i64,
    pub power: i64,
}

/// The power of trace field `f`: its parsed value, or the sentinel for
/// text that is not a number or is beyond any physical power.
pub open spec fn sample_power(f: Seq<char>) -> int {
    match spec_parse_scaled(f, 6) {
        Some(v) => if crate::micro_bounded(v) {
            v
        } else {
            POWER_SENTINEL as int
        },
        None => POWER_SENTINEL as int,
    }
}

/// Lays the comma-separated samples of a trimmed trace reply over the
/// sweep's wavelength grid.  Only the first `n` fields are kept; a
/// malformed field becomes the power sentinel at its grid wavelength
/// and never stops the run.
pub fn parse_trace(line: &str, n: u64, start: i64, stop: i64) -> (r: Vec<TraceSample>)
    requires
        2 <= n <= 1_000_000,
        start <= stop,
        crate::micro_bounded(start as int),
        crate::micro_bounded(stop as int),
    ensures
        ({
            let fs = reply_fields(line@);
            r@.len() == vstd::math::min(n as int, fs.len() as int)
            && forall|j: int| 0 <= j < r@.len()
                ==> (#[trigger] r@[j]).wavelength as int
                        == spec_grid_wavelength(start as int, stop as int, n as int, j)
                    && start <= r@[j].wavelength <= stop
                    && r@[j].power as int == sample_power(fs[j])
        }),
{
    let t = trim(line);
    let fields = split_commas(t.as_str());
    let ghost fs = reply_fields(line@);
    proof {
        assert(fields@.map_values(|x: String| x@).len() == fields@.len());
    }
    let count: usize = if (fields.len() as u64) < n {
        fields.len()
    } else {
        n as usize
    };
    let mut out: Vec<TraceSample> = Vec::new();
    let mut j: usize = 0;
    while j < count
        invariant
            0 <= j <= count,
            count as int == vstd::math::min(n as int, fs.len() as int),
            fields@.map_values(|x: String| x@) == fs,
            count <= fields@.len(),
            2 <= n <= 1_000_000,
            j < n || j == count,
            start <= stop,
            crate::micro_bounded(start as int),
            crate::micro_bounded(stop as int),
            out@.len() == j,
            forall|i: int| 0 <= i < j
                ==> (#[trigger] out@[i]).wavelength as int
                        == spec_grid_wavelength(start as int, stop as int, n as int, i)
                    && start <= out@[i].wavelength <= stop
                    && out@[i].power as int == sample_power(fs[i]),
        decreases count - j,
    {
        let wl = grid_wavelength(start, stop, n, j as u64);
        proof {
            assert(fields@.map_values(|x: String| x@)[j as int] == fields@[j as int]@);
        }
        let pw = match parse_scaled(fields[j].as_str(), 6) {
            Some(v) => {
                if -1_000_000_000_000_000 <= v && v <= 1_000_000_000_000_000 {
                    v
                } else {
                    POWER_SENTINEL
                }
            },
            None => POWER_SENTINEL,
        };
        out.push(TraceSample { wavelength: wl, power: pw });
        j = j + 1;
    }
    out
}

} // verus!
