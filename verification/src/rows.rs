//! Result-file rows: fixed headers, fixed-precision data rows, and the
//! reading back of a summary row.

use vstd::prelude::*;

verus! {

use crate::micro_bounded;
use crate::num::{
    render_micro, spec_fixed, spec_to_scale, spec_parse_scaled, parse_scaled, pow10,
    lemma_parse_fixed, lemma_round_div_exact, lemma_fixed_chars, lemma_find_char2_is,
    lemma_pow10_increases, find_char2, is_digit,
};
use crate::reply::split_on;

/// Header of the single-measurement summary files.
pub fn power_header() -> (r: String)
    ensures
        r@ == "Wavelength (nm),Power (dBm)"@,
{
    String::from_str("Wavelength (nm),Power (dBm)")
}

/// Header of the peak-tracking summary file.
pub fn peak_header() -> (r: String)
    ensures
        r@ == "Laser Wavelength (nm),Peak Wavelength (nm),Peak Power (dBm)"@,
{
    String::from_str("Laser Wavelength (nm),Peak Wavelength (nm),Peak Power (dBm)")
}

/// A two-column row: the first value to `dw` fraction digits, a comma,
/// the second to `dp` fraction digits.
pub open spec fn spec_pair_row(w: int, p: int, dw: nat, dp: nat) -> Seq<char> {
    spec_fixed(spec_to_scale(w, dw), dw) + seq![','] + spec_fixed(spec_to_scale(p, dp), dp)
}

/// Renders a two-column row from micro-unit values.
pub fn render_pair_row(w: i64, p: i64, dw: u32, dp: u32) -> (r: String)
    requires
        dw <= 6,
        dp <= 6,
        micro_bounded(w as int),
        micro_bounded(p as int),
    ensures
        r@ == spec_pair_row(w as int, p as int, dw as nat, dp as nat),
{
    let mut s = render_micro(w, dw);
    proof {
        reveal_strlit(",");
    }
    s.append(",");
    let second = render_micro(p, dp);
    s.append(second.as_str());
    proof {
        assert(","@ =~= seq![',']);
        assert(s@ =~= spec_pair_row(w as int, p as int, dw as nat, dp as nat));
    }
    s
}

/// A three-column row: setpoint wavelength to two digits, peak
/// wavelength to four, peak power to two.
pub open spec fn spec_peak_row(w: int, pkw: int, pkp: int) -> Seq<char> {
    spec_fixed(spec_to_scale(w, 2), 2) + seq![','] + spec_fixed(spec_to_scale(pkw, 4), 4)
        + seq![','] + spec_fixed(spec_to_scale(pkp, 2), 2)
}

/// Renders a peak-tracking summary row from micro-unit values.
pub fn render_peak_row(w: i64, pkw: i64, pkp: i64) -> (r: String)
    requires
        micro_bounded(w as int),
        micro_bounded(pkw as int),
        micro_bounded(pkp as int),
    ensures
        r@ == spec_peak_row(w as int, pkw as int, pkp as int),
{
    let mut s = render_micro(w, 2);
    proof {
        reveal_strlit(",");
    }
    s.append(",");
    let second = render_micro(pkw, 4);
    s.append(second.as_str());
    s.append(",");
    let third = render_micro(pkp, 2);
    s.append(third.as_str());
    proof {
        assert(","@ =~= seq![',']);
        assert(s@ =~= spec_peak_row(w as int, pkw as int, pkp as int));
    }
    s
}

/// Reads a two-column summary row back into micro-unit values.
pub open spec fn spec_parse_pair_row(line: Seq<char>) -> Option<(int, int)> {
    let fs = split_on(line, ',');
    if fs.len() == 2 {
        match spec_parse_scaled(fs[0], 6) {
            Some(a) => match spec_parse_scaled(fs[1], 6) {
                Some(b) => Some((a, b)),
                None => None,
            },
            None => None,
        }
    } else {
        None
    }
}

/// Parses a summary row, exactly as `spec_parse_pair_row` describes.
pub fn parse_pair_row(line: &str) -> (r: Option<(i64, i64)>)
    ensures
        match r {
            Some(t) => spec_parse_pair_row(line@) == Some((t.0 as int, t.1 as int)),
            None => spec_parse_pair_row(line@) is None,
        },
{
    let fields = crate::reply::split_commas(line);
    proof {
        assert(fields@.map_values(|x: String| x@).len() == fields@.len());
    }
    if fields.len() != 2 {
        return None;
    }
    proof {
        assert(fields@.map_values(|x: String| x@)[0] == fields@[0]@);
        assert(fields@.map_values(|x: String| x@)[1] == fields@[1]@);
    }
    let a = match parse_scaled(fields[0].as_str(), 6) {
        Some(a) => a,
        None => {
            return None;
        },
    };
    let b = match parse_scaled(fields[1].as_str(), 6) {
        Some(b) => b,
        None => {
            return None;
        },
    };
    Some((a, b))
}

/// A value is representable at `d` fraction digits when it is a whole
/// multiple of the printed precision.
pub open spec fn representable(v: int, d: nat) -> bool {
    v % (pow10((6 - d) as nat) as int) == 0
}

/// Reading a written summary row reproduces the recorded pair: for any
/// micro-unit values within bounds that the row's precision represents
/// exactly, parsing the rendered row yields the values unchanged.
pub proof fn lemma_pair_row_round_trip(w: int, p: int, dw: nat, dp: nat)
    requires
        dw <= 6,
        dp <= 6,
        -1_000_000_000_000 <= w <= 1_000_000_000_000,
        -1_000_000_000_000 <= p <= 1_000_000_000_000,
        representable(w, dw),
        representable(p, dp),
    ensures
        spec_parse_pair_row(spec_pair_row(w, p, dw, dp)) == Some((w, p)),
{
    let qw = pow10((6 - dw) as nat) as int;
    let qp = pow10((6 - dp) as nat) as int;
    lemma_pow10_increases(0, (6 - dw) as nat);
    lemma_pow10_increases((6 - dw) as nat, 6);
    lemma_pow10_increases(0, (6 - dp) as nat);
    lemma_pow10_increases((6 - dp) as nat, 6);
    assert(pow10(6) == 1_000_000) by {
        reveal_with_fuel(pow10, 7);
    }
    let sw = spec_to_scale(w, dw);
    let sp = spec_to_scale(p, dp);
    lemma_round_div_exact(w, qw);
    lemma_round_div_exact(p, qp);
    // the rounded values stay within the bound the parser lemma needs
    assert(-1_000_000_000_000 <= sw <= 1_000_000_000_000) by (nonlinear_arith)
        requires sw * qw == w && 1 <= qw <= 1_000_000
            && -1_000_000_000_000 <= w <= 1_000_000_000_000;
    assert(-1_000_000_000_000 <= sp <= 1_000_000_000_000) by (nonlinear_arith)
        requires sp * qp == p && 1 <= qp <= 1_000_000
            && -1_000_000_000_000 <= p <= 1_000_000_000_000;
    let a = spec_fixed(sw, dw);
    let b = spec_fixed(sp, dp);
    let line = spec_pair_row(w, p, dw, dp);
    lemma_fixed_chars(sw, dw);
    lemma_fixed_chars(sp, dp);
    // the row splits at its one comma
    assert forall|j: int| 0 <= j < a.len() implies #[trigger] line[j] != ','
        && line[j] != ',' by {
        assert(line[j] == a[j]);
        assert(is_digit(a[j]) || a[j] == '-' || a[j] == '.');
    }
    assert(line[a.len() as int] == ',');
    lemma_find_char2_is(line, ',', ',', a.len() as int);
    assert(line.take(a.len() as int) =~= a);
    assert(line.skip(a.len() as int + 1) =~= b);
    assert forall|j: int| 0 <= j < b.len() implies #[trigger] b[j] != ','
        && b[j] != ',' by {
        assert(is_digit(b[j]) || b[j] == '-' || b[j] == '.');
    }
    lemma_find_char2_is(b, ',', ',', b.len() as int);
    let fs = split_on(line, ',');
    let cut = find_char2(line, ',', ',');
    assert(cut == a.len());
    assert(0 <= cut < line.len());
    assert(fs == seq![line.take(cut)] + split_on(line.skip(cut + 1), ','));
    assert(line.take(cut) == a);
    assert(line.skip(cut + 1) == b);
    assert(!(0 <= find_char2(b, ',', ',') < b.len()));
    assert(split_on(b, ',') == seq![b]);
    assert(fs =~~= seq![a, b]);
    // each field parses back to the exact micro value
    lemma_parse_fixed(sw, dw);
    lemma_parse_fixed(sp, dp);
    assert(spec_parse_scaled(a, 6) == Some(w));
    assert(spec_parse_scaled(b, 6) == Some(p));
}


/// No line break inside a row.
pub open spec fn no_newline(s: Seq<char>) -> bool {
    forall|i: int| 0 <= i < s.len() ==> s[i] != '\n'
}

/// The text of a file whose lines are `rows`, in order, separated by
/// line breaks.
pub open spec fn join_rows(rows: Seq<Seq<char>>) -> Seq<char>
    decreases rows.len(),
{
    if rows.len() == 0 {
        Seq::empty()
    } else if rows.len() == 1 {
        rows[0]
    } else {
        rows[0] + seq!['\n'] + join_rows(rows.drop_first())
    }
}

/// Splitting a joined file recovers exactly its lines.
pub proof fn lemma_split_join(rows: Seq<Seq<char>>)
    requires
        rows.len() >= 1,
        forall|i: int| 0 <= i < rows.len() ==> no_newline(#[trigger] rows[i]),
    ensures
        split_on(join_rows(rows), '\n') == rows,
    decreases rows.len(),
{
    let file = join_rows(rows);
    let a = rows[0];
    if rows.len() == 1 {
        lemma_find_char2_is(file, '\n', '\n', file.len() as int);
        assert(split_on(file, '\n') =~~= rows);
    } else {
        let rest = rows.drop_first();
        assert forall|j: int| 0 <= j < a.len() implies #[trigger] file[j] != '\n'
            && file[j] != '\n' by {
            assert(file[j] == a[j]);
        }
        assert(file[a.len() as int] == '\n');
        lemma_find_char2_is(file, '\n', '\n', a.len() as int);
        let cut = find_char2(file, '\n', '\n');
        assert(cut == a.len());
        assert(0 <= cut < file.len());
        assert(split_on(file, '\n')
            == seq![file.take(cut)] + split_on(file.skip(cut + 1), '\n'));
        assert(file.take(cut) =~= a);
        assert(file.skip(cut + 1) =~= join_rows(rest));
        assert(forall|i: int| 0 <= i < rest.len() ==> no_newline(#[trigger] rest[i]));
        lemma_split_join(rest);
        assert(split_on(file, '\n') =~~= rows);
    }
}

/// Every character of a two-column row is a digit, a sign, a point or
/// the comma; in particular no line break.
pub proof fn lemma_pair_row_no_newline(w: int, p: int, dw: nat, dp: nat)
    ensures
        no_newline(spec_pair_row(w, p, dw, dp)),
{
    let a = spec_fixed(spec_to_scale(w, dw), dw);
    let b = spec_fixed(spec_to_scale(p, dp), dp);
    let line = spec_pair_row(w, p, dw, dp);
    lemma_fixed_chars(spec_to_scale(w, dw), dw);
    lemma_fixed_chars(spec_to_scale(p, dp), dp);
    assert forall|i: int| 0 <= i < line.len() implies line[i] != '\n' by {
        if i < a.len() {
            assert(line[i] == a[i]);
            assert(is_digit(a[i]) || a[i] == '-' || a[i] == '.');
        } else if i > a.len() {
            assert(line[i] == b[i - a.len() - 1]);
            assert(is_digit(b[i - a.len() - 1]) || b[i - a.len() - 1] == '-'
                || b[i - a.len() - 1] == '.');
        }
    }
}

/// Writing a summary and reading it back reproduces the same ordered
/// sequence of recorded pairs: the file text joined of the rows, split
/// back into lines, parses line by line to exactly the pairs, in order.
pub proof fn lemma_summary_round_trip(pairs: Seq<(int, int)>, dw: nat, dp: nat)
    requires
        dw <= 6,
        dp <= 6,
        pairs.len() >= 1,
        forall|i: int| 0 <= i < pairs.len()
            ==> -1_000_000_000_000 <= (#[trigger] pairs[i]).0 <= 1_000_000_000_000
                && -1_000_000_000_000 <= pairs[i].1 <= 1_000_000_000_000
                && representable(pairs[i].0, dw) && representable(pairs[i].1, dp),
    ensures
        ({
            let rows = pairs.map_values(|pr: (int, int)| spec_pair_row(pr.0, pr.1, dw, dp));
            let lines = split_on(join_rows(rows), '\n');
            lines.len() == pairs.len()
                && forall|i: int| 0 <= i < pairs.len()
                    ==> spec_parse_pair_row(#[trigger] lines[i]) == Some(pairs[i])
        }),
{
    let rows = pairs.map_values(|pr: (int, int)| spec_pair_row(pr.0, pr.1, dw, dp));
    assert(rows.len() == pairs.len());
    assert forall|i: int| 0 <= i < rows.len() implies no_newline(#[trigger] rows[i]) by {
        lemma_pair_row_no_newline(pairs[i].0, pairs[i].1, dw, dp);
    }
    lemma_split_join(rows);
    assert forall|i: int| 0 <= i < pairs.len() implies
        spec_parse_pair_row(#[trigger] split_on(join_rows(rows), '\n')[i])
            == Some(pairs[i]) by {
        lemma_pair_row_round_trip(pairs[i].0, pairs[i].1, dw, dp);
        assert(split_on(join_rows(rows), '\n')[i] == rows[i]);
    }
}

} // verus!
