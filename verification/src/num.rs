//! Fixed-point decimal numbers.
//!
//! Every physical quantity (wavelength in nm, power in dBm, current in mA)
//! is carried as a signed count of millionths of its unit.  This module
//! renders such values as plain decimal text with a chosen number of
//! fraction digits, and parses decimal text (with an optional exponent,
//! as instruments emit it) back into micro-units.

use vstd::prelude::*;

verus! {

/// Ten to the `k`-th power.
pub open spec fn pow10(k: nat) -> nat
    decreases k,
{
    if k == 0 {
        1
    } else {
        10 * pow10((k - 1) as nat)
    }
}

/// Equal factors give equal products (stated so that the solver may use
/// it where it does not rewrite under a multiplication on its own).
pub proof fn lemma_mul_subst(a1: int, a2: int, b1: int, b2: int)
    requires
        a1 == a2,
        b1 == b2,
    ensures
        a1 * b1 == a2 * b2,
{
    assert(a1 * b1 == a2 * b2) by (nonlinear_arith)
        requires a1 == a2 && b1 == b2;
}

pub proof fn lemma_pow10_pos(k: nat)
    ensures
        pow10(k) >= 1,
    decreases k,
{
    if k > 0 {
        lemma_pow10_pos((k - 1) as nat);
    }
}

pub proof fn lemma_pow10_increases(a: nat, b: nat)
    requires
        a <= b,
    ensures
        pow10(a) <= pow10(b),
        pow10(a) >= 1,
    decreases b,
{
    lemma_pow10_pos(a);
    if a < b {
        lemma_pow10_increases(a, (b - 1) as nat);
    }
}

pub proof fn lemma_pow10_adds(a: nat, b: nat)
    ensures
        pow10(a + b) as int == pow10(a) as int * (pow10(b) as int),
    decreases a,
{
    if a == 0 {
        lemma_mul_subst(pow10(a) as int, 1, pow10(b) as int, pow10(b) as int);
    } else {
        lemma_pow10_adds((a - 1) as nat, b);
        let x = pow10((a - 1) as nat) as int;
        let y = pow10(b) as int;
        assert(pow10(a) as int == 10 * x);
        assert(x * y == pow10((a - 1 + b) as nat) as int);
        lemma_mul_subst(pow10(a) as int, 10 * x, pow10(b) as int, y);
        assert((10 * x) * y == 10 * (x * y)) by (nonlinear_arith);
        assert(a + b >= 1);
        assert(pow10(a + b) as int == 10 * (pow10((a + b - 1) as nat) as int));
        assert((a + b - 1) as nat == (a - 1 + b) as nat);
    }
}

/// Exec mirror of `pow10` for exponents that fit in `u64`.
pub fn pow10_u64(k: u32) -> (r: u64)
    requires
        k <= 18,
    ensures
        r as nat == pow10(k as nat),
        r >= 1,
{
    let mut r: u64 = 1;
    let mut i: u32 = 0;
    while i < k
        invariant
            i <= k <= 18,
            r as nat == pow10(i as nat),
            r >= 1,
        decreases k - i,
    {
        proof {
            lemma_pow10_increases(i as nat + 1, 18);
            assert(pow10(18) == 1_000_000_000_000_000_000) by {
                reveal_with_fuel(pow10, 19);
            }
        }
        r = r * 10;
        i = i + 1;
    }
    r
}

/// The decimal digit characters.
pub open spec fn is_digit(c: char) -> bool {
    '0' <= c && c <= '9'
}

/// The value of a digit character.
pub open spec fn digit_val(c: char) -> int {
    c as int - 48
}

/// The character of a digit value.
pub open spec fn digit_char(d: int) -> char {
    if d == 0 {
        '0'
    } else if d == 1 {
        '1'
    } else if d == 2 {
        '2'
    } else if d == 3 {
        '3'
    } else if d == 4 {
        '4'
    } else if d == 5 {
        '5'
    } else if d == 6 {
        '6'
    } else if d == 7 {
        '7'
    } else if d == 8 {
        '8'
    } else {
        '9'
    }
}

/// The shortest decimal form of a natural number, most significant first.
pub open spec fn spec_digits(n: nat) -> Seq<char>
    decreases n,
{
    if n < 10 {
        seq![digit_char(n as int)]
    } else {
        spec_digits(n / 10) + seq![digit_char((n % 10) as int)]
    }
}

/// The last `w` decimal digits of `n`, zero-padded to exactly `w` characters.
pub open spec fn spec_padded(n: nat, w: nat) -> Seq<char>
    decreases w,
{
    if w == 0 {
        Seq::empty()
    } else {
        spec_padded(n / 10, (w - 1) as nat) + seq![digit_char((n % 10) as int)]
    }
}

/// A value `v` counted in units of `10^-d`, written with exactly `d`
/// fraction digits: optional minus sign, integer part, and for `d > 0`
/// a point followed by the zero-padded fraction.
pub open spec fn spec_fixed(v: int, d: nat) -> Seq<char> {
    let m = (if v < 0 { -v } else { v }) as nat;
    (if v < 0 { seq!['-'] } else { Seq::<char>::empty() })
    + spec_digits(m / pow10(d))
    + (if d == 0 { Seq::<char>::empty() } else { seq!['.'] + spec_padded(m % pow10(d), d) })
}

fn digit_str(d: u64) -> (s: &'static str)
    requires
        d < 10,
    ensures
        s@ == seq![digit_char(d as int)],
{
    if d == 0 { proof { reveal_strlit("0"); } assert("0"@ =~= seq![digit_char(0)]); "0" }
    else if d == 1 { proof { reveal_strlit("1"); } assert("1"@ =~= seq![digit_char(1)]); "1" }
    else if d == 2 { proof { reveal_strlit("2"); } assert("2"@ =~= seq![digit_char(2)]); "2" }
    else if d == 3 { proof { reveal_strlit("3"); } assert("3"@ =~= seq![digit_char(3)]); "3" }
    else if d == 4 { proof { reveal_strlit("4"); } assert("4"@ =~= seq![digit_char(4)]); "4" }
    else if d == 5 { proof { reveal_strlit("5"); } assert("5"@ =~= seq![digit_char(5)]); "5" }
    else if d == 6 { proof { reveal_strlit("6"); } assert("6"@ =~= seq![digit_char(6)]); "6" }
    else if d == 7 { proof { reveal_strlit("7"); } assert("7"@ =~= seq![digit_char(7)]); "7" }
    else if d == 8 { proof { reveal_strlit("8"); } assert("8"@ =~= seq![digit_char(8)]); "8" }
    else { proof { reveal_strlit("9"); } assert("9"@ =~= seq![digit_char(9)]); "9" }
}

fn push_digits(out: &mut String, n: u64)
    ensures
        final(out)@ == old(out)@ + spec_digits(n as nat),
    decreases n,
{
    if n < 10 {
        out.append(digit_str(n));
    } else {
        push_digits(out, n / 10);
        out.append(digit_str(n % 10));
        proof {
            assert(final(out)@ =~= old(out)@ + spec_digits(n as nat));
        }
    }
}

fn push_padded(out: &mut String, n: u64, w: u32)
    ensures
        final(out)@ == old(out)@ + spec_padded(n as nat, w as nat),
    decreases w,
{
    if w == 0 {
        proof {
            assert(final(out)@ =~= old(out)@ + spec_padded(n as nat, 0));
        }
    } else {
        push_padded(out, n / 10, w - 1);
        out.append(digit_str(n % 10));
        proof {
            assert(final(out)@ =~= old(out)@ + spec_padded(n as nat, w as nat));
        }
    }
}

/// Renders a plain unsigned number.
pub fn render_u64(n: u64) -> (s: String)
    ensures
        s@ == spec_digits(n as nat),
{
    let mut s = String::new();
    push_digits(&mut s, n);
    proof {
        assert(s@ =~= spec_digits(n as nat));
    }
    s
}

/// Renders `v`, counted in units of `10^-d`, with exactly `d` fraction
/// digits.
pub fn render_fixed(v: i64, d: u32) -> (s: String)
    requires
        d <= 6,
        -0x7fff_ffff_ffff_ffff <= v,
    ensures
        s@ == spec_fixed(v as int, d as nat),
{
    let mut s = String::new();
    if v < 0 {
        proof { reveal_strlit("-"); }
        s.append("-");
        proof { assert(s@ =~= seq!['-']); }
    }
    let m: u64 = if v < 0 { (-v) as u64 } else { v as u64 };
    let p: u64 = pow10_u64(d);
    push_digits(&mut s, m / p);
    if d > 0 {
        proof { reveal_strlit("."); }
        let ghost before = s@;
        s.append(".");
        proof { assert(s@ =~= before + seq!['.']); }
        push_padded(&mut s, m % p, d);
    }
    proof {
        assert(s@ =~= spec_fixed(v as int, d as nat));
    }
    s
}

/// All characters of `s` are decimal digits.
pub open spec fn all_digits(s: Seq<char>) -> bool {
    forall|i: int| 0 <= i < s.len() ==> is_digit(#[trigger] s[i])
}

/// The value of a digit string, most significant first.
pub open spec fn digits_val(s: Seq<char>) -> int
    decreases s.len(),
{
    if s.len() == 0 {
        0
    } else {
        digits_val(s.drop_last()) * 10 + digit_val(s.last())
    }
}

/// Index of the first occurrence of `a` or `b` in `s`, or `s.len()`.
pub open spec fn find_char2(s: Seq<char>, a: char, b: char) -> int
    decreases s.len(),
{
    if s.len() == 0 {
        0
    } else if s[0] == a || s[0] == b {
        0
    } else {
        1 + find_char2(s.drop_first(), a, b)
    }
}

/// The first position at which `a` or `b` stands (with none before it)
/// is what `find_char2` returns.
pub proof fn lemma_find_char2_is(s: Seq<char>, a: char, b: char, k: int)
    requires
        0 <= k <= s.len(),
        forall|j: int| 0 <= j < k ==> #[trigger] s[j] != a && s[j] != b,
        k == s.len() || s[k] == a || s[k] == b,
    ensures
        find_char2(s, a, b) == k,
    decreases s.len(),
{
    if s.len() > 0 && !(s[0] == a || s[0] == b) {
        let t = s.drop_first();
        assert(forall|j: int| 0 <= j < k - 1 ==> #[trigger] t[j] != a && t[j] != b);
        lemma_find_char2_is(t, a, b, k - 1);
    }
}

pub proof fn lemma_digits_val_nonneg(s: Seq<char>)
    requires
        all_digits(s),
    ensures
        digits_val(s) >= 0,
    decreases s.len(),
{
    if s.len() > 0 {
        assert(all_digits(s.drop_last()));
        lemma_digits_val_nonneg(s.drop_last());
        assert(is_digit(s.last()));
    }
}

/// The value of a concatenation of digit strings.
pub proof fn lemma_digits_val_append(a: Seq<char>, b: Seq<char>)
    ensures
        digits_val(a + b) == digits_val(a) * (pow10(b.len()) as int) + digits_val(b),
    decreases b.len(),
{
    if b.len() == 0 {
        assert(a + b =~= a);
        assert(pow10(0) == 1);
    } else {
        let bp = b.drop_last();
        assert((a + b).drop_last() =~= a + bp);
        assert((a + b).last() == b.last());
        lemma_digits_val_append(a, bp);
        let va = digits_val(a);
        let p = pow10(bp.len()) as int;
        assert(pow10(b.len()) as int == 10 * p);
        assert((va * p) * 10 == va * (10 * p)) by (nonlinear_arith);
    }
}

/// One digit extends the value tenfold.
pub proof fn lemma_digits_val_step(s: Seq<char>, k: int)
    requires
        0 <= k < s.len(),
    ensures
        digits_val(s.take(k + 1)) == digits_val(s.take(k)) * 10 + digit_val(s[k]),
{
    let t = s.take(k + 1);
    assert(t.drop_last() =~= s.take(k));
    assert(t.last() == s[k]);
}

/// Largest mantissa the parser accepts.
pub const MANT_CAP: u64 = 100_000_000_000_000_000;

/// Leading sign of a textual number: the flag says whether it is minus,
/// the sequence is what follows.
pub open spec fn sign_split(s: Seq<char>) -> (bool, Seq<char>) {
    if s.len() > 0 && s[0] == '-' {
        (true, s.drop_first())
    } else if s.len() > 0 && s[0] == '+' {
        (false, s.drop_first())
    } else {
        (false, s)
    }
}

/// Index of the exponent marker in a textual number, or its length.
pub open spec fn num_ep(s: Seq<char>) -> int {
    find_char2(s, 'e', 'E')
}

/// Whether the mantissa carries a minus sign.
pub open spec fn num_neg(s: Seq<char>) -> bool {
    sign_split(s.take(num_ep(s))).0
}

/// The mantissa with its sign stripped.
pub open spec fn num_mrest(s: Seq<char>) -> Seq<char> {
    sign_split(s.take(num_ep(s))).1
}

/// The digits before the decimal point.
pub open spec fn num_ip(s: Seq<char>) -> Seq<char> {
    let m = num_mrest(s);
    m.take(find_char2(m, '.', '.'))
}

/// The digits after the decimal point.
pub open spec fn num_fp(s: Seq<char>) -> Seq<char> {
    let m = num_mrest(s);
    let dp = find_char2(m, '.', '.');
    if dp < m.len() {
        m.skip(dp + 1)
    } else {
        Seq::<char>::empty()
    }
}

/// Whether an exponent marker is present.
pub open spec fn num_has_exp(s: Seq<char>) -> bool {
    num_ep(s) < s.len()
}

/// Whether the exponent carries a minus sign.
pub open spec fn num_eneg(s: Seq<char>) -> bool {
    sign_split(s.skip(num_ep(s) + 1)).0
}

/// The exponent's digits.
pub open spec fn num_edig(s: Seq<char>) -> Seq<char> {
    sign_split(s.skip(num_ep(s) + 1)).1
}

/// The mantissa is sign, digits, and at most one point, with at least
/// one digit.
pub open spec fn mant_ok(s: Seq<char>) -> bool {
    all_digits(num_ip(s)) && all_digits(num_fp(s)) && num_ip(s).len() + num_fp(s).len() >= 1
}

/// The exponent, if marked, is a sign and at least one digit.
pub open spec fn exp_ok(s: Seq<char>) -> bool {
    !num_has_exp(s) || (all_digits(num_edig(s)) && num_edig(s).len() >= 1)
}

/// The mantissa's digits as one integer.
pub open spec fn num_m(s: Seq<char>) -> int {
    digits_val(num_ip(s) + num_fp(s))
}

/// The signed exponent value.
pub open spec fn num_e(s: Seq<char>) -> int {
    if !num_has_exp(s) {
        0
    } else if num_eneg(s) {
        -digits_val(num_edig(s))
    } else {
        digits_val(num_edig(s))
    }
}

/// Parses decimal text of the shape `[+-]digits[.digits][eE[+-]digits]`
/// into units of `10^-p`, truncating toward zero.  `None` on any other
/// shape, on a mantissa above `MANT_CAP`, on an exponent beyond four
/// digits of magnitude, and on a result that does not fit in `i64`.
pub open spec fn spec_parse_scaled(s: Seq<char>, p: nat) -> Option<int> {
    if !(mant_ok(s) && exp_ok(s)) {
        None
    } else if num_m(s) > MANT_CAP || num_e(s) < -9999 || num_e(s) > 9999 {
        None
    } else {
        let ex = num_e(s) + p - num_fp(s).len();
        let mag = if ex >= 0 {
            num_m(s) * (pow10(ex as nat) as int)
        } else {
            num_m(s) / (pow10((-ex) as nat) as int)
        };
        if mag > i64::MAX {
            None
        } else {
            Some(if num_neg(s) { -mag } else { mag })
        }
    }
}

/// Parses plain unsigned decimal text (optionally `+`-signed), `None`
/// beyond `MANT_CAP`.
pub open spec fn spec_parse_u64(s: Seq<char>) -> Option<int> {
    let d = if s.len() > 0 && s[0] == '+' { s.drop_first() } else { s };
    if all_digits(d) && d.len() >= 1 && digits_val(d) <= MANT_CAP {
        Some(digits_val(d))
    } else {
        None
    }
}

/// Folds the digit characters of `s[from..to]` into a value, most
/// significant first, refusing a non-digit and any value above `cap`.
fn accum_digits(s: &str, from: usize, to: usize, cap: u64) -> (r: Option<u64>)
    requires
        from <= to <= s@.len(),
        cap <= MANT_CAP,
    ensures
        ({
            let sub = s@.subrange(from as int, to as int);
            match r {
                Some(v) => all_digits(sub) && v as int == digits_val(sub) && v <= cap,
                None => !all_digits(sub) || digits_val(sub) > cap,
            }
        }),
{
    let ghost sub = s@.subrange(from as int, to as int);
    let mut acc: u64 = 0;
    let mut k: usize = from;
    proof {
        assert(sub.take(0) =~= Seq::<char>::empty());
    }
    while k < to
        invariant
            from <= k <= to <= s@.len(),
            cap <= MANT_CAP,
            acc <= cap,
            sub == s@.subrange(from as int, to as int),
            all_digits(sub.take(k - from)),
            acc as int == digits_val(sub.take(k - from)),
        decreases to - k,
    {
        let c = s.get_char(k);
        proof {
            assert(sub[k - from] == s@[k as int]);
        }
        if !('0' <= c && c <= '9') {
            proof {
                assert(!is_digit(sub[k - from]));
                assert(!all_digits(sub));
            }
            return None;
        }
        let d: u64 = (c as u32 as u64) - 48;
        proof {
            lemma_digits_val_step(sub, k - from);
        }
        acc = acc * 10 + d;
        k = k + 1;
        if acc > cap {
            proof {
                // The digits already read force the whole region's value
                // above the cap, whatever follows.
                if all_digits(sub) {
                    let head = sub.take(k - from);
                    let rest = sub.skip(k - from);
                    assert(head + rest =~= sub);
                    lemma_digits_val_append(head, rest);
                    assert(all_digits(rest));
                    lemma_digits_val_nonneg(rest);
                    lemma_pow10_pos(rest.len());
                    let vt = digits_val(head);
                    let pr = pow10(rest.len()) as int;
                    assert(vt * pr >= vt * 1) by (nonlinear_arith)
                        requires vt >= 0 && pr >= 1;
                    assert(digits_val(sub) > cap);
                }
            }
            return None;
        }
    }
    proof {
        assert(sub.take(to - from) =~= sub);
    }
    Some(acc)
}

pub proof fn lemma_digits_len(n: nat)
    ensures
        spec_digits(n).len() >= 1,
    decreases n,
{
    if n >= 10 {
        lemma_digits_len(n / 10);
    }
}

pub proof fn lemma_padded_len(n: nat, w: nat)
    ensures
        spec_padded(n, w).len() == w,
    decreases w,
{
    if w > 0 {
        lemma_padded_len(n / 10, (w - 1) as nat);
    }
}

pub proof fn lemma_digit_char_is_digit(d: int)
    requires
        0 <= d <= 9,
    ensures
        is_digit(digit_char(d)),
        digit_val(digit_char(d)) == d,
{
}

pub proof fn lemma_digits_are_digits(n: nat)
    ensures
        all_digits(spec_digits(n)),
    decreases n,
{
    if n < 10 {
        lemma_digit_char_is_digit(n as int);
    } else {
        lemma_digits_are_digits(n / 10);
        lemma_digit_char_is_digit((n % 10) as int);
        assert forall|i: int| 0 <= i < spec_digits(n).len() implies
            is_digit(#[trigger] spec_digits(n)[i]) by {
            if i < spec_digits(n / 10).len() {
                assert(spec_digits(n)[i] == spec_digits(n / 10)[i]);
            }
        }
    }
}

pub proof fn lemma_padded_are_digits(n: nat, w: nat)
    ensures
        all_digits(spec_padded(n, w)),
    decreases w,
{
    if w > 0 {
        lemma_padded_are_digits(n / 10, (w - 1) as nat);
        lemma_digit_char_is_digit((n % 10) as int);
        assert forall|i: int| 0 <= i < spec_padded(n, w).len() implies
            is_digit(#[trigger] spec_padded(n, w)[i]) by {
            if i < spec_padded(n / 10, (w - 1) as nat).len() {
                assert(spec_padded(n, w)[i] == spec_padded(n / 10, (w - 1) as nat)[i]);
            }
        }
    }
}

pub proof fn lemma_digits_value(n: nat)
    ensures
        digits_val(spec_digits(n)) == n,
    decreases n,
{
    if n < 10 {
        lemma_digit_char_is_digit(n as int);
        let s = spec_digits(n);
        assert(s.drop_last() =~= Seq::<char>::empty());
        assert(digits_val(Seq::<char>::empty()) == 0);
        assert(digits_val(s) == digits_val(s.drop_last()) * 10 + digit_val(s.last()));
    } else {
        lemma_digits_value(n / 10);
        lemma_digit_char_is_digit((n % 10) as int);
        let s = spec_digits(n);
        assert(s.drop_last() =~= spec_digits(n / 10));
        assert(s.last() == digit_char((n % 10) as int));
        vstd::arithmetic::div_mod::lemma_fundamental_div_mod(n as int, 10);
    }
}

pub proof fn lemma_padded_value(n: nat, w: nat)
    ensures
        digits_val(spec_padded(n, w)) == n % pow10(w),
    decreases w,
{
    lemma_pow10_pos(w);
    if w == 0 {
        assert(n % 1 == 0) by (nonlinear_arith);
    } else {
        lemma_padded_value(n / 10, (w - 1) as nat);
        lemma_digit_char_is_digit((n % 10) as int);
        let s = spec_padded(n, w);
        assert(s.drop_last() =~= spec_padded(n / 10, (w - 1) as nat));
        assert(s.last() == digit_char((n % 10) as int));
        lemma_pow10_pos((w - 1) as nat);
        let pp = pow10((w - 1) as nat) as int;
        assert((n as int) % (10 * pp) == ((n as int) / 10 % pp) * 10 + (n as int) % 10)
            by (nonlinear_arith)
            requires pp >= 1;
        assert(pow10(w) as int == 10 * pp);
    }
}

/// Every character of a rendered fixed-point number is a digit, the
/// minus sign or the decimal point.
pub proof fn lemma_fixed_chars(v: int, d: nat)
    ensures
        forall|i: int| 0 <= i < spec_fixed(v, d).len()
            ==> is_digit(#[trigger] spec_fixed(v, d)[i]) || spec_fixed(v, d)[i] == '-'
                || spec_fixed(v, d)[i] == '.',
{
    let m = (if v < 0 { -v } else { v }) as nat;
    lemma_digits_are_digits(m / pow10(d));
    lemma_padded_are_digits(m % pow10(d), d);
    let s = spec_fixed(v, d);
    let ds = spec_digits(m / pow10(d));
    let ps = spec_padded(m % pow10(d), d);
    assert forall|i: int| 0 <= i < s.len() implies
        is_digit(#[trigger] s[i]) || s[i] == '-' || s[i] == '.' by {
        let off = if v < 0 { 1int } else { 0int };
        if i < off {
        } else if i < off + ds.len() {
            assert(s[i] == ds[i - off]);
        } else if d > 0 && i > off + ds.len() {
            assert(s[i] == ps[i - off - ds.len() - 1]);
        }
    }
}

/// Parsing a rendered fixed-point number gives back its value, shifted
/// to six fraction digits.
pub proof fn lemma_parse_fixed(v: int, d: nat)
    requires
        d <= 6,
        -1_000_000_000_000 <= v <= 1_000_000_000_000,
    ensures
        spec_parse_scaled(spec_fixed(v, d), 6)
            == Some(v * (pow10((6 - d) as nat) as int)),
{
    let s = spec_fixed(v, d);
    let m = (if v < 0 { -v } else { v }) as nat;
    let q = m / pow10(d);
    let r = m % pow10(d);
    let ds = spec_digits(q);
    let ps = spec_padded(r, d);
    let off = if v < 0 { 1int } else { 0int };
    lemma_pow10_pos(d);
    lemma_digits_len(q);
    lemma_padded_len(r, d);
    lemma_digits_are_digits(q);
    lemma_padded_are_digits(r, d);
    lemma_digits_value(q);
    lemma_padded_value(r, d);
    lemma_fixed_chars(v, d);
    // no exponent marker anywhere
    assert forall|j: int| 0 <= j < s.len() implies #[trigger] s[j] != 'e' && s[j] != 'E' by {
        assert(is_digit(s[j]) || s[j] == '-' || s[j] == '.');
    }
    lemma_find_char2_is(s, 'e', 'E', s.len() as int);
    assert(num_ep(s) == s.len());
    assert(!num_has_exp(s));
    let mpart = s.take(num_ep(s));
    assert(mpart =~= s);
    // the sign
    assert(s.len() > 0) by {
        assert(ds.len() >= 1);
    }
    if v < 0 {
        assert(s[0] == '-');
    } else {
        assert(s[0] == ds[0]);
        assert(is_digit(s[0]));
    }
    let mrest = num_mrest(s);
    assert(mrest =~= ds + (if d == 0 { Seq::<char>::empty() } else {
        seq!['.'] + ps
    }));
    // the decimal point
    assert forall|j: int| 0 <= j < ds.len() implies #[trigger] mrest[j] != '.'
        && mrest[j] != '.' by {
        assert(mrest[j] == ds[j]);
        assert(is_digit(ds[j]));
    }
    if d == 0 {
        lemma_find_char2_is(mrest, '.', '.', ds.len() as int);
    } else {
        assert(mrest[ds.len() as int] == '.');
        lemma_find_char2_is(mrest, '.', '.', ds.len() as int);
    }
    let dp = find_char2(mrest, '.', '.');
    assert(dp == ds.len());
    assert(num_ip(s) =~= ds);
    if d == 0 {
        assert(num_fp(s) =~= Seq::<char>::empty());
    } else {
        assert(num_fp(s) =~= ps);
    }
    assert(mant_ok(s));
    assert(exp_ok(s));
    assert(num_e(s) == 0);
    // the mantissa value is m
    lemma_digits_val_append(num_ip(s), num_fp(s));
    assert(pow10(num_fp(s).len()) == pow10(d)) by {
        if d == 0 {
            assert(num_fp(s).len() == 0);
        }
    }
    let pd = pow10(d) as int;
    assert(digits_val(num_fp(s)) == r as int) by {
        if d == 0 {
            lemma_small_is_mod(m, d);
            assert(digits_val(Seq::<char>::empty()) == 0);
        } else {
            assert(0 <= (m as int) % pd < pd) by (nonlinear_arith)
                requires pd >= 1;
            vstd::arithmetic::div_mod::lemma_small_mod(r, pow10(d));
        }
    }
    assert(num_m(s) == q * pd + r) by {
        lemma_mul_subst(digits_val(num_ip(s)), q as int, pow10(num_fp(s).len()) as int, pd);
    }
    vstd::arithmetic::div_mod::lemma_fundamental_div_mod(m as int, pd);
    assert(pd * ((m as int) / pd) == ((m as int) / pd) * pd) by (nonlinear_arith);
    assert(num_m(s) == m);
    // the bounds
    assert(m <= 1_000_000_000_000);
    // the scaled magnitude
    let ex = 0 + 6 - num_fp(s).len();
    assert(ex == 6 - d);
    let pe = pow10((6 - d) as nat) as int;
    assert(pe <= 1_000_000) by {
        lemma_pow10_increases((6 - d) as nat, 6);
        assert(pow10(6) == 1_000_000) by {
            reveal_with_fuel(pow10, 7);
        }
    }
    let mag = num_m(s) * pe;
    assert(mag <= 1_000_000_000_000_000_000) by (nonlinear_arith)
        requires 0 <= num_m(s) <= 1_000_000_000_000 && 0 <= pe <= 1_000_000
            && mag == num_m(s) * pe;
    if v < 0 {
        assert(num_neg(s));
        assert(-mag == v * pe) by (nonlinear_arith)
            requires mag == (-v) * pe;
    } else {
        assert(!num_neg(s));
        assert(mag == v * pe);
    }
}

/// A value below the modulus is its own remainder.
pub proof fn lemma_small_is_mod(m: nat, d: nat)
    requires
        d == 0,
    ensures
        m % pow10(d) == 0,
{
    assert(m % 1 == 0) by (nonlinear_arith);
}

/// Rounding to a multiple of `q` is exact on multiples of `q`.
pub proof fn lemma_round_div_exact(v: int, q: int)
    requires
        q >= 1,
        v % q == 0,
    ensures
        spec_round_div(v, q) * q == v,
{
    let h = q / 2;
    assert(0 <= h < q);
    vstd::arithmetic::div_mod::lemma_fundamental_div_mod(v, q);
    let k = v / q;
    assert(v == q * k);
    assert(q * k == k * q) by (nonlinear_arith);
    if v >= 0 {
        vstd::arithmetic::div_mod::lemma_fundamental_div_mod_converse_div(v + h, q, k, h);
        assert((v + h) / q == k);
        assert(spec_round_div(v, q) * q == k * q);
    } else {
        assert(-v == (-k) * q + 0) by (nonlinear_arith)
            requires v == k * q;
        vstd::arithmetic::div_mod::lemma_fundamental_div_mod_converse_div(-v + h, q, -k, h);
        assert((-v + h) / q == -k);
        assert(spec_round_div(v, q) == -(-k));
        assert(spec_round_div(v, q) * q == k * q) by (nonlinear_arith)
            requires spec_round_div(v, q) == k;
    }
}

/// First index in `[from, to)` at which `a` or `b` stands, else `to`.
pub(crate) fn scan2(s: &str, n: usize, from: usize, to: usize, a: char, b: char) -> (k: usize)
    requires
        n == s@.len(),
        from <= to <= n,
    ensures
        from <= k <= to,
        forall|j: int| from <= j < k ==> #[trigger] s@[j] != a && s@[j] != b,
        k == to || s@[k as int] == a || s@[k as int] == b,
{
    let mut k: usize = from;
    let mut stop: bool = false;
    while !stop
        invariant
            from <= k <= to <= n == s@.len(),
            forall|j: int| from <= j < k ==> #[trigger] s@[j] != a && s@[j] != b,
            stop ==> k == to || s@[k as int] == a || s@[k as int] == b,
        decreases to - k + (if stop { 0int } else { 1int }),
    {
        if k == to {
            stop = true;
        } else {
            let c = s.get_char(k);
            if c == a || c == b {
                stop = true;
            } else {
                k = k + 1;
            }
        }
    }
    k
}

/// Reads the mantissa: its sign, its digits' value and the count of
/// fraction digits.
fn parse_mantissa(s: &str, n: usize, ep: usize) -> (r: Option<(bool, u64, usize)>)
    requires
        n == s@.len(),
        ep <= n,
        ep as int == num_ep(s@),
    ensures
        match r {
            Some(t) => mant_ok(s@) && t.0 == num_neg(s@) && t.1 as int == num_m(s@)
                && t.1 <= MANT_CAP && t.2 as int == num_fp(s@).len(),
            None => !mant_ok(s@) || num_m(s@) > MANT_CAP,
        },
{
    let ghost mpart = s@.take(ep as int);
    let mut neg: bool = false;
    let mut ms: usize = 0;
    if ep > 0 {
        let c0 = s.get_char(0);
        if c0 == '-' {
            neg = true;
            ms = 1;
        } else if c0 == '+' {
            ms = 1;
        }
    }
    proof {
        assert(mpart.len() == ep);
        if ep > 0 {
            assert(mpart[0] == s@[0]);
        }
        assert(num_neg(s@) == neg);
        assert(num_mrest(s@) =~= s@.subrange(ms as int, ep as int));
    }
    let ghost mrest = num_mrest(s@);
    let dpa = scan2(s, n, ms, ep, '.', '.');
    proof {
        assert forall|j: int| 0 <= j < dpa - ms implies #[trigger] mrest[j] != '.'
            && mrest[j] != '.' by {
            assert(mrest[j] == s@[ms + j]);
        }
        if (dpa as int) < (ep as int) {
            assert(mrest[dpa - ms] == s@[dpa as int]);
        }
        lemma_find_char2_is(mrest, '.', '.', dpa - ms);
    }
    let ghost ip = num_ip(s@);
    let ghost fp = num_fp(s@);
    let fs: usize = if dpa < ep { dpa + 1 } else { ep };
    let fe: usize = ep;
    let flen: usize = fe - fs;
    proof {
        assert(ip =~= s@.subrange(ms as int, dpa as int));
        assert(fp =~= s@.subrange(fs as int, fe as int));
    }
    if dpa == ms && flen == 0 {
        // no digit at all in the mantissa
        proof {
            assert(ip.len() + fp.len() == 0);
        }
        return None;
    }
    let vip = match accum_digits(s, ms, dpa, MANT_CAP) {
        Some(v) => v,
        None => {
            proof {
                if all_digits(ip) && all_digits(fp) {
                    lemma_digits_val_append(ip, fp);
                    lemma_digits_val_nonneg(fp);
                    lemma_pow10_pos(fp.len());
                    let vi = digits_val(ip);
                    let pf = pow10(fp.len()) as int;
                    assert(vi * pf >= vi * 1) by (nonlinear_arith)
                        requires vi >= 0 && pf >= 1;
                    assert(digits_val(ip + fp) > MANT_CAP);
                }
            }
            return None;
        },
    };
    let vfp = match accum_digits(s, fs, fe, MANT_CAP) {
        Some(v) => v,
        None => {
            proof {
                if all_digits(ip) && all_digits(fp) {
                    lemma_digits_val_append(ip, fp);
                    lemma_digits_val_nonneg(ip);
                    lemma_pow10_pos(fp.len());
                    let vi = digits_val(ip);
                    let pf = pow10(fp.len()) as int;
                    assert(vi * pf >= 0) by (nonlinear_arith)
                        requires vi >= 0 && pf >= 0;
                    assert(digits_val(ip + fp) > MANT_CAP);
                }
            }
            return None;
        },
    };
    proof {
        lemma_digits_val_append(ip, fp);
        lemma_digits_val_nonneg(ip);
        lemma_digits_val_nonneg(fp);
        assert(fp.len() == flen);
    }
    if vip == 0 {
        proof {
            assert(digits_val(ip) * (pow10(fp.len()) as int) == 0) by (nonlinear_arith)
                requires digits_val(ip) == 0;
        }
        return Some((neg, vfp, flen));
    }
    if flen > 18 {
        proof {
            lemma_pow10_increases(19, flen as nat);
            assert(pow10(19) == 10_000_000_000_000_000_000) by {
                reveal_with_fuel(pow10, 20);
            }
            let vi = digits_val(ip);
            let pf = pow10(fp.len()) as int;
            assert(vi * pf >= 1 * pf) by (nonlinear_arith)
                requires vi >= 1 && pf >= 0;
            assert(digits_val(ip + fp) > MANT_CAP);
        }
        return None;
    }
    let pf = pow10_u64(flen as u32);
    proof {
        lemma_pow10_increases(flen as nat, 18);
        assert(pow10(18) == 1_000_000_000_000_000_000) by {
            reveal_with_fuel(pow10, 19);
        }
        let x = vip as int;
        let y = pf as int;
        assert(x * y <= 200_000_000_000_000_000_000_000_000_000_000_000)
            by (nonlinear_arith)
            requires 0 <= x <= 100_000_000_000_000_000 && 0 <= y
                <= 1_000_000_000_000_000_000;
        lemma_mul_subst(vip as int, digits_val(ip), pf as int, pow10(fp.len()) as int);
    }
    let prod: u128 = (vip as u128) * (pf as u128);
    let total: u128 = prod + (vfp as u128);
    if total > MANT_CAP as u128 {
        return None;
    }
    Some((neg, total as u64, flen))
}

/// Reads the exponent part, `0` where none is marked.
fn parse_exponent(s: &str, n: usize, ep: usize) -> (r: Option<i64>)
    requires
        n == s@.len(),
        ep <= n,
        ep as int == num_ep(s@),
    ensures
        match r {
            Some(e) => exp_ok(s@) && e as int == num_e(s@) && -9999 <= e <= 9999,
            None => !exp_ok(s@) || num_e(s@) < -9999 || num_e(s@) > 9999,
        },
{
    if ep == n {
        return Some(0);
    }
    let ghost epart = s@.skip(ep + 1);
    let mut es: usize = ep + 1;
    let mut eneg: bool = false;
    if es < n {
        let ce = s.get_char(es);
        if ce == '-' {
            eneg = true;
            es = es + 1;
        } else if ce == '+' {
            es = es + 1;
        }
    }
    proof {
        assert(epart.len() == n - ep - 1);
        if ((ep + 1) as int) < (n as int) {
            assert(epart[0] == s@[ep + 1]);
        }
        assert(num_eneg(s@) == eneg);
        assert(num_edig(s@) =~= s@.subrange(es as int, n as int));
    }
    if es == n {
        // exponent marker with no digits after it
        proof {
            assert(num_edig(s@).len() == 0);
        }
        return None;
    }
    match accum_digits(s, es, n, 9999) {
        Some(ev) => {
            if eneg {
                Some(-(ev as i64))
            } else {
                Some(ev as i64)
            }
        },
        None => None,
    }
}

/// Parses `s` as decimal text into units of `10^-p`, exactly as
/// `spec_parse_scaled` describes.
pub fn parse_scaled(s: &str, p: u32) -> (r: Option<i64>)
    requires
        p <= 15,
    ensures
        match r {
            Some(v) => spec_parse_scaled(s@, p as nat) == Some(v as int),
            None => spec_parse_scaled(s@, p as nat) is None,
        },
{
    let n = s.unicode_len();
    let ep = scan2(s, n, 0, n, 'e', 'E');
    proof {
        lemma_find_char2_is(s@, 'e', 'E', ep as int);
    }
    let (neg, m, flen) = match parse_mantissa(s, n, ep) {
        Some(t) => t,
        None => {
            return None;
        },
    };
    let e = match parse_exponent(s, n, ep) {
        Some(e) => e,
        None => {
            return None;
        },
    };
    let ex: i128 = (e as i128) + (p as i128) - (flen as i128);
    proof {
        assert(ex == num_e(s@) + p - num_fp(s@).len());
        lemma_digits_val_nonneg(num_ip(s@) + num_fp(s@));
    }
    if m == 0 {
        proof {
            if ex >= 0 {
                assert(num_m(s@) * (pow10(ex as nat) as int) == 0) by (nonlinear_arith)
                    requires num_m(s@) == 0;
            } else {
                lemma_pow10_pos((-ex) as nat);
                let pk = pow10((-ex) as nat) as int;
                assert(0int / pk == 0) by (nonlinear_arith)
                    requires pk >= 1;
            }
        }
        return Some(0);
    }
    if ex >= 0 {
        if ex > 18 {
            proof {
                lemma_pow10_increases(19, ex as nat);
                assert(pow10(19) == 10_000_000_000_000_000_000) by {
                    reveal_with_fuel(pow10, 20);
                }
                let mm = num_m(s@);
                let pe = pow10(ex as nat) as int;
                assert(mm * pe >= 1 * pe) by (nonlinear_arith)
                    requires mm >= 1 && pe >= 0;
            }
            return None;
        }
        let pw = pow10_u64(ex as u32);
        proof {
            lemma_pow10_increases(ex as nat, 18);
            assert(pow10(18) == 1_000_000_000_000_000_000) by {
                reveal_with_fuel(pow10, 19);
            }
            let x = m as int;
            let y = pw as int;
            assert(x * y <= 200_000_000_000_000_000_000_000_000_000_000_000)
                by (nonlinear_arith)
                requires 0 <= x <= 100_000_000_000_000_000 && 0 <= y
                    <= 1_000_000_000_000_000_000;
            lemma_mul_subst(m as int, num_m(s@), pw as int, pow10(ex as nat) as int);
        }
        let mag: u128 = (m as u128) * (pw as u128);
        if mag > 0x7fff_ffff_ffff_ffff {
            return None;
        }
        let v = mag as i64;
        if neg {
            Some(-v)
        } else {
            Some(v)
        }
    } else {
        let kk: i128 = -ex;
        if kk > 17 {
            proof {
                lemma_pow10_increases(18, kk as nat);
                assert(pow10(18) == 1_000_000_000_000_000_000) by {
                    reveal_with_fuel(pow10, 19);
                }
                let mm = num_m(s@);
                let pk = pow10(kk as nat) as int;
                assert(mm / pk == 0) by (nonlinear_arith)
                    requires 0 <= mm < pk;
            }
            return Some(0);
        }
        let q = pow10_u64(kk as u32);
        let mag: u64 = m / q;
        proof {
            let mm = num_m(s@);
            let pk = pow10(kk as nat) as int;
            assert((m as int) / (q as int) == mm / pk) by (nonlinear_arith)
                requires m as int == mm && q as int == pk && pk >= 1;
        }
        if neg {
            Some(-(mag as i64))
        } else {
            Some(mag as i64)
        }
    }
}

/// Parses plain unsigned decimal text, exactly as `spec_parse_u64`
/// describes.
pub fn parse_u64_text(s: &str) -> (r: Option<u64>)
    ensures
        match r {
            Some(v) => spec_parse_u64(s@) == Some(v as int),
            None => spec_parse_u64(s@) is None,
        },
{
    let n = s.unicode_len();
    let mut st: usize = 0;
    if n > 0 {
        if s.get_char(0) == '+' {
            st = 1;
        }
    }
    let ghost d = if s@.len() > 0 && s@[0] == '+' { s@.drop_first() } else { s@ };
    proof {
        assert(d =~= s@.subrange(st as int, n as int));
    }
    if st == n {
        return None;
    }
    accum_digits(s, st, n, MANT_CAP)
}

/// Rounds `v` to the nearest multiple of `q`, halves away from zero,
/// given as a multiple count (the result is in units of `q`).
pub open spec fn spec_round_div(v: int, q: int) -> int {
    if v >= 0 {
        (v + q / 2) / q
    } else {
        -((-v + q / 2) / q)
    }
}

/// A micro-unit value reduced to `d` fraction digits, rounding halves
/// away from zero; the result is in units of `10^(d-6)`.
pub open spec fn spec_to_scale(v: int, d: nat) -> int {
    spec_round_div(v, pow10((6 - d) as nat) as int)
}

/// Renders a micro-unit value with exactly `d` fraction digits, rounding
/// halves away from zero.
pub fn render_micro(v: i64, d: u32) -> (s: String)
    requires
        d <= 6,
        crate::micro_bounded(v as int),
    ensures
        s@ == spec_fixed(spec_to_scale(v as int, d as nat), d as nat),
{
    let q: i64 = pow10_u64(6 - d) as i64;
    proof {
        lemma_pow10_increases((6 - d) as nat, 6);
        assert(pow10(6) == 1_000_000) by {
            reveal_with_fuel(pow10, 7);
        }
    }
    let r: i64 = if v >= 0 {
        (v + q / 2) / q
    } else {
        -((-v + q / 2) / q)
    };
    render_fixed(r, d)
}

} // verus!
