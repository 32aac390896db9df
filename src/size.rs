//! Human-readable rendering of byte counts.
use vstd::prelude::*;
use crate::text::{decimal, digit, digit_char, push_all, push_decimal, string_of};

verus! {

/// `1024` raised to the power `k`.
pub open spec fn pow1024(k: nat) -> nat
    decreases k,
{
    if k == 0 {
        1
    } else {
        1024 * pow1024((k - 1) as nat)
    }
}

/// The rung of the unit ladder `B, KB, MB, GB, TB` used for `b` bytes: the
/// first whose scaled value is below 1024, or the last one.
pub open spec fn unit_index(b: nat) -> nat {
    if b < pow1024(1) {
        0
    } else if b < pow1024(2) {
        1
    } else if b < pow1024(3) {
        2
    } else if b < pow1024(4) {
        3
    } else {
        4
    }
}

pub open spec fn unit_symbol(k: nat) -> Seq<char> {
    if k == 0 {
        seq!['B']
    } else if k == 1 {
        seq!['K', 'B']
    } else if k == 2 {
        seq!['M', 'B']
    } else if k == 3 {
        seq!['G', 'B']
    } else {
        seq!['T', 'B']
    }
}

/// `b / 1024^k` in hundredths, rounded to the nearest integer, ties to even.
pub open spec fn rounded_hundredths(b: nat, k: nat) -> nat {
    let q = 100 * b;
    let d = pow1024(k);
    let f = q / d;
    let m = q % d;
    if 2 * m > d || (2 * m == d && f % 2 == 1) {
        f + 1
    } else {
        f
    }
}

/// The gap between neighbouring doubles around `b`: 1 below 2^53, and twice
/// the gap at `b / 2` above.
pub open spec fn double_spacing(b: nat) -> nat
    decreases b,
{
    if b < 9007199254740992 {
        1
    } else {
        2 * double_spacing(b / 2)
    }
}

/// `b` taken to the nearest double, ties to the even significand, as a
/// conversion of an integer to a float does.
pub open spec fn as_double(b: nat) -> nat {
    let g = double_spacing(b);
    let q = b / g;
    let r = b % g;
    if 2 * r > g || (2 * r == g && q % 2 == 1) {
        (q + 1) * g
    } else {
        q * g
    }
}

/// The rendering of `b` bytes: the byte count taken as a double, scaled to
/// its unit, with exactly two fractional digits, a space, and the unit symbol.
pub open spec fn format_spec(b: nat) -> Seq<char> {
    let v = as_double(b);
    let k = unit_index(v);
    let h = rounded_hundredths(v, k);
    decimal(h / 100) + seq!['.', digit_char((h % 100) / 10), digit_char(h % 10), ' ']
        + unit_symbol(k)
}

/// The rendered hundredths are the nearest to the exact quotient
/// `b / 1024^k`: they are off by at most half a hundredth, and an exact tie
/// goes to the even neighbour.
pub proof fn lemma_rounding_is_nearest(b: nat, k: nat)
    ensures
        ({
            let h = rounded_hundredths(b, k);
            let e = h * pow1024(k) - 100 * b;
            &&& 2 * e <= pow1024(k)
            &&& -2 * e <= pow1024(k)
            &&& (2 * e == pow1024(k) || -2 * e == pow1024(k)) ==> h % 2 == 0
        }),
{
    lemma_pow1024_positive(k);
    let d = pow1024(k);
    let q = 100 * b;
    let f = q / d;
    let m = q % d;
    assert(q == f * d + m && 0 <= m < d) by (nonlinear_arith)
        requires
            d > 0,
            f == q / d,
            m == q % d,
    ;
    let h = rounded_hundredths(b, k);
    if h == f + 1 {
        assert(h * d - q == d - m) by (nonlinear_arith)
            requires
                h == f + 1,
                q == f * d + m,
        ;
    } else {
        assert(h * d - q == -m) by (nonlinear_arith)
            requires
                h == f,
                q == f * d + m,
        ;
    }
}

pub proof fn lemma_pow1024_positive(k: nat)
    ensures
        pow1024(k) > 0,
    decreases k,
{
    if k > 0 {
        lemma_pow1024_positive((k - 1) as nat);
    }
}

fn unit_chars(k: u64) -> (r: Vec<char>)
    ensures
        r@ == unit_symbol(k as nat),
{
    let r = if k == 0 {
        vec!['B']
    } else if k == 1 {
        vec!['K', 'B']
    } else if k == 2 {
        vec!['M', 'B']
    } else if k == 3 {
        vec!['G', 'B']
    } else {
        vec!['T', 'B']
    };
    assert(r@ =~= unit_symbol(k as nat));
    r
}

/// The value of `bytes` as a double, an integer of at most 2^65.
fn double_value(bytes: u64) -> (v: u128)
    ensures
        v as nat == as_double(bytes as nat),
        v <= 36893488147419103232,
{
    let mut t: u64 = bytes;
    let mut g: u128 = 1;
    while t >= 9007199254740992
        invariant
            1 <= g <= 4096,
            t as nat == bytes as nat / g as nat,
            double_spacing(bytes as nat) == g * double_spacing(t as nat),
        decreases t,
    {
        proof {
            lemma_spacing_bound(bytes as nat, g as nat, t as nat);
            vstd::arithmetic::div_mod::lemma_div_denominator(bytes as int, g as int, 2);
            assert(g * double_spacing(t as nat) == (g * 2) * double_spacing((t / 2) as nat))
                by (nonlinear_arith)
                requires
                    double_spacing(t as nat) == 2 * double_spacing((t / 2) as nat),
            ;
        }
        t = t / 2;
        g = g * 2;
    }
    assert(double_spacing(t as nat) == 1);
    assert(g as nat == double_spacing(bytes as nat)) by (nonlinear_arith)
        requires
            double_spacing(t as nat) == 1,
            double_spacing(bytes as nat) == g * double_spacing(t as nat),
    ;
    assert(t * g <= bytes) by (nonlinear_arith)
        requires
            t == bytes as nat / g as nat,
            g >= 1,
    ;
    let r: u128 = bytes as u128 - t as u128 * g;
    proof {
        assert(r == bytes as nat % g as nat) by (nonlinear_arith)
            requires
                t == bytes as nat / g as nat,
                g >= 1,
                r == bytes - t * g,
        ;
        assert((t as nat + 1) * g as nat <= 36893488147419103232) by (nonlinear_arith)
            requires
                t < 9007199254740992,
                g <= 4096,
        ;
    }
    if 2 * r > g || (2 * r == g && t % 2 == 1) {
        (t as u128 + 1) * g
    } else {
        t as u128 * g
    }
}

proof fn lemma_spacing_bound(b: nat, g: nat, t: nat)
    requires
        g >= 1,
        t == b / g,
        t >= 9007199254740992,
        b < 18446744073709551616,
    ensures
        g < 2048,
{
    assert(g * t <= b) by (nonlinear_arith)
        requires
            g >= 1,
            t == b / g,
    ;
    assert(g < 2048) by (nonlinear_arith)
        requires
            g * t <= b,
            t >= 9007199254740992,
            b < 18446744073709551616,
    ;
}

/// The unit rung of a value and its rounded hundredths on that rung.
fn scale(v: u128) -> (r: (u64, u128))
    requires
        v <= 36893488147419103232,
    ensures
        r.0 as nat == unit_index(v as nat),
        r.1 as nat == rounded_hundredths(v as nat, r.0 as nat),
{
    proof {
        assert(pow1024(0) == 1);
        assert(pow1024(1) == 1024);
        assert(pow1024(2) == 1048576);
        assert(pow1024(3) == 1073741824);
        assert(pow1024(4) == 1099511627776);
    }
    let (k, d): (u64, u128) = if v < 1024 {
        (0, 1)
    } else if v < 1048576 {
        (1, 1024)
    } else if v < 1073741824 {
        (2, 1048576)
    } else if v < 1099511627776 {
        (3, 1073741824)
    } else {
        (4, 1099511627776)
    };
    assert(k as nat == unit_index(v as nat) && d as nat == pow1024(k as nat));
    let q: u128 = v * 100;
    let f: u128 = q / d;
    let m: u128 = q % d;
    proof {
        lemma_quotient_bounds(q as nat, d as nat);
    }
    let h: u128 = if 2 * m > d || (2 * m == d && f % 2 == 1) {
        f + 1
    } else {
        f
    };
    (k, h)
}

proof fn lemma_quotient_bounds(q: nat, d: nat)
    requires
        d >= 1,
    ensures
        q / d <= q,
        q % d < d,
{
    assert(q / d <= q) by (nonlinear_arith)
        requires
            d >= 1,
    ;
}

/// Renders a byte count on the ladder `B, KB, MB, GB, TB` (each unit 1024
/// times the previous) with two fractional digits, e.g. `1.00 KB`. The count
/// is first taken as a double, so above 2^53 it is rounded to 53 significant
/// bits. Values of 1024 TB and more stay in TB.
pub fn format_bytes(bytes: u64) -> (r: String)
    ensures
        r@ == format_spec(bytes as nat),
{
    let v = double_value(bytes);
    let (k, h) = scale(v);
    let whole: u128 = h / 100;
    let frac: u64 = (h % 100) as u64;
    let mut out: Vec<char> = Vec::new();
    push_decimal(&mut out, whole);
    out.push('.');
    out.push(digit(frac / 10));
    out.push(digit(frac % 10));
    out.push(' ');
    let units = unit_chars(k);
    push_all(&mut out, &units);
    assert(out@ =~= format_spec(bytes as nat));
    string_of(&out)
}

} // verus!
