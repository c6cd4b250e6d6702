//! Decimal text of integers and of fixed-point numbers.

use vstd::arithmetic::div_mod::{lemma_div_multiples_vanish_quotient, lemma_truncate_middle};
use vstd::prelude::*;

verus! {

/// The character of a decimal digit.
pub open spec fn digit_char(d: nat) -> char
    recommends
        d < 10,
{
    if d == 0 {
        '0'
    } else if d == 1 {
        '1'
    } else if d == 2 {
        '2'
    } else if d == 3 {
        '3'
    } else if d == 4 {
        '4'
    } else if d == 5 {
        '5'
    } else if d == 6 {
        '6'
    } else if d == 7 {
        '7'
    } else if d == 8 {
        '8'
    } else {
        '9'
    }
}

/// The decimal digits of a natural number, without leading zeros.
pub open spec fn digits(n: nat) -> Seq<char>
    decreases n,
{
    if n < 10 {
        seq![digit_char(n)]
    } else {
        digits(n / 10).push(digit_char(n % 10))
    }
}

/// The decimal text of an integer: a minus sign where it is negative, then
/// its digits.
pub open spec fn int_text(i: int) -> Seq<char> {
    if i < 0 {
        seq!['-'] + digits((-i) as nat)
    } else {
        digits(i as nat)
    }
}

/// Ten to the power `e`.
pub open spec fn pow10(e: nat) -> nat
    decreases e,
{
    if e == 0 {
        1
    } else {
        10 * pow10((e - 1) as nat)
    }
}

/// The digits after the decimal point of `frac / 10^width`, from the tenths
/// on, up to the last one that is not zero.
pub open spec fn fraction_digits(frac: nat, width: nat) -> Seq<char>
    decreases width,
{
    if frac == 0 || width == 0 {
        Seq::empty()
    } else {
        let unit = pow10((width - 1) as nat);
        seq![digit_char(frac / unit)] + fraction_digits(frac % unit, (width - 1) as nat)
    }
}

/// The decimal text of `mantissa / 10^scale`: sign, whole part, and, where
/// the fraction is not zero, a point and the fraction without trailing zeros.
pub open spec fn decimal_text(mantissa: int, scale: nat) -> Seq<char> {
    let size = (if mantissa < 0 { -mantissa } else { mantissa }) as nat;
    let unit = pow10(scale);
    let sign = if mantissa < 0 { seq!['-'] } else { Seq::empty() };
    let whole = sign + digits(size / unit);
    if size % unit == 0 {
        whole
    } else {
        whole + seq!['.'] + fraction_digits(size % unit, scale)
    }
}

/// Powers of ten grow with the exponent and are never zero.
pub proof fn lemma_pow10_grows(a: nat, b: nat)
    requires
        a <= b,
    ensures
        1 <= pow10(a) <= pow10(b),
    decreases b,
{
    if a == 0 {
        if b > 0 {
            lemma_pow10_grows(0, (b - 1) as nat);
        }
    } else {
        lemma_pow10_grows((a - 1) as nat, (b - 1) as nat);
    }
}

/// Ten to the power 19 and 20, between which the largest `u64` lies.
pub proof fn lemma_pow10_limits()
    ensures
        pow10(18) == 1_000_000_000_000_000_000,
        pow10(19) == 10_000_000_000_000_000_000,
        pow10(20) == 100_000_000_000_000_000_000,
{
    assert(pow10(0) == 1);
    assert(pow10(1) == 10);
    assert(pow10(2) == 100);
    assert(pow10(3) == 1_000);
    assert(pow10(4) == 10_000);
    assert(pow10(5) == 100_000);
    assert(pow10(6) == 1_000_000);
    assert(pow10(7) == 10_000_000);
    assert(pow10(8) == 100_000_000);
    assert(pow10(9) == 1_000_000_000);
    assert(pow10(10) == 10_000_000_000);
    assert(pow10(11) == 100_000_000_000);
    assert(pow10(12) == 1_000_000_000_000);
    assert(pow10(13) == 10_000_000_000_000);
    assert(pow10(14) == 100_000_000_000_000);
    assert(pow10(15) == 1_000_000_000_000_000);
    assert(pow10(16) == 10_000_000_000_000_000);
    assert(pow10(17) == 100_000_000_000_000_000);
    assert(pow10(18) == 1_000_000_000_000_000_000);
    assert(pow10(19) == 10_000_000_000_000_000_000);
}

/// One more place behind the point, with a zero in it, adds no digit to a
/// fraction.
pub proof fn lemma_fraction_digits_scaled(frac: nat, width: nat)
    requires
        frac < pow10(width),
    ensures
        fraction_digits(10 * frac, width + 1) == fraction_digits(frac, width),
    decreases width,
{
    if width == 0 {
        assert(pow10(0) == 1);
    } else if frac > 0 {
        let unit = pow10((width - 1) as nat);
        lemma_pow10_grows(0, (width - 1) as nat);
        assert(pow10(width) == 10 * unit);
        lemma_div_multiples_vanish_quotient(10, frac as int, unit as int);
        lemma_truncate_middle(frac as int, 10, unit as int);
        assert(frac % unit < unit) by (nonlinear_arith)
            requires
                unit > 0,
        ;
        lemma_fraction_digits_scaled(frac % unit, (width - 1) as nat);
    }
}

/// The text of a number does not depend on how many places its scale keeps:
/// ten times the mantissa at one more place is written the same.
pub proof fn lemma_decimal_text_canonical(mantissa: int, scale: nat)
    ensures
        decimal_text(10 * mantissa, scale + 1) == decimal_text(mantissa, scale),
{
    let size = (if mantissa < 0 { -mantissa } else { mantissa }) as nat;
    let unit = pow10(scale);
    lemma_pow10_grows(0, scale);
    assert(pow10(scale + 1) == 10 * unit);
    lemma_div_multiples_vanish_quotient(10, size as int, unit as int);
    lemma_truncate_middle(size as int, 10, unit as int);
    assert(size % unit < unit) by (nonlinear_arith)
        requires
            unit > 0,
    ;
    lemma_fraction_digits_scaled(size % unit, scale);
}

/// A number without places behind the point is written as the integer that
/// it is.
pub proof fn lemma_decimal_text_whole(mantissa: int)
    ensures
        decimal_text(mantissa, 0) == int_text(mantissa),
{
    assert(pow10(0) == 1);
}

fn digit_str(d: u64) -> (res: &'static str)
    requires
        d < 10,
    ensures
        res@ == seq![digit_char(d as nat)],
{
    proof {
        reveal_strlit("0");
        reveal_strlit("1");
        reveal_strlit("2");
        reveal_strlit("3");
        reveal_strlit("4");
        reveal_strlit("5");
        reveal_strlit("6");
        reveal_strlit("7");
        reveal_strlit("8");
        reveal_strlit("9");
    }
    let res = if d == 0 {
        "0"
    } else if d == 1 {
        "1"
    } else if d == 2 {
        "2"
    } else if d == 3 {
        "3"
    } else if d == 4 {
        "4"
    } else if d == 5 {
        "5"
    } else if d == 6 {
        "6"
    } else if d == 7 {
        "7"
    } else if d == 8 {
        "8"
    } else {
        "9"
    };
    res
}

/// Appends the decimal digits of `n` to `out`.
pub fn append_digits(out: &mut String, n: u64)
    ensures
        final(out)@ == old(out)@ + digits(n as nat),
    decreases n,
{
    if n >= 10 {
        append_digits(out, n / 10);
    }
    out.append(digit_str(n % 10));
}

/// The size of an integer without its sign.
fn magnitude(i: i64) -> (res: u64)
    ensures
        res == (if i < 0 { -i } else { i as int }),
{
    if i >= 0 {
        i as u64
    } else if i == i64::MIN {
        9_223_372_036_854_775_808u64
    } else {
        (-i) as u64
    }
}

/// The decimal text of an integer.
pub fn integer_text(i: i64) -> (res: String)
    ensures
        res@ == int_text(i as int),
{
    let mut out: String = String::new();
    if i < 0 {
        proof {
            reveal_strlit("-");
        }
        out.append("-");
    }
    append_digits(&mut out, magnitude(i));
    out
}

/// Ten to the power `e`, where it fits.
fn ten_to(e: u8) -> (res: u64)
    requires
        e <= 19,
    ensures
        res == pow10(e as nat),
{
    let mut res: u64 = 1;
    let mut i: u8 = 0;
    while i < e
        invariant
            i <= e <= 19,
            res == pow10(i as nat),
        decreases e - i,
    {
        proof {
            lemma_pow10_limits();
            lemma_pow10_grows(i as nat, 18);
        }
        res = res * 10;
        i = i + 1;
    }
    res
}

/// Appends the digits of the fraction `frac / 10^width`, without trailing
/// zeros.
fn append_fraction(out: &mut String, frac: u64, width: u8)
    requires
        frac < pow10(width as nat),
    ensures
        final(out)@ == old(out)@ + fraction_digits(frac as nat, width as nat),
{
    let mut rest: u64 = frac;
    let mut w: u8 = width;
    assert(out@ + fraction_digits(rest as nat, w as nat) =~= old(out)@ + fraction_digits(
        frac as nat,
        width as nat,
    ));
    while rest != 0 && w != 0
        invariant
            rest < pow10(w as nat),
            out@ + fraction_digits(rest as nat, w as nat) == old(out)@ + fraction_digits(
                frac as nat,
                width as nat,
            ),
        decreases w,
    {
        let ghost before = out@;
        let ghost unit = pow10((w - 1) as nat);
        let ghost old_rest = rest as nat;
        w = w - 1;
        let d: u64;
        if w >= 20 {
            proof {
                lemma_pow10_limits();
                lemma_pow10_grows(20, w as nat);
                assert(old_rest / unit == 0 && old_rest % unit == old_rest) by (nonlinear_arith)
                    requires
                        old_rest < unit,
                ;
            }
            d = 0;
        } else {
            let step: u64 = ten_to(w);
            proof {
                lemma_pow10_grows(0, w as nat);
                assert(old_rest / unit < 10 && old_rest % unit < unit) by (nonlinear_arith)
                    requires
                        old_rest < 10 * unit,
                        unit > 0,
                ;
            }
            d = rest / step;
            rest = rest % step;
        }
        out.append(digit_str(d));
        assert(out@ + fraction_digits(rest as nat, w as nat) =~= before + fraction_digits(
            old_rest,
            (w + 1) as nat,
        ));
    }
}

/// A fixed-point number: `mantissa / 10^scale`.
#[derive(Clone, Copy, Debug, PartialEq, Eq, Structural)]
pub struct Decimal {
    pub mantissa: i64,
    pub scale: u8,
}

impl Decimal {
    /// The number `mantissa / 10^scale`.
    pub fn new(mantissa: i64, scale: u8) -> (res: Decimal)
        ensures
            res == (Decimal { mantissa, scale }),
    {
        Decimal { mantissa, scale }
    }

    /// The decimal text of the number.
    pub open spec fn text_spec(self) -> Seq<char> {
        decimal_text(self.mantissa as int, self.scale as nat)
    }

    /// The decimal text of the number.
    pub fn text(&self) -> (res: String)
        ensures
            res@ == self.text_spec(),
    {
        let size: u64 = magnitude(self.mantissa);
        let mut out: String = String::new();
        if self.mantissa < 0 {
            proof {
                reveal_strlit("-");
            }
            out.append("-");
        }
        let whole: u64;
        let frac: u64;
        if self.scale <= 19 {
            let unit: u64 = ten_to(self.scale);
            proof {
                lemma_pow10_grows(0, self.scale as nat);
            }
            whole = size / unit;
            frac = size % unit;
        } else {
            proof {
                let unit = pow10(self.scale as nat);
                let s = size as nat;
                lemma_pow10_limits();
                lemma_pow10_grows(20, self.scale as nat);
                assert(s / unit == 0 && s % unit == s) by (nonlinear_arith)
                    requires
                        s < unit,
                ;
            }
            whole = 0;
            frac = size;
        }
        append_digits(&mut out, whole);
        if frac != 0 {
            proof {
                reveal_strlit(".");
            }
            out.append(".");
            append_fraction(&mut out, frac, self.scale);
        }
        out
    }
}

} // verus!
