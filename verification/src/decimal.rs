//! Exact decimal amounts.
//!
//! Monetary amounts and share quantities are held as exact decimals: an
//! unsigned mantissa, a fractional scale and a sign. The value denoted is
//! `mantissa / 10^scale`, negated when `negative` is set. A well-formed
//! decimal is in minimal form, so its textual rendering has no trailing
//! fractional zeros and an integral value renders without a decimal point.

use vstd::prelude::*;

verus! {

/// An exact decimal number: `mantissa / 10^scale`, negated when `negative`.
#[derive(Clone, Copy, PartialEq, Eq, Structural, Debug)]
pub struct Decimal {
    pub negative: bool,
    pub mantissa: u64,
    pub scale: u8,
}

/// `10^n`.
pub open spec fn pow10(n: nat) -> nat
    decreases n,
{
    if n == 0 {
        1
    } else {
        10 * pow10((n - 1) as nat)
    }
}

/// The value `(sign) mantissa / 10^scale`, multiplied by `10^s` so that it
/// can be stated as an integer. Meaningful whenever `scale <= s`.
pub open spec fn scaled_value(negative: bool, mantissa: nat, scale: nat, s: nat) -> int
    recommends
        scale <= s,
{
    let m = mantissa * pow10((s - scale) as nat);
    if negative {
        -(m as int)
    } else {
        m as int
    }
}

impl Decimal {
    /// Minimal form: no trailing fractional zeros, and zero itself is plain `0`.
    pub open spec fn wf(self) -> bool {
        &&& (self.scale > 0 ==> self.mantissa % 10 != 0)
        &&& (self.mantissa == 0 ==> !self.negative && self.scale == 0)
    }

    /// This decimal's value multiplied by `10^s`; meaningful whenever
    /// `self.scale <= s`.
    pub open spec fn scaled(self, s: nat) -> int
        recommends
            self.scale <= s,
    {
        scaled_value(self.negative, self.mantissa as nat, self.scale as nat, s)
    }

    /// Whether this decimal denotes zero.
    pub open spec fn is_zero(self) -> bool {
        self.mantissa == 0
    }

    /// The decimal denoting the opposite value. Zero is its own negation, so
    /// minimal form is preserved.
    pub open spec fn spec_neg(self) -> Decimal {
        if self.mantissa == 0 {
            self
        } else {
            Decimal { negative: !self.negative, mantissa: self.mantissa, scale: self.scale }
        }
    }

    /// Negates this decimal.
    pub fn neg(&self) -> (r: Decimal)
        ensures
            r == self.spec_neg(),
    {
        if self.mantissa == 0 {
            *self
        } else {
            Decimal { negative: !self.negative, mantissa: self.mantissa, scale: self.scale }
        }
    }

    /// Builds the minimal-form decimal denoting `(sign) mantissa / 10^scale`.
    pub fn new(negative: bool, mantissa: u64, scale: u8) -> (d: Decimal)
        ensures
            d.wf(),
            d.scale <= scale,
            d.is_zero() <==> mantissa == 0,
            forall|s: nat|
                scale <= s ==> #[trigger] d.scaled(s) == scaled_value(
                    negative,
                    mantissa as nat,
                    scale as nat,
                    s,
                ),
    {
        let mut m = mantissa;
        let mut sc = scale;
        while sc > 0 && m % 10 == 0
            invariant
                sc <= scale,
                m == 0 ==> mantissa == 0,
                mantissa == 0 ==> m == 0,
                forall|s: nat|
                    scale <= s ==> #[trigger] scaled_value(negative, m as nat, sc as nat, s)
                        == scaled_value(negative, mantissa as nat, scale as nat, s),
            decreases sc,
        {
            let ghost m0 = m;
            let ghost sc0 = sc;
            m = m / 10;
            sc = sc - 1;
            proof {
                assert forall|s: nat| scale <= s implies #[trigger] scaled_value(
                    negative,
                    m as nat,
                    sc as nat,
                    s,
                ) == scaled_value(negative, mantissa as nat, scale as nat, s) by {
                    lemma_strip_trailing_zero(negative, m0 as nat, sc0 as nat, s);
                    assert(m as nat == m0 as nat / 10);
                    assert(sc as nat == (sc0 - 1) as nat);
                }
            }
        }
        let neg = if m == 0 {
            false
        } else {
            negative
        };
        Decimal { negative: neg, mantissa: m, scale: sc }
    }
}

/// The character for the decimal digit `d`. Meaningful whenever `d < 10`.
pub open spec fn digit_char(d: nat) -> char
    recommends
        d < 10,
{
    if d == 0 {
        '0'
    } else if d == 1 {
        '1'
    } else if d == 2 {
        '2'
    } else if d == 3 {
        '3'
    } else if d == 4 {
        '4'
    } else if d == 5 {
        '5'
    } else if d == 6 {
        '6'
    } else if d == 7 {
        '7'
    } else if d == 8 {
        '8'
    } else {
        '9'
    }
}

/// The decimal digit string of `n`, most significant digit first.
pub open spec fn spec_digits(n: nat) -> Seq<char>
    decreases n,
{
    if n < 10 {
        seq![digit_char(n)]
    } else {
        spec_digits(n / 10).push(digit_char(n % 10))
    }
}

/// A run of `n` zero characters.
pub open spec fn spec_zeros(n: nat) -> Seq<char>
    decreases n,
{
    if n == 0 {
        Seq::<char>::empty()
    } else {
        spec_zeros((n - 1) as nat).push('0')
    }
}

/// The unsigned rendering of `mantissa / 10^scale`: the digit string with a
/// point inserted `scale` places from the right, zero-padded on the left so
/// the integer part is never empty.
pub open spec fn spec_magnitude_str(mantissa: nat, scale: nat) -> Seq<char> {
    let ds = spec_digits(mantissa);
    if scale == 0 {
        ds
    } else if ds.len() > scale {
        ds.take(ds.len() - scale) + seq!['.'] + ds.skip(ds.len() - scale)
    } else {
        seq!['0', '.'] + spec_zeros((scale - ds.len()) as nat) + ds
    }
}

/// The rendering of a decimal: an optional minus sign before its magnitude.
pub open spec fn spec_decimal_str(d: Decimal) -> Seq<char> {
    if d.negative {
        seq!['-'] + spec_magnitude_str(d.mantissa as nat, d.scale as nat)
    } else {
        spec_magnitude_str(d.mantissa as nat, d.scale as nat)
    }
}

fn digit_str(d: u64) -> (s: &'static str)
    requires
        d < 10,
    ensures
        s@ == seq![digit_char(d as nat)],
{
    proof {
        reveal_strlit("0");
        reveal_strlit("1");
        reveal_strlit("2");
        reveal_strlit("3");
        reveal_strlit("4");
        reveal_strlit("5");
        reveal_strlit("6");
        reveal_strlit("7");
        reveal_strlit("8");
        reveal_strlit("9");
        assert("0"@ =~= seq![digit_char(0)]);
        assert("1"@ =~= seq![digit_char(1)]);
        assert("2"@ =~= seq![digit_char(2)]);
        assert("3"@ =~= seq![digit_char(3)]);
        assert("4"@ =~= seq![digit_char(4)]);
        assert("5"@ =~= seq![digit_char(5)]);
        assert("6"@ =~= seq![digit_char(6)]);
        assert("7"@ =~= seq![digit_char(7)]);
        assert("8"@ =~= seq![digit_char(8)]);
        assert("9"@ =~= seq![digit_char(9)]);
    }
    if d == 0 {
        "0"
    } else if d == 1 {
        "1"
    } else if d == 2 {
        "2"
    } else if d == 3 {
        "3"
    } else if d == 4 {
        "4"
    } else if d == 5 {
        "5"
    } else if d == 6 {
        "6"
    } else if d == 7 {
        "7"
    } else if d == 8 {
        "8"
    } else {
        "9"
    }
}

/// Renders `n` as its decimal digit string.
pub fn u64_digits(n: u64) -> (s: String)
    ensures
        s@ == spec_digits(n as nat),
    decreases n,
{
    if n < 10 {
        String::from_str(digit_str(n))
    } else {
        let mut s = u64_digits(n / 10);
        s.append(digit_str(n % 10));
        proof {
            assert(s@ =~= spec_digits(n as nat));
        }
        s
    }
}

impl Decimal {
    /// Renders this decimal in its minimal textual form.
    pub fn to_text(&self) -> (s: String)
        ensures
            s@ == spec_decimal_str(*self),
    {
        let ghost mag = spec_magnitude_str(self.mantissa as nat, self.scale as nat);
        let mut out = String::new();
        if self.negative {
            out.append("-");
            proof {
                reveal_strlit("-");
                assert(out@ =~= seq!['-']);
            }
        }
        let ghost sign = out@;
        let ds = u64_digits(self.mantissa);
        let len = ds.as_str().unicode_len();
        let sc = self.scale as usize;
        if sc == 0 {
            out.append(ds.as_str());
        } else if len > sc {
            let cut = len - sc;
            out.append(ds.as_str().substring_char(0, cut));
            out.append(".");
            out.append(ds.as_str().substring_char(cut, len));
            proof {
                reveal_strlit(".");
                assert("."@ =~= seq!['.']);
                assert(out@ =~= sign + mag);
            }
        } else {
            out.append("0.");
            proof {
                reveal_strlit("0.");
                assert("0."@ =~= seq!['0', '.']);
            }
            let ghost base = out@;
            let mut i: usize = len;
            while i < sc
                invariant
                    len <= i <= sc,
                    out@ == base + spec_zeros((i - len) as nat),
                decreases sc - i,
            {
                out.append("0");
                i = i + 1;
                proof {
                    reveal_strlit("0");
                    assert(out@ =~= base + spec_zeros((i - len) as nat));
                }
            }
            out.append(ds.as_str());
            proof {
                assert(out@ =~= sign + mag);
            }
        }
        proof {
            assert(out@ =~= spec_decimal_str(*self));
        }
        out
    }
}

/// The mantissa of `d` with its sign applied: the value of `d` scaled by
/// exactly `10^d.scale`.
pub open spec fn spec_signed_mantissa(d: Decimal) -> int {
    if d.negative {
        -(d.mantissa as int)
    } else {
        d.mantissa as int
    }
}

/// A run of zeros is as long as asked for.
pub proof fn lemma_zeros_len(n: nat)
    ensures
        spec_zeros(n).len() == n,
    decreases n,
{
    if n > 0 {
        lemma_zeros_len((n - 1) as nat);
    }
}

/// A number below `10^k` has at most `k` digits.
pub proof fn lemma_digits_len_le(n: nat, k: nat)
    requires
        1 <= k,
        n < pow10(k),
    ensures
        spec_digits(n).len() <= k,
    decreases k,
{
    if n >= 10 {
        reveal_with_fuel(pow10, 2);
        assert(pow10(1) == 10);
        if k == 1 {
            assert(false);
        }
        assert(pow10(k) == 10 * pow10((k - 1) as nat));
        vstd::arithmetic::div_mod::lemma_multiply_divide_lt(
            n as int,
            10,
            pow10((k - 1) as nat) as int,
        );
        lemma_digits_len_le(n / 10, (k - 1) as nat);
    }
}

/// Negating a decimal negates its scaled value.
pub proof fn lemma_neg_scaled(d: Decimal, s: nat)
    requires
        d.scale <= s,
    ensures
        d.spec_neg().scaled(s) == -d.scaled(s),
{
}

/// Dividing the mantissa of a decimal by ten while lowering its scale by one
/// keeps its value, provided the mantissa ends in a zero digit.
proof fn lemma_strip_trailing_zero(negative: bool, m: nat, sc: nat, s: nat)
    requires
        1 <= sc <= s,
        m % 10 == 0,
    ensures
        scaled_value(negative, m / 10, (sc - 1) as nat, s) == scaled_value(negative, m, sc, s),
{
    let p = pow10((s - sc) as nat);
    assert(pow10((s - (sc - 1)) as nat) == 10 * p);
    assert(m == 10 * (m / 10)) by (nonlinear_arith)
        requires
            m % 10 == 0,
    ;
    assert((m / 10) * (10 * p) == (10 * (m / 10)) * p) by (nonlinear_arith);
}

} // verus!
