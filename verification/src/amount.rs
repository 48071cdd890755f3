//! Exact decimal amounts, modelled as a mantissa and a power-of-ten scale.

use vstd::prelude::*;

verus! {

/// Largest magnitude a mantissa may have: `2^96 - 1`.
pub const MAX_MANTISSA: i128 = 79_228_162_514_264_337_593_543_950_335;

/// Largest number of fractional digits an amount may carry.
pub const MAX_SCALE: u32 = 28;

/// `10^n`.
pub open spec fn pow10(n: nat) -> int
    decreases n,
{
    if n == 0 {
        1
    } else {
        10 * pow10((n - 1) as nat)
    }
}

/// Whether `m` is a mantissa that fits in 96 bits plus a sign.
pub open spec fn in_range(m: int) -> bool {
    -MAX_MANTISSA <= m <= MAX_MANTISSA
}

/// The decimal number `mantissa / 10^scale`.
///
/// Two amounts with different scales may denote the same number (`1.0` and
/// `1.00`); `==` compares the representation, [`Amount::value`] the number.
#[derive(Clone, Copy, Debug, PartialEq, Eq, Structural)]
pub struct Amount {
    pub mantissa: i128,
    pub scale: u32,
}

impl Amount {
    /// The representable amounts: at most 28 fractional digits and a mantissa
    /// of at most 96 bits.
    pub open spec fn wf(self) -> bool {
        self.scale <= MAX_SCALE && in_range(self.mantissa as int)
    }

    /// The number this amount denotes, counted in units of `10^-28`.
    pub open spec fn value(self) -> int {
        self.mantissa * pow10((MAX_SCALE - self.scale) as nat)
    }

    /// The mantissa this amount has once it is written with `scale`
    /// fractional digits, for `scale >= self.scale`.
    pub open spec fn aligned(self, scale: u32) -> int {
        self.mantissa * pow10((scale - self.scale) as nat)
    }

    /// Whether this amount denotes a smaller number than `other`: the two
    /// are compared once both are written with the larger of their scales.
    pub open spec fn less_than(self, other: Amount) -> bool {
        self.aligned(common_scale(self, other)) < other.aligned(common_scale(self, other))
    }

    /// Zero, written without fractional digits.
    pub open spec fn zero_spec() -> Amount {
        Amount { mantissa: 0, scale: 0 }
    }

    /// Zero, written without fractional digits.
    pub fn zero() -> (r: Amount)
        ensures
            r == Amount::zero_spec(),
            r.wf(),
            r.value() == 0,
    {
        Amount { mantissa: 0, scale: 0 }
    }

    /// The amount `mantissa / 10^scale`, if it is representable.
    pub fn new(mantissa: i128, scale: u32) -> (r: Option<Amount>)
        ensures
            r == (if (Amount { mantissa, scale }).wf() {
                Some(Amount { mantissa, scale })
            } else {
                None
            }),
    {
        if scale <= MAX_SCALE && -MAX_MANTISSA <= mantissa && mantissa <= MAX_MANTISSA {
            Some(Amount { mantissa, scale })
        } else {
            None
        }
    }
}

/// The larger of two scales.
pub open spec fn common_scale(a: Amount, b: Amount) -> u32 {
    if a.scale >= b.scale {
        a.scale
    } else {
        b.scale
    }
}

/// `10^n` is positive.
pub proof fn lemma_pow10_positive(n: nat)
    ensures
        pow10(n) > 0,
    decreases n,
{
    if n > 0 {
        lemma_pow10_positive((n - 1) as nat);
    }
}

/// `10^(a + b) == 10^a * 10^b`.
pub proof fn lemma_pow10_add(a: nat, b: nat)
    ensures
        pow10(a + b) == pow10(a) * pow10(b),
    decreases a,
{
    if a == 0 {
        assert(pow10(a + b) == 1 * pow10(b));
    } else {
        lemma_pow10_add((a - 1) as nat, b);
        assert(pow10(a + b) == 10 * pow10((a + b - 1) as nat));
        assert(pow10((a + b - 1) as nat) == pow10((a - 1) as nat) * pow10(b));
        assert(10 * (pow10((a - 1) as nat) * pow10(b)) == (10 * pow10((a - 1) as nat)) * pow10(b))
            by (nonlinear_arith);
    }
}

/// Writing an amount with more fractional digits does not change the number
/// it denotes.
pub proof fn lemma_aligned_value(a: Amount, scale: u32)
    requires
        a.scale <= scale <= MAX_SCALE,
    ensures
        a.aligned(scale) * pow10((MAX_SCALE - scale) as nat) == a.value(),
{
    let up = (scale - a.scale) as nat;
    let rest = (MAX_SCALE - scale) as nat;
    lemma_pow10_add(up, rest);
    assert(up + rest == (MAX_SCALE - a.scale) as nat);
    assert((a.mantissa * pow10(up)) * pow10(rest) == a.mantissa * (pow10(up) * pow10(rest)))
        by (nonlinear_arith);
}

/// Comparing two amounts at their common scale compares the numbers they
/// denote.
pub proof fn lemma_less_than_compares_values(a: Amount, b: Amount)
    requires
        a.scale <= MAX_SCALE,
        b.scale <= MAX_SCALE,
    ensures
        a.less_than(b) <==> a.value() < b.value(),
{
    let scale = common_scale(a, b);
    let unit = pow10((MAX_SCALE - scale) as nat);
    lemma_aligned_value(a, scale);
    lemma_aligned_value(b, scale);
    lemma_pow10_positive((MAX_SCALE - scale) as nat);
    let x = a.aligned(scale);
    let y = b.aligned(scale);
    assert(x < y <==> x * unit < y * unit) by (nonlinear_arith)
        requires
            unit > 0,
    ;
}

} // verus!
