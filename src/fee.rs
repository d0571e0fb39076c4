use vstd::prelude::*;

verus! {

/// Parts of a fee rate that make up the whole amount.
pub const ACCURACY: u32 = 1_000_000;

/// `parts` parts per million of `amount`, rounded down.
pub open spec fn fee_of(parts: nat, amount: nat) -> nat {
    (amount * parts) / (ACCURACY as nat)
}

/// A rate of at most the whole never takes more than the amount it applies to,
/// so the amount left after the fee is never negative.
pub proof fn lemma_fee_within_amount(parts: nat, amount: nat)
    requires
        parts <= ACCURACY,
    ensures
        fee_of(parts, amount) <= amount,
        amount - fee_of(parts, amount) >= 0,
{
    assert(amount * parts <= amount * (ACCURACY as nat)) by (nonlinear_arith)
        requires
            parts <= ACCURACY,
    ;
    assert((amount * (ACCURACY as nat)) / (ACCURACY as nat) == amount) by (nonlinear_arith);
    lemma_div_monotone(amount * parts, amount * (ACCURACY as nat), ACCURACY as nat);
}

proof fn lemma_div_monotone(x: nat, y: nat, d: nat)
    requires
        x <= y,
        d > 0,
    ensures
        x / d <= y / d,
{
    assert(x / d <= y / d) by (nonlinear_arith)
        requires
            x <= y,
            d > 0,
    ;
}

/// Splitting `amount` at a multiple of `d` lets `amount * parts / d` be taken in pieces.
pub proof fn lemma_mul_div_split(amount: nat, parts: nat, d: nat)
    requires
        d > 0,
    ensures
        (amount * parts) / d == (amount / d) * parts + ((amount % d) * parts) / d,
{
    let q = amount / d;
    let r = amount % d;
    assert(amount == q * d + r) by (nonlinear_arith)
        requires
            d > 0,
            q == amount / d,
            r == amount % d,
    ;
    assert(amount * parts == (q * parts) * d + r * parts) by (nonlinear_arith)
        requires
            amount == q * d + r,
    ;
    assert(((q * parts) * d + r * parts) / d == q * parts + (r * parts) / d) by (nonlinear_arith)
        requires
            d > 0,
    ;
}

/// A fee rate in parts per million, between zero and one inclusive.
#[derive(Clone, Copy, Debug, PartialEq, Eq, Structural)]
pub struct FeeRate {
    parts: u32,
}

impl FeeRate {
    #[verifier::type_invariant]
    spec fn inv(self) -> bool {
        self.parts <= ACCURACY
    }

    /// The number of parts per million (the invariant keeps it within the whole).
    pub closed spec fn parts_spec(self) -> nat {
        if self.parts <= ACCURACY {
            self.parts as nat
        } else {
            ACCURACY as nat
        }
    }

    /// A rate never exceeds the whole.
    pub proof fn lemma_bounded(&self)
        ensures
            self.parts_spec() <= ACCURACY,
    {
    }

    /// The rate holding `parts` parts per million, saturating at the whole.
    pub fn from_parts(parts: u32) -> (r: FeeRate)
        ensures
            r.parts_spec() == if parts <= ACCURACY {
                parts as nat
            } else {
                ACCURACY as nat
            },
    {
        if parts <= ACCURACY {
            FeeRate { parts }
        } else {
            FeeRate { parts: ACCURACY }
        }
    }

    /// The rate of `percent` hundredths, saturating at the whole.
    pub fn from_percent(percent: u32) -> (r: FeeRate)
        ensures
            r.parts_spec() == if percent <= 100 {
                percent as nat * 10_000
            } else {
                ACCURACY as nat
            },
    {
        if percent <= 100 {
            FeeRate { parts: percent * 10_000 }
        } else {
            FeeRate { parts: ACCURACY }
        }
    }

    /// The rate `p / q`, rounded down to whole parts per million; the whole
    /// when `p >= q` (and so when `q` is zero). Rounding is always down, so
    /// two thirds gives 666_666, where a conversion that rounds to nearest
    /// would give 666_667.
    pub fn from_rational(p: u32, q: u32) -> (r: FeeRate)
        ensures
            r.parts_spec() == if p >= q {
                ACCURACY as nat
            } else {
                (p as nat * ACCURACY as nat) / (q as nat)
            },
    {
        if p >= q {
            FeeRate { parts: ACCURACY }
        } else {
            assert((p as u64) * (ACCURACY as u64) <= 4_294_967_295_000_000) by (nonlinear_arith)
                requires
                    p <= 4_294_967_295u32,
            ;
            let scaled: u64 = (p as u64) * (ACCURACY as u64);
            let parts: u64 = scaled / (q as u64);
            assert(parts <= ACCURACY) by {
                assert(scaled <= (q as u64) * (ACCURACY as u64)) by (nonlinear_arith)
                    requires
                        p < q,
                        scaled == (p as u64) * (ACCURACY as u64),
                ;
                assert((scaled as nat) / (q as nat) <= ACCURACY as nat) by (nonlinear_arith)
                    requires
                        (scaled as nat) <= (q as nat) * (ACCURACY as nat),
                        q > 0,
                ;
            }
            FeeRate { parts: parts as u32 }
        }
    }

    /// The zero rate.
    pub fn zero() -> (r: FeeRate)
        ensures
            r.parts_spec() == 0,
    {
        FeeRate { parts: 0 }
    }

    /// The number of parts per million.
    pub fn deconstruct(&self) -> (r: u32)
        ensures
            r == self.parts_spec(),
            r <= ACCURACY,
    {
        proof {
            use_type_invariant(self);
        }
        self.parts
    }

    /// This rate of `amount`, rounded down; never more than `amount`.
    pub fn mul_floor(&self, amount: u128) -> (r: u128)
        ensures
            r == fee_of(self.parts_spec(), amount as nat),
            r <= amount,
    {
        proof {
            use_type_invariant(self);
            lemma_fee_within_amount(self.parts as nat, amount as nat);
            lemma_mul_div_split(amount as nat, self.parts as nat, ACCURACY as nat);
        }
        let whole: u128 = amount / (ACCURACY as u128);
        let rest: u128 = amount % (ACCURACY as u128);
        assert(whole * (self.parts as u128) <= amount) by (nonlinear_arith)
            requires
                whole == amount / (ACCURACY as u128),
                self.parts <= ACCURACY,
        ;
        assert(rest * (self.parts as u128) < 1_000_000_000_000) by (nonlinear_arith)
            requires
                rest < ACCURACY,
                self.parts <= ACCURACY,
        ;
        let high: u128 = whole * (self.parts as u128);
        let low: u128 = (rest * (self.parts as u128)) / (ACCURACY as u128);
        high + low
    }
}

} // verus!
