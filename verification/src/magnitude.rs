//! Non-negative single-precision readings, carried as their bit patterns.
//!
//! Of the readings that the meters pick up the library only asks which of two
//! is larger. The binary32 bit patterns of non-negative numbers order as the
//! numbers do, so the question is answered on the patterns.

use vstd::arithmetic::power2::lemma_pow2_adds;
use vstd::arithmetic::power2::lemma_pow2_pos;
use vstd::arithmetic::power2::lemma_pow2_strictly_increases;
use vstd::arithmetic::power2::pow2;
use vstd::prelude::*;

verus! {

/// The bit pattern of positive infinity, the largest reading.
pub const INFINITY_BITS: u32 = 0x7F80_0000;

/// How many significands there are for one exponent.
pub const SIGNIFICANDS: u32 = 0x0080_0000;

/// The number that a bit pattern up to infinity stands for, in units of the
/// smallest positive single-precision number. Infinity counts as the number
/// that its pattern would hold if it were finite.
pub open spec fn reading_of(bits: u32) -> nat {
    let exponent = (bits / SIGNIFICANDS) as nat;
    let significand = (bits % SIGNIFICANDS) as nat;
    if exponent == 0 {
        significand
    } else {
        (SIGNIFICANDS as nat + significand) * pow2((exponent - 1) as nat)
    }
}

/// The number one, in the unit of `reading_of`.
pub open spec fn one() -> nat {
    pow2(149)
}

/// A non-negative reading.
#[derive(Debug, Clone, Copy, PartialEq, Eq, Structural)]
pub struct Magnitude {
    pub bits: u32,
}

impl Magnitude {
    /// The pattern is that of a non-negative number: the sign is clear, and
    /// the pattern is not one of those that stand for no number.
    pub open spec fn wf(self) -> bool {
        self.bits <= INFINITY_BITS
    }

    /// What the reading reads, in the unit of `reading_of`.
    pub open spec fn reading(self) -> nat {
        reading_of(self.bits)
    }

    /// The larger of the reading and the one that a bit pattern stands for.
    pub open spec fn raised(self, bits: u32) -> Magnitude {
        if bits <= INFINITY_BITS && reading_of(bits) > self.reading() {
            Magnitude { bits }
        } else {
            self
        }
    }

    pub fn zero() -> (m: Magnitude)
        ensures
            m.wf(),
            m.bits == 0,
            m.reading() == 0,
    {
        Magnitude { bits: 0 }
    }

    /// The reading of a bit pattern, if the pattern is that of a non-negative
    /// number.
    pub fn from_bits(bits: u32) -> (m: Option<Magnitude>)
        ensures
            m == if bits <= INFINITY_BITS {
                Some(Magnitude { bits })
            } else {
                None
            },
    {
        if bits <= INFINITY_BITS {
            Some(Magnitude { bits })
        } else {
            None
        }
    }

    /// Whether the reading is below another.
    pub fn below(self, other: Magnitude) -> (r: bool)
        requires
            self.wf(),
            other.wf(),
        ensures
            r == (self.reading() < other.reading()),
    {
        proof {
            law_patterns_order_as_readings(self.bits, other.bits);
        }
        self.bits < other.bits
    }

    /// The larger of the reading and the one that a bit pattern stands for; a
    /// pattern that is negative or no number leaves the reading as it is.
    pub fn raised_to(self, bits: u32) -> (m: Magnitude)
        requires
            self.wf(),
        ensures
            m.wf(),
            m == self.raised(bits),
    {
        match Magnitude::from_bits(bits) {
            Some(other) => {
                if self.below(other) {
                    other
                } else {
                    self
                }
            },
            None => self,
        }
    }
}

/// The bit patterns of non-negative numbers order as the numbers do.
pub proof fn law_patterns_order_as_readings(a: u32, b: u32)
    ensures
        a < b <==> reading_of(a) < reading_of(b),
        a == b <==> reading_of(a) == reading_of(b),
{
    if a < b {
        lemma_reading_increases(a, b);
    } else if b < a {
        lemma_reading_increases(b, a);
    }
}

/// A reading that is raised over several patterns is the largest of them,
/// whatever the order they come in.
pub proof fn law_raising_keeps_the_largest(m: Magnitude, a: u32, b: u32)
    requires
        m.wf(),
    ensures
        m.raised(a).raised(b).wf(),
        m.raised(a).raised(b).reading() >= m.reading(),
        a <= INFINITY_BITS ==> m.raised(a).raised(b).reading() >= reading_of(a),
        b <= INFINITY_BITS ==> m.raised(a).raised(b).reading() >= reading_of(b),
        m.raised(a).raised(b) == m.raised(b).raised(a),
{
    law_patterns_order_as_readings(a, b);
}

/// A bit pattern whose significand holds a whole number `n`, shifted to the
/// left by `shift`, stands for `n`.
pub proof fn lemma_reading_of_whole(bits: u32, n: nat, shift: nat)
    requires
        1 <= bits / SIGNIFICANDS,
        shift <= 23,
        SIGNIFICANDS + bits % SIGNIFICANDS == n * pow2(shift),
        bits / SIGNIFICANDS - 1 + shift == 149,
    ensures
        reading_of(bits) == n * one(),
{
    let exponent = (bits / SIGNIFICANDS - 1) as nat;
    lemma_pow2_adds(shift, exponent);
    assert((n * pow2(shift)) * pow2(exponent) == n * (pow2(shift) * pow2(exponent)))
        by (nonlinear_arith);
}

proof fn lemma_reading_increases(a: u32, b: u32)
    requires
        a < b,
    ensures
        reading_of(a) < reading_of(b),
{
    let s = SIGNIFICANDS as nat;
    let ea = (a / SIGNIFICANDS) as nat;
    let eb = (b / SIGNIFICANDS) as nat;
    let ma = (a % SIGNIFICANDS) as nat;
    let mb = (b % SIGNIFICANDS) as nat;
    assert(ea <= eb);
    if ea == eb {
        assert(ma < mb);
        if ea > 0 {
            let p = pow2((ea - 1) as nat);
            lemma_pow2_pos((ea - 1) as nat);
            assert((s + ma) * p < (s + mb) * p) by (nonlinear_arith)
                requires
                    ma < mb,
                    p > 0,
            ;
        }
    } else if ea == 0 {
        let p = pow2((eb - 1) as nat);
        lemma_pow2_pos((eb - 1) as nat);
        assert((s + mb) * p >= s) by (nonlinear_arith)
            requires
                p > 0,
        ;
    } else {
        let p = pow2((ea - 1) as nat);
        let q = pow2((eb - 1) as nat);
        lemma_pow2_pos((ea - 1) as nat);
        lemma_pow2_adds(1, (ea - 1) as nat);
        vstd::arithmetic::power2::lemma2_to64();
        assert(pow2(ea) == 2 * p);
        if ea < eb - 1 {
            lemma_pow2_strictly_increases(ea, (eb - 1) as nat);
        }
        assert(q >= 2 * p);
        assert((s + ma) * p < (2 * s) * p) by (nonlinear_arith)
            requires
                ma < s,
                p > 0,
        ;
        assert((2 * s) * p == s * (2 * p)) by (nonlinear_arith);
        assert(s * (2 * p) <= (s + mb) * q) by (nonlinear_arith)
            requires
                q >= 2 * p,
        ;
    }
}

/// A held reading never falls: it is raised to a pattern that stands for more,
/// and to no other, and negative patterns and those of no number leave it.
pub proof fn law_held_reading_never_falls(m: Magnitude, bits: u32, held: Magnitude)
    requires
        m.wf(),
        call_ensures(Magnitude::raised_to, (m, bits), held),
    ensures
        held.reading() >= m.reading(),
        held.bits == m.bits || held.bits == bits,
        bits <= 0x7F80_0000 ==> held.reading() >= reading_of(bits),
        bits > 0x7F80_0000 ==> held == m,
        bits <= m.bits ==> held == m,
{
    law_patterns_order_as_readings(m.bits, bits);
}

/// The patterns up to that of infinity are readings, and no others; each is
/// kept as it is. One reading is below another as their patterns are, and zero
/// is below every other.
pub proof fn law_readings_are_their_patterns(
    bits: u32,
    made: Option<Magnitude>,
    a: Magnitude,
    b: Magnitude,
    below: bool,
    zero: Magnitude,
)
    requires
        call_ensures(Magnitude::from_bits, (bits,), made),
        call_ensures(Magnitude::below, (a, b), below),
        call_ensures(Magnitude::zero, (), zero),
    ensures
        made is Some <==> bits <= 0x7F80_0000,
        made matches Some(m) ==> m.bits == bits,
        below <==> a.bits < b.bits,
        zero.bits == 0,
        reading_of(0) == 0,
{
    law_patterns_order_as_readings(a.bits, b.bits);
}

} // verus!
