use vstd::prelude::*;

verus! {

/// Order key of positive infinity: the largest key of any number.
pub const INFINITY_KEY: i64 = 0x7FF0_0000_0000_0000;

/// Bit pattern of the sign of a double.
pub const SIGN_BIT: u64 = 0x8000_0000_0000_0000;

/// The bit pattern of the quiet not-a-number that `to_bits` gives.
pub const QUIET_NAN_BITS: u64 = 0x7FF8_0000_0000_0000;

/// A real number as it takes part in comparisons. An ordered value is held by
/// its order key: a larger key is a larger number, both zeros share key 0, and
/// the negation of a number has the negated key. A value that is not a number
/// compares false with everything.
#[derive(Clone, Copy, Debug, PartialEq, Eq, Structural)]
pub enum Scalar {
    Num(i64),
    NaN,
}

/// The magnitude part of a double's bit pattern (all bits but the sign).
pub open spec fn magnitude(bits: u64) -> int {
    bits as int % (SIGN_BIT as int)
}

/// The scalar that a double's bit pattern stands for.
pub open spec fn scalar_of_bits(bits: u64) -> Scalar {
    if magnitude(bits) > INFINITY_KEY {
        Scalar::NaN
    } else if bits >= SIGN_BIT {
        Scalar::Num((-magnitude(bits)) as i64)
    } else {
        Scalar::Num(magnitude(bits) as i64)
    }
}

impl Scalar {
    /// Keys come from doubles: they lie between those of the two infinities.
    pub open spec fn wf(self) -> bool {
        match self {
            Scalar::Num(k) => -INFINITY_KEY <= k <= INFINITY_KEY,
            Scalar::NaN => true,
        }
    }

    pub open spec fn is_number(self) -> bool {
        self is Num
    }

    /// `self < other`, as floating-point comparison has it.
    pub open spec fn lt(self, other: Scalar) -> bool {
        match (self, other) {
            (Scalar::Num(a), Scalar::Num(b)) => a < b,
            _ => false,
        }
    }

    /// `self <= other`, as floating-point comparison has it.
    pub open spec fn le(self, other: Scalar) -> bool {
        match (self, other) {
            (Scalar::Num(a), Scalar::Num(b)) => a <= b,
            _ => false,
        }
    }

    /// The negated number; not a number stays so.
    pub open spec fn neg(self) -> Scalar {
        match self {
            Scalar::Num(k) => Scalar::Num((-k) as i64),
            Scalar::NaN => Scalar::NaN,
        }
    }

    pub fn zero() -> (r: Scalar)
        ensures
            r == Scalar::Num(0),
            r.wf(),
    {
        Scalar::Num(0)
    }

    /// The scalar of a double, read from its bit pattern.
    pub fn from_bits(bits: u64) -> (r: Scalar)
        ensures
            r == scalar_of_bits(bits),
            r.wf(),
    {
        let mag: u64 = bits % SIGN_BIT;
        if mag > INFINITY_KEY as u64 {
            Scalar::NaN
        } else if bits >= SIGN_BIT {
            Scalar::Num(-(mag as i64))
        } else {
            Scalar::Num(mag as i64)
        }
    }

    /// A double with this scalar: the number itself, zero as `+0.0`, and a
    /// quiet not-a-number for `NaN`.
    pub fn to_bits(&self) -> (r: u64)
        requires
            self.wf(),
        ensures
            scalar_of_bits(r) == *self,
            *self == Scalar::NaN ==> r == QUIET_NAN_BITS,
    {
        match self {
            Scalar::Num(k) => if *k >= 0 {
                *k as u64
            } else {
                SIGN_BIT + (-*k) as u64
            },
            Scalar::NaN => QUIET_NAN_BITS,
        }
    }

    pub fn less(&self, other: &Scalar) -> (r: bool)
        ensures
            r == self.lt(*other),
    {
        match (self, other) {
            (Scalar::Num(a), Scalar::Num(b)) => *a < *b,
            _ => false,
        }
    }
}

} // verus!
