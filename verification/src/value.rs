//! Sample values: double-precision numbers, held by their bit pattern.

use vstd::prelude::*;

verus! {

/// The bit pattern of negative zero: the sign bit alone.
pub const SIGN_BIT: u64 = 0x8000_0000_0000_0000;

/// The bit pattern of positive infinity: every exponent bit, no fraction bit.
pub const INFINITY_BITS: u64 = 0x7FF0_0000_0000_0000;

/// The pattern without its sign bit.
pub open spec fn magnitude_of(bits: u64) -> int {
    if bits < SIGN_BIT {
        bits as int
    } else {
        bits - SIGN_BIT
    }
}

/// A pattern is a NaN when its magnitude lies above that of infinity.
pub open spec fn is_nan_bits(bits: u64) -> bool {
    magnitude_of(bits) > INFINITY_BITS
}

/// The place of a pattern in the IEEE 754 total order: patterns without the sign
/// bit ascend with their bits, patterns with it descend below them. Negative zero
/// is at -1 and positive zero at 0.
pub open spec fn order_key_of(bits: u64) -> int {
    if bits < SIGN_BIT {
        bits as int
    } else {
        -1 - (bits - SIGN_BIT)
    }
}

/// A double-precision number that is not a NaN.
#[derive(Clone, Copy, Debug, PartialEq, Eq, Structural)]
pub struct Value {
    pub(crate) bits: u64,
}

impl Value {
    #[verifier::type_invariant]
    spec fn not_nan(self) -> bool {
        !is_nan_bits(self.bits)
    }

    /// The IEEE 754 bit pattern of the number.
    pub open(crate) spec fn bits(self) -> u64 {
        self.bits
    }

    /// The number with the given bit pattern.
    pub open(crate) spec fn with_bits(bits: u64) -> Value {
        Value { bits }
    }

    /// The place of the number in the total order.
    pub open spec fn key(self) -> int {
        order_key_of(self.bits())
    }

    /// The number with the given bit pattern, unless the pattern is a NaN.
    pub fn from_bits(bits: u64) -> (r: Option<Value>)
        ensures
            r == (if is_nan_bits(bits) {
                None
            } else {
                Some(Value::with_bits(bits))
            }),
    {
        let magnitude: u64 = if bits < SIGN_BIT {
            bits
        } else {
            bits - SIGN_BIT
        };
        if magnitude > INFINITY_BITS {
            None
        } else {
            Some(Value { bits })
        }
    }

    /// The bit pattern of the number.
    pub fn to_bits(&self) -> (r: u64)
        ensures
            r == self.bits(),
            !is_nan_bits(r),
    {
        proof {
            use_type_invariant(self);
        }
        self.bits
    }

    /// The place of the number in the total order, as a machine integer.
    pub fn order_key(&self) -> (r: i64)
        ensures
            r == self.key(),
    {
        if self.bits < SIGN_BIT {
            self.bits as i64
        } else {
            -1i64 - ((self.bits - SIGN_BIT) as i64)
        }
    }

    /// Whether `self` comes strictly before `other` in the total order.
    pub fn total_lt(&self, other: &Value) -> (r: bool)
        ensures
            r == (self.key() < other.key()),
    {
        self.order_key() < other.order_key()
    }

    /// Whether `self` comes before `other` in the total order, or is `other`.
    pub fn total_le(&self, other: &Value) -> (r: bool)
        ensures
            r == (self.key() <= other.key()),
    {
        self.order_key() <= other.order_key()
    }

    /// The number with a bit pattern has that bit pattern.
    pub proof fn lemma_with_bits(bits: u64)
        ensures
            Value::with_bits(bits).bits() == bits,
    {
    }

    /// Two numbers with the same bit pattern are the same number.
    pub proof fn lemma_bits_determine(a: Value, b: Value)
        requires
            a.bits() == b.bits(),
        ensures
            a == b,
    {
    }

    /// The total order is antisymmetric: numbers at the same place are the same
    /// number, and each number has its bit pattern's place alone.
    pub proof fn lemma_key_determines(a: Value, b: Value)
        requires
            a.key() == b.key(),
        ensures
            a == b,
    {
    }
}

} // verus!
