use std::cmp::Ordering;
use vstd::prelude::*;

verus! {

/// Weight of the sign bit in the binary64 encoding.
pub const SIGN_BIT: u64 = 0x8000_0000_0000_0000;

/// Encoding of positive infinity; every magnitude above it is a NaN.
pub const INFINITY_BITS: u64 = 0x7ff0_0000_0000_0000;

/// A binary64 floating-point value, held as its IEEE 754 bit pattern.
///
/// The library never does arithmetic on measurements: it stores, compares and
/// hands them back, and all three are exact on the bit pattern.
#[derive(Clone, Copy, Debug, PartialEq, Eq, Structural)]
pub struct F64Bits {
    pub bits: u64,
}

impl F64Bits {
    /// The bit pattern with the sign bit cleared.
    pub open spec fn magnitude(self) -> u64 {
        if self.bits >= SIGN_BIT {
            (self.bits - SIGN_BIT) as u64
        } else {
            self.bits
        }
    }

    /// Whether the value is a NaN (an exponent of all ones and a non-zero fraction).
    pub open spec fn is_nan(self) -> bool {
        self.magnitude() > INFINITY_BITS
    }

    /// An integer that orders the non-NaN values as the reals they denote:
    /// positive values grow with their encoding, negative ones shrink, and
    /// both zeros meet at 0.
    pub open spec fn order_key(self) -> int {
        if self.bits >= SIGN_BIT {
            -(self.magnitude() as int)
        } else {
            self.magnitude() as int
        }
    }

    /// IEEE 754 comparison: `None` when either side is a NaN.
    pub open spec fn spec_compare(self, other: F64Bits) -> Option<Ordering> {
        if self.is_nan() || other.is_nan() {
            None
        } else if self.order_key() < other.order_key() {
            Some(Ordering::Less)
        } else if self.order_key() > other.order_key() {
            Some(Ordering::Greater)
        } else {
            Some(Ordering::Equal)
        }
    }

    /// Strictly greater, as IEEE 754 defines it (false whenever a NaN takes part).
    pub open spec fn spec_gt(self, other: F64Bits) -> bool {
        self.spec_compare(other) == Some(Ordering::Greater)
    }

    pub fn from_bits(bits: u64) -> (r: F64Bits)
        ensures
            r.bits == bits,
    {
        F64Bits { bits }
    }

    pub fn to_bits(&self) -> (r: u64)
        ensures
            r == self.bits,
    {
        self.bits
    }

    pub fn is_nan_value(&self) -> (r: bool)
        ensures
            r == self.is_nan(),
    {
        let magnitude: u64 = if self.bits >= SIGN_BIT {
            self.bits - SIGN_BIT
        } else {
            self.bits
        };
        magnitude > INFINITY_BITS
    }

    /// Compares two values as IEEE 754 does: `None` when they are unordered.
    pub fn compare(&self, other: &F64Bits) -> (r: Option<Ordering>)
        ensures
            r == self.spec_compare(*other),
    {
        if self.is_nan_value() || other.is_nan_value() {
            return None;
        }
        let a_neg = self.bits >= SIGN_BIT;
        let b_neg = other.bits >= SIGN_BIT;
        let a_mag: u64 = if a_neg { self.bits - SIGN_BIT } else { self.bits };
        let b_mag: u64 = if b_neg { other.bits - SIGN_BIT } else { other.bits };
        if a_neg == b_neg {
            if a_mag == b_mag {
                Some(Ordering::Equal)
            } else if (a_mag < b_mag) != a_neg {
                Some(Ordering::Less)
            } else {
                Some(Ordering::Greater)
            }
        } else if a_mag == 0 && b_mag == 0 {
            Some(Ordering::Equal)
        } else if a_neg {
            Some(Ordering::Less)
        } else {
            Some(Ordering::Greater)
        }
    }

    /// The comparison used for sorting: unordered pairs count as equal, so
    /// that a NaN never stops a sort.
    pub fn compare_or_equal(&self, other: &F64Bits) -> (r: Ordering)
        ensures
            r == match self.spec_compare(*other) {
                Some(o) => o,
                None => Ordering::Equal,
            },
    {
        match self.compare(other) {
            Some(o) => o,
            None => Ordering::Equal,
        }
    }
}

} // verus!
