//! Strongly typed scalar parameters shared by every parameter record.

use vstd::prelude::*;

verus! {

/// The number of coefficients of an LWE secret key.
#[derive(Debug, Clone, Copy, PartialEq, Eq, Structural)]
pub struct LweDimension(pub usize);

/// The number of polynomials of a GLWE secret key.
#[derive(Debug, Clone, Copy, PartialEq, Eq, Structural)]
pub struct GlweDimension(pub usize);

/// The number of coefficients of the polynomials of the ring.
#[derive(Debug, Clone, Copy, PartialEq, Eq, Structural)]
pub struct PolynomialSize(pub usize);

/// The logarithm of the base of a gadget decomposition.
#[derive(Debug, Clone, Copy, PartialEq, Eq, Structural)]
pub struct DecompositionBaseLog(pub usize);

/// The number of levels of a gadget decomposition.
#[derive(Debug, Clone, Copy, PartialEq, Eq, Structural)]
pub struct DecompositionLevelCount(pub usize);

/// A noise standard deviation, as a fraction of the ciphertext modulus.
///
/// The value is held as the bit pattern of its IEEE-754 binary64 encoding, so that a record
/// holding it is a plain value that compares bit for bit.
#[derive(Debug, Clone, Copy, PartialEq, Eq, Structural)]
pub struct StandardDev(pub u64);

/// The native modulus of 64-bit ciphertexts, 2^64.
pub const NATIVE_MODULUS: u128 = 0x1_0000_0000_0000_0000;

/// The modulus under which ciphertext coefficients are reduced.
#[derive(Debug, Clone, Copy, PartialEq, Eq, Structural)]
pub struct CiphertextModulus {
    modulus: u128,
}

impl CiphertextModulus {
    #[verifier::type_invariant]
    spec fn is_valid(self) -> bool {
        2 <= self.modulus <= NATIVE_MODULUS
    }

    /// The modulus, as a number.
    pub closed spec fn value(self) -> nat {
        self.modulus as nat
    }

    /// The native modulus of the machine word, 2^64.
    pub closed spec fn native() -> Self {
        CiphertextModulus { modulus: NATIVE_MODULUS }
    }

    /// The native modulus of the machine word, 2^64.
    #[verifier::when_used_as_spec(native)]
    pub fn new_native() -> (r: Self)
        ensures
            r == Self::native(),
            r.value() == NATIVE_MODULUS,
    {
        CiphertextModulus { modulus: NATIVE_MODULUS }
    }

    /// A modulus of the given value; `None` unless it lies between 2 and 2^64.
    pub fn try_new(modulus: u128) -> (r: Option<Self>)
        ensures
            r is Some <==> 2 <= modulus <= NATIVE_MODULUS,
            r matches Some(m) ==> m.value() == modulus,
    {
        if 2 <= modulus && modulus <= NATIVE_MODULUS {
            Some(CiphertextModulus { modulus })
        } else {
            None
        }
    }

    /// The modulus, as a number.
    pub fn get(&self) -> (r: u128)
        ensures
            r == self.value(),
            2 <= r <= NATIVE_MODULUS,
    {
        proof {
            use_type_invariant(self);
        }
        self.modulus
    }

    /// Whether this is the native modulus 2^64.
    pub fn is_native_modulus(&self) -> (r: bool)
        ensures
            r == (self.value() == NATIVE_MODULUS),
    {
        self.modulus == NATIVE_MODULUS
    }
}

} // verus!
