//! The bootstrap parameter record and its plaintext encoding.

use vstd::prelude::*;

use crate::commons::{
    CiphertextModulus, DecompositionBaseLog, DecompositionLevelCount, GlweDimension, LweDimension,
    PolynomialSize, StandardDev,
};

verus! {

/// The choice of the secret key that encrypts input ciphertexts.
///
/// * `Big`: the big LWE key derived from the GLWE key. Faster, but the public key can be very
///   large. A refresh or a table lookup computes the bootstrap first, then a key switch.
/// * `Small`: the small LWE key. Slower, with public keys of manageable size. A refresh or a
///   table lookup computes the key switch first, then a bootstrap.
#[derive(Debug, Clone, Copy, PartialEq, Eq, Structural)]
pub enum EncryptionKeyChoice {
    Big,
    Small,
}

/// The order in which a bootstrap and a key switch run in a refresh or a table lookup.
#[derive(Debug, Clone, Copy, PartialEq, Eq, Structural)]
pub enum PBSOrder {
    /// The bootstrap runs first, then the key switch.
    BootstrapKeyswitch,
    /// The key switch runs first, then the bootstrap.
    KeyswitchBootstrap,
}

/// The order of operations that a key choice selects.
pub open spec fn order_of(choice: EncryptionKeyChoice) -> PBSOrder {
    match choice {
        EncryptionKeyChoice::Big => PBSOrder::BootstrapKeyswitch,
        EncryptionKeyChoice::Small => PBSOrder::KeyswitchBootstrap,
    }
}

impl EncryptionKeyChoice {
    /// The order of operations for ciphertexts encrypted under this key.
    pub fn pbs_order(self) -> (r: PBSOrder)
        ensures
            r == order_of(self),
    {
        match self {
            EncryptionKeyChoice::Big => PBSOrder::BootstrapKeyswitch,
            EncryptionKeyChoice::Small => PBSOrder::KeyswitchBootstrap,
        }
    }
}

impl From<EncryptionKeyChoice> for PBSOrder {
    fn from(value: EncryptionKeyChoice) -> (r: Self) {
        value.pbs_order()
    }
}

impl vstd::std_specs::convert::FromSpecImpl<EncryptionKeyChoice> for PBSOrder {
    open spec fn obeys_from_spec() -> bool {
        true
    }

    open spec fn from_spec(v: EncryptionKeyChoice) -> PBSOrder {
        order_of(v)
    }
}

/// The key choice that selects an order of operations: the inverse of `order_of`.
pub open spec fn key_choice_of(order: PBSOrder) -> EncryptionKeyChoice {
    match order {
        PBSOrder::BootstrapKeyswitch => EncryptionKeyChoice::Big,
        PBSOrder::KeyswitchBootstrap => EncryptionKeyChoice::Small,
    }
}

/// The mapping from key choices to orders is a bijection: each key choice gives one order,
/// distinct choices give distinct orders, and every order is given by some choice, so no
/// third order is ever produced.
pub proof fn lemma_order_of_bijective()
    ensures
        forall|c: EncryptionKeyChoice| #[trigger] key_choice_of(order_of(c)) == c,
        forall|o: PBSOrder| #[trigger] order_of(key_choice_of(o)) == o,
        forall|a: EncryptionKeyChoice, b: EncryptionKeyChoice|
            #[trigger] order_of(a) == #[trigger] order_of(b) ==> a == b,
{
}

/// The size of the message space of a plaintext.
#[derive(Debug, Clone, Copy, PartialEq, Eq, Structural)]
pub struct MessageModulus(pub usize);

/// The size of the carry space of a plaintext.
#[derive(Debug, Clone, Copy, PartialEq, Eq, Structural)]
pub struct CarryModulus(pub usize);

/// The parameters of one bootstrap and key-switch pipeline for homomorphic evaluation of
/// small-integer circuits.
#[derive(Debug, Clone, Copy, PartialEq, Eq, Structural)]
pub struct PBSParameters {
    pub lwe_dimension: LweDimension,
    pub glwe_dimension: GlweDimension,
    pub polynomial_size: PolynomialSize,
    pub lwe_modular_std_dev: StandardDev,
    pub glwe_modular_std_dev: StandardDev,
    pub pbs_base_log: DecompositionBaseLog,
    pub pbs_level: DecompositionLevelCount,
    pub ks_base_log: DecompositionBaseLog,
    pub ks_level: DecompositionLevelCount,
    pub message_modulus: MessageModulus,
    pub carry_modulus: CarryModulus,
    pub ciphertext_modulus: CiphertextModulus,
    pub encryption_key_choice: EncryptionKeyChoice,
}

impl PBSParameters {
    /// Builds a record from its fields.
    ///
    /// Parameters that are not fixed with care give incorrect and insecure computations:
    /// unless their security and correctness have been established, use a vetted preset.
    #[allow(clippy::too_many_arguments)]
    pub fn new(
        lwe_dimension: LweDimension,
        glwe_dimension: GlweDimension,
        polynomial_size: PolynomialSize,
        lwe_modular_std_dev: StandardDev,
        glwe_modular_std_dev: StandardDev,
        pbs_base_log: DecompositionBaseLog,
        pbs_level: DecompositionLevelCount,
        ks_base_log: DecompositionBaseLog,
        ks_level: DecompositionLevelCount,
        message_modulus: MessageModulus,
        carry_modulus: CarryModulus,
        ciphertext_modulus: CiphertextModulus,
        encryption_key_choice: EncryptionKeyChoice,
    ) -> (r: PBSParameters)
        ensures
            r == (PBSParameters {
                lwe_dimension,
                glwe_dimension,
                polynomial_size,
                lwe_modular_std_dev,
                glwe_modular_std_dev,
                pbs_base_log,
                pbs_level,
                ks_base_log,
                ks_level,
                message_modulus,
                carry_modulus,
                ciphertext_modulus,
                encryption_key_choice,
            }),
    {
        PBSParameters {
            lwe_dimension,
            glwe_dimension,
            polynomial_size,
            lwe_modular_std_dev,
            glwe_modular_std_dev,
            pbs_base_log,
            pbs_level,
            ks_base_log,
            ks_level,
            message_modulus,
            carry_modulus,
            ciphertext_modulus,
            encryption_key_choice,
        }
    }
}

} // verus!
