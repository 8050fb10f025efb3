//! The configuration handle: one type over the three shapes of a parameter configuration,
//! with a validated constructor for the combined shape.

use vstd::prelude::*;

use crate::commons::{
    CiphertextModulus, DecompositionBaseLog, DecompositionLevelCount, GlweDimension, LweDimension,
    PolynomialSize, StandardDev,
};
use crate::parameters::{CarryModulus, EncryptionKeyChoice, MessageModulus, PBSParameters};
use crate::wopbs::WopbsParameters;

verus! {

/// The shape of a configuration: bootstrap parameters only, extended-operation parameters
/// only, or both.
///
/// A shape is a plain value and may hold two records that disagree; a
/// `ShortintParameterSet` only ever holds a coherent one.
#[derive(Debug, Clone, Copy, PartialEq, Eq, Structural)]
pub enum ShortintParameterSetInner {
    PBSOnly(PBSParameters),
    WopbsOnly(WopbsParameters),
    PBSAndWopbs(PBSParameters, WopbsParameters),
}

/// Whether the moduli of a bootstrap record and an extended-operation record agree.
pub open spec fn moduli_match(pbs: PBSParameters, wopbs: WopbsParameters) -> bool {
    &&& pbs.carry_modulus == wopbs.carry_modulus
    &&& pbs.message_modulus == wopbs.message_modulus
    &&& pbs.ciphertext_modulus == wopbs.ciphertext_modulus
}

/// Whether a bootstrap record and an extended-operation record agree on every field that
/// they share: the three moduli and the encryption key choice.
pub open spec fn compatible(pbs: PBSParameters, wopbs: WopbsParameters) -> bool {
    moduli_match(pbs, wopbs) && pbs.encryption_key_choice == wopbs.encryption_key_choice
}

impl ShortintParameterSetInner {
    /// Whether the shape is `PBSOnly`.
    pub fn pbs_only(&self) -> (r: bool)
        ensures
            r == (*self is PBSOnly),
    {
        matches!(self, ShortintParameterSetInner::PBSOnly(_))
    }

    /// Whether the shape is `WopbsOnly`.
    pub fn wopbs_only(&self) -> (r: bool)
        ensures
            r == (*self is WopbsOnly),
    {
        matches!(self, ShortintParameterSetInner::WopbsOnly(_))
    }

    /// Whether the shape is `PBSAndWopbs`.
    pub fn pbs_and_wopbs(&self) -> (r: bool)
        ensures
            r == (*self is PBSAndWopbs),
    {
        matches!(self, ShortintParameterSetInner::PBSAndWopbs(_, _))
    }

    /// The bootstrap record, where the shape holds one.
    pub open spec fn pbs_params(self) -> Option<PBSParameters> {
        match self {
            ShortintParameterSetInner::PBSOnly(p) => Some(p),
            ShortintParameterSetInner::WopbsOnly(_) => None,
            ShortintParameterSetInner::PBSAndWopbs(p, _) => Some(p),
        }
    }

    /// The extended-operation record, where the shape holds one.
    pub open spec fn wopbs_params(self) -> Option<WopbsParameters> {
        match self {
            ShortintParameterSetInner::PBSOnly(_) => None,
            ShortintParameterSetInner::WopbsOnly(w) => Some(w),
            ShortintParameterSetInner::PBSAndWopbs(_, w) => Some(w),
        }
    }

    /// A combined shape holds two records that agree on their shared fields.
    pub open spec fn is_coherent(self) -> bool {
        match self {
            ShortintParameterSetInner::PBSAndWopbs(p, w) => compatible(p, w),
            _ => true,
        }
    }
}

/// The class of shared fields on which two records disagree.
#[derive(Debug, Clone, Copy, PartialEq, Eq, Structural)]
pub enum MismatchedFields {
    /// The message, carry or ciphertext moduli differ.
    Moduli,
    /// The moduli agree, and the encryption key choices differ.
    EncryptionKeyChoice,
}

/// Why a configuration could not be built.
#[derive(Debug, Clone, Copy, PartialEq, Eq, Structural)]
pub enum ParameterSetError {
    /// A bootstrap record and an extended-operation record disagree on a shared field.
    IncompatibleParameters(MismatchedFields),
}

/// The outcome of combining a bootstrap record with an extended-operation record.
pub open spec fn combined(pbs: PBSParameters, wopbs: WopbsParameters) -> Result<
    ShortintParameterSetInner,
    ParameterSetError,
> {
    if !moduli_match(pbs, wopbs) {
        Err(ParameterSetError::IncompatibleParameters(MismatchedFields::Moduli))
    } else if pbs.encryption_key_choice != wopbs.encryption_key_choice {
        Err(ParameterSetError::IncompatibleParameters(MismatchedFields::EncryptionKeyChoice))
    } else {
        Ok(ShortintParameterSetInner::PBSAndWopbs(pbs, wopbs))
    }
}

/// A parameter configuration: bootstrap parameters, extended-operation parameters, or both.
///
/// A configuration that holds both records only exists when they agree on their moduli and
/// encryption key choice, so every shared field reads the same from either record.
#[derive(Debug, Clone, Copy, PartialEq, Eq, Structural)]
pub struct ShortintParameterSet {
    inner: ShortintParameterSetInner,
}

impl View for ShortintParameterSet {
    type V = ShortintParameterSetInner;

    closed spec fn view(&self) -> ShortintParameterSetInner {
        self.inner
    }
}

impl ShortintParameterSet {
    #[verifier::type_invariant]
    spec fn coherent(self) -> bool {
        self.inner.is_coherent()
    }

    /// The configuration that holds bootstrap parameters only.
    pub fn new_pbs_param_set(params: PBSParameters) -> (r: Self)
        ensures
            r@ == ShortintParameterSetInner::PBSOnly(params),
    {
        ShortintParameterSet { inner: ShortintParameterSetInner::PBSOnly(params) }
    }

    /// The configuration that holds extended-operation parameters only.
    pub fn new_wopbs_param_set(params: WopbsParameters) -> (r: Self)
        ensures
            r@ == ShortintParameterSetInner::WopbsOnly(params),
    {
        ShortintParameterSet { inner: ShortintParameterSetInner::WopbsOnly(params) }
    }

    /// The configuration that holds both records, provided they agree on their message,
    /// carry and ciphertext moduli and on their encryption key choice.
    ///
    /// A disagreement on the moduli is reported before one on the key choice.
    pub fn try_new_pbs_and_wopbs_param_set(params: (PBSParameters, WopbsParameters)) -> (r:
        Result<Self, ParameterSetError>)
        ensures
            r is Ok <==> compatible(params.0, params.1),
            match r {
                Ok(s) => combined(params.0, params.1) == Ok::<
                    ShortintParameterSetInner,
                    ParameterSetError,
                >(s@),
                Err(e) => combined(params.0, params.1) == Err::<
                    ShortintParameterSetInner,
                    ParameterSetError,
                >(e),
            },
    {
        let (pbs_params, wopbs_params) = params;
        if pbs_params.carry_modulus != wopbs_params.carry_modulus
            || pbs_params.message_modulus != wopbs_params.message_modulus
            || pbs_params.ciphertext_modulus != wopbs_params.ciphertext_modulus
        {
            return Err(ParameterSetError::IncompatibleParameters(MismatchedFields::Moduli));
        }
        if pbs_params.encryption_key_choice != wopbs_params.encryption_key_choice {
            return Err(
                ParameterSetError::IncompatibleParameters(MismatchedFields::EncryptionKeyChoice),
            );
        }
        Ok(
            ShortintParameterSet {
                inner: ShortintParameterSetInner::PBSAndWopbs(pbs_params, wopbs_params),
            },
        )
    }

    /// The bootstrap record, if the configuration holds one.
    pub fn pbs_parameters(&self) -> (r: Option<PBSParameters>)
        ensures
            r == self@.pbs_params(),
    {
        match self.inner {
            ShortintParameterSetInner::PBSOnly(params) => Some(params),
            ShortintParameterSetInner::WopbsOnly(_) => None,
            ShortintParameterSetInner::PBSAndWopbs(params, _) => Some(params),
        }
    }

    /// The extended-operation record, if the configuration holds one.
    pub fn wopbs_parameters(&self) -> (r: Option<WopbsParameters>)
        ensures
            r == self@.wopbs_params(),
    {
        match self.inner {
            ShortintParameterSetInner::PBSOnly(_) => None,
            ShortintParameterSetInner::WopbsOnly(params) => Some(params),
            ShortintParameterSetInner::PBSAndWopbs(_, params) => Some(params),
        }
    }

    /// The LWE dimension, read from the bootstrap record where the configuration holds one.
    pub fn lwe_dimension(&self) -> (r: LweDimension)
        ensures
            r == match self@ {
                ShortintParameterSetInner::PBSOnly(p) => p.lwe_dimension,
                ShortintParameterSetInner::WopbsOnly(w) => w.lwe_dimension,
                ShortintParameterSetInner::PBSAndWopbs(p, _) => p.lwe_dimension,
            },
    {
        match self.inner {
            ShortintParameterSetInner::PBSOnly(params) => params.lwe_dimension,
            ShortintParameterSetInner::WopbsOnly(params) => params.lwe_dimension,
            ShortintParameterSetInner::PBSAndWopbs(params, _) => params.lwe_dimension,
        }
    }

    /// The GLWE dimension, read from the bootstrap record where the configuration holds one.
    pub fn glwe_dimension(&self) -> (r: GlweDimension)
        ensures
            r == match self@ {
                ShortintParameterSetInner::PBSOnly(p) => p.glwe_dimension,
                ShortintParameterSetInner::WopbsOnly(w) => w.glwe_dimension,
                ShortintParameterSetInner::PBSAndWopbs(p, _) => p.glwe_dimension,
            },
    {
        match self.inner {
            ShortintParameterSetInner::PBSOnly(params) => params.glwe_dimension,
            ShortintParameterSetInner::WopbsOnly(params) => params.glwe_dimension,
            ShortintParameterSetInner::PBSAndWopbs(params, _) => params.glwe_dimension,
        }
    }

    /// The polynomial size, read from the bootstrap record where the configuration holds one.
    pub fn polynomial_size(&self) -> (r: PolynomialSize)
        ensures
            r == match self@ {
                ShortintParameterSetInner::PBSOnly(p) => p.polynomial_size,
                ShortintParameterSetInner::WopbsOnly(w) => w.polynomial_size,
                ShortintParameterSetInner::PBSAndWopbs(p, _) => p.polynomial_size,
            },
    {
        match self.inner {
            ShortintParameterSetInner::PBSOnly(params) => params.polynomial_size,
            ShortintParameterSetInner::WopbsOnly(params) => params.polynomial_size,
            ShortintParameterSetInner::PBSAndWopbs(params, _) => params.polynomial_size,
        }
    }

    /// The standard deviation of the LWE noise, read from the bootstrap record where the configuration holds one.
    pub fn lwe_modular_std_dev(&self) -> (r: StandardDev)
        ensures
            r == match self@ {
                ShortintParameterSetInner::PBSOnly(p) => p.lwe_modular_std_dev,
                ShortintParameterSetInner::WopbsOnly(w) => w.lwe_modular_std_dev,
                ShortintParameterSetInner::PBSAndWopbs(p, _) => p.lwe_modular_std_dev,
            },
    {
        match self.inner {
            ShortintParameterSetInner::PBSOnly(params) => params.lwe_modular_std_dev,
            ShortintParameterSetInner::WopbsOnly(params) => params.lwe_modular_std_dev,
            ShortintParameterSetInner::PBSAndWopbs(params, _) => params.lwe_modular_std_dev,
        }
    }

    /// The standard deviation of the GLWE noise, read from the bootstrap record where the configuration holds one.
    pub fn glwe_modular_std_dev(&self) -> (r: StandardDev)
        ensures
            r == match self@ {
                ShortintParameterSetInner::PBSOnly(p) => p.glwe_modular_std_dev,
                ShortintParameterSetInner::WopbsOnly(w) => w.glwe_modular_std_dev,
                ShortintParameterSetInner::PBSAndWopbs(p, _) => p.glwe_modular_std_dev,
            },
    {
        match self.inner {
            ShortintParameterSetInner::PBSOnly(params) => params.glwe_modular_std_dev,
            ShortintParameterSetInner::WopbsOnly(params) => params.glwe_modular_std_dev,
            ShortintParameterSetInner::PBSAndWopbs(params, _) => params.glwe_modular_std_dev,
        }
    }

    /// The base logarithm of the bootstrap decomposition, read from the bootstrap record where the configuration holds one.
    pub fn pbs_base_log(&self) -> (r: DecompositionBaseLog)
        ensures
            r == match self@ {
                ShortintParameterSetInner::PBSOnly(p) => p.pbs_base_log,
                ShortintParameterSetInner::WopbsOnly(w) => w.pbs_base_log,
                ShortintParameterSetInner::PBSAndWopbs(p, _) => p.pbs_base_log,
            },
    {
        match self.inner {
            ShortintParameterSetInner::PBSOnly(params) => params.pbs_base_log,
            ShortintParameterSetInner::WopbsOnly(params) => params.pbs_base_log,
            ShortintParameterSetInner::PBSAndWopbs(params, _) => params.pbs_base_log,
        }
    }

    /// The level count of the bootstrap decomposition, read from the bootstrap record where the configuration holds one.
    pub fn pbs_level(&self) -> (r: DecompositionLevelCount)
        ensures
            r == match self@ {
                ShortintParameterSetInner::PBSOnly(p) => p.pbs_level,
                ShortintParameterSetInner::WopbsOnly(w) => w.pbs_level,
                ShortintParameterSetInner::PBSAndWopbs(p, _) => p.pbs_level,
            },
    {
        match self.inner {
            ShortintParameterSetInner::PBSOnly(params) => params.pbs_level,
            ShortintParameterSetInner::WopbsOnly(params) => params.pbs_level,
            ShortintParameterSetInner::PBSAndWopbs(params, _) => params.pbs_level,
        }
    }

    /// The base logarithm of the key-switch decomposition, read from the bootstrap record where the configuration holds one.
    pub fn ks_base_log(&self) -> (r: DecompositionBaseLog)
        ensures
            r == match self@ {
                ShortintParameterSetInner::PBSOnly(p) => p.ks_base_log,
                ShortintParameterSetInner::WopbsOnly(w) => w.ks_base_log,
                ShortintParameterSetInner::PBSAndWopbs(p, _) => p.ks_base_log,
            },
    {
        match self.inner {
            ShortintParameterSetInner::PBSOnly(params) => params.ks_base_log,
            ShortintParameterSetInner::WopbsOnly(params) => params.ks_base_log,
            ShortintParameterSetInner::PBSAndWopbs(params, _) => params.ks_base_log,
        }
    }

    /// The level count of the key-switch decomposition, read from the bootstrap record where the configuration holds one.
    pub fn ks_level(&self) -> (r: DecompositionLevelCount)
        ensures
            r == match self@ {
                ShortintParameterSetInner::PBSOnly(p) => p.ks_level,
                ShortintParameterSetInner::WopbsOnly(w) => w.ks_level,
                ShortintParameterSetInner::PBSAndWopbs(p, _) => p.ks_level,
            },
    {
        match self.inner {
            ShortintParameterSetInner::PBSOnly(params) => params.ks_level,
            ShortintParameterSetInner::WopbsOnly(params) => params.ks_level,
            ShortintParameterSetInner::PBSAndWopbs(params, _) => params.ks_level,
        }
    }

    /// The message modulus; where the configuration holds both records, they agree on it.
    pub fn message_modulus(&self) -> (r: MessageModulus)
        ensures
            r == match self@ {
                ShortintParameterSetInner::PBSOnly(p) => p.message_modulus,
                ShortintParameterSetInner::WopbsOnly(w) => w.message_modulus,
                ShortintParameterSetInner::PBSAndWopbs(p, _) => p.message_modulus,
            },
            self@ matches ShortintParameterSetInner::PBSAndWopbs(_, w) ==> r == w.message_modulus,
    {
        proof {
            use_type_invariant(self);
        }
        match self.inner {
            ShortintParameterSetInner::PBSOnly(params) => params.message_modulus,
            ShortintParameterSetInner::WopbsOnly(params) => params.message_modulus,
            ShortintParameterSetInner::PBSAndWopbs(params, _) => params.message_modulus,
        }
    }

    /// The carry modulus; where the configuration holds both records, they agree on it.
    pub fn carry_modulus(&self) -> (r: CarryModulus)
        ensures
            r == match self@ {
                ShortintParameterSetInner::PBSOnly(p) => p.carry_modulus,
                ShortintParameterSetInner::WopbsOnly(w) => w.carry_modulus,
                ShortintParameterSetInner::PBSAndWopbs(p, _) => p.carry_modulus,
            },
            self@ matches ShortintParameterSetInner::PBSAndWopbs(_, w) ==> r == w.carry_modulus,
    {
        proof {
            use_type_invariant(self);
        }
        match self.inner {
            ShortintParameterSetInner::PBSOnly(params) => params.carry_modulus,
            ShortintParameterSetInner::WopbsOnly(params) => params.carry_modulus,
            ShortintParameterSetInner::PBSAndWopbs(params, _) => params.carry_modulus,
        }
    }

    /// The ciphertext modulus; where the configuration holds both records, they agree on it.
    pub fn ciphertext_modulus(&self) -> (r: CiphertextModulus)
        ensures
            r == match self@ {
                ShortintParameterSetInner::PBSOnly(p) => p.ciphertext_modulus,
                ShortintParameterSetInner::WopbsOnly(w) => w.ciphertext_modulus,
                ShortintParameterSetInner::PBSAndWopbs(p, _) => p.ciphertext_modulus,
            },
            self@ matches ShortintParameterSetInner::PBSAndWopbs(_, w) ==> r == w.ciphertext_modulus,
    {
        proof {
            use_type_invariant(self);
        }
        match self.inner {
            ShortintParameterSetInner::PBSOnly(params) => params.ciphertext_modulus,
            ShortintParameterSetInner::WopbsOnly(params) => params.ciphertext_modulus,
            ShortintParameterSetInner::PBSAndWopbs(params, _) => params.ciphertext_modulus,
        }
    }

    /// The encryption key choice; where the configuration holds both records, they agree on it.
    pub fn encryption_key_choice(&self) -> (r: EncryptionKeyChoice)
        ensures
            r == match self@ {
                ShortintParameterSetInner::PBSOnly(p) => p.encryption_key_choice,
                ShortintParameterSetInner::WopbsOnly(w) => w.encryption_key_choice,
                ShortintParameterSetInner::PBSAndWopbs(p, _) => p.encryption_key_choice,
            },
            self@ matches ShortintParameterSetInner::PBSAndWopbs(_, w) ==> r == w.encryption_key_choice,
    {
        proof {
            use_type_invariant(self);
        }
        match self.inner {
            ShortintParameterSetInner::PBSOnly(params) => params.encryption_key_choice,
            ShortintParameterSetInner::WopbsOnly(params) => params.encryption_key_choice,
            ShortintParameterSetInner::PBSAndWopbs(params, _) => params.encryption_key_choice,
        }
    }

    /// Whether the configuration holds bootstrap parameters only.
    pub fn pbs_only(&self) -> (r: bool)
        ensures
            r == (self@ is PBSOnly),
    {
        self.inner.pbs_only()
    }

    /// Whether the configuration holds extended-operation parameters only.
    pub fn wopbs_only(&self) -> (r: bool)
        ensures
            r == (self@ is WopbsOnly),
    {
        self.inner.wopbs_only()
    }

    /// Whether the configuration holds both records.
    pub fn pbs_and_wopbs(&self) -> (r: bool)
        ensures
            r == (self@ is PBSAndWopbs),
    {
        self.inner.pbs_and_wopbs()
    }
}

impl From<PBSParameters> for ShortintParameterSet {
    fn from(value: PBSParameters) -> (r: Self) {
        Self::new_pbs_param_set(value)
    }
}

impl vstd::std_specs::convert::FromSpecImpl<PBSParameters> for ShortintParameterSet {
    open spec fn obeys_from_spec() -> bool {
        true
    }

    closed spec fn from_spec(v: PBSParameters) -> ShortintParameterSet {
        ShortintParameterSet { inner: ShortintParameterSetInner::PBSOnly(v) }
    }
}

impl From<WopbsParameters> for ShortintParameterSet {
    fn from(value: WopbsParameters) -> (r: Self) {
        Self::new_wopbs_param_set(value)
    }
}

impl vstd::std_specs::convert::FromSpecImpl<WopbsParameters> for ShortintParameterSet {
    open spec fn obeys_from_spec() -> bool {
        true
    }

    closed spec fn from_spec(v: WopbsParameters) -> ShortintParameterSet {
        ShortintParameterSet { inner: ShortintParameterSetInner::WopbsOnly(v) }
    }
}

impl TryFrom<(PBSParameters, WopbsParameters)> for ShortintParameterSet {
    type Error = ParameterSetError;

    fn try_from(value: (PBSParameters, WopbsParameters)) -> (r: Result<Self, Self::Error>) {
        ShortintParameterSet::try_new_pbs_and_wopbs_param_set(value)
    }
}

impl vstd::std_specs::convert::TryFromSpecImpl<(PBSParameters, WopbsParameters)> for
    ShortintParameterSet {
    open spec fn obeys_try_from_spec() -> bool {
        true
    }

    closed spec fn try_from_spec(v: (PBSParameters, WopbsParameters)) -> Result<
        ShortintParameterSet,
        ParameterSetError,
    > {
        match combined(v.0, v.1) {
            Ok(inner) => Ok(ShortintParameterSet { inner }),
            Err(e) => Err(e),
        }
    }
}

/// Two records that agree on every shared field combine, and the configuration built from
/// them hands each of them back unchanged.
pub proof fn lemma_combine_compatible(pbs: PBSParameters, wopbs: WopbsParameters)
    requires
        compatible(pbs, wopbs),
    ensures
        combined(pbs, wopbs) matches Ok(inner) && inner.pbs_params() == Some(pbs)
            && inner.wopbs_params() == Some(wopbs),
{
}

/// Two records that disagree on at least one shared field do not combine: the outcome is an
/// incompatibility error, and no configuration is built.
pub proof fn lemma_combine_incompatible(pbs: PBSParameters, wopbs: WopbsParameters)
    requires
        pbs.message_modulus != wopbs.message_modulus || pbs.carry_modulus != wopbs.carry_modulus
            || pbs.ciphertext_modulus != wopbs.ciphertext_modulus || pbs.encryption_key_choice
            != wopbs.encryption_key_choice,
    ensures
        combined(pbs, wopbs) matches Err(ParameterSetError::IncompatibleParameters(_)),
{
}

/// Every configuration has exactly one of the three shapes.
pub proof fn lemma_exactly_one_shape(s: ShortintParameterSetInner)
    ensures
        s is PBSOnly || s is WopbsOnly || s is PBSAndWopbs,
        !(s is PBSOnly && s is WopbsOnly),
        !(s is PBSOnly && s is PBSAndWopbs),
        !(s is WopbsOnly && s is PBSAndWopbs),
{
}

/// Wrapping a bootstrap record alone and projecting it back gives the same record, and no
/// extended-operation record.
pub proof fn lemma_pbs_round_trip(params: PBSParameters)
    ensures
        ShortintParameterSetInner::PBSOnly(params).pbs_params() == Some(params),
        ShortintParameterSetInner::PBSOnly(params).wopbs_params() is None,
{
}

} // verus!
