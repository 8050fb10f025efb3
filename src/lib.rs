//! Cryptographic parameters for homomorphic evaluation of small-integer circuits: the
//! parameter records, the configuration handle that unifies them, and the lookup of a
//! vetted preset from a desired plaintext capacity.

pub mod commons;
pub mod parameter_set;
pub mod parameters;
pub mod presets;
pub mod resolver;
pub mod wopbs;

pub use commons::{
    CiphertextModulus, DecompositionBaseLog, DecompositionLevelCount, GlweDimension, LweDimension,
    PolynomialSize, StandardDev,
};
pub use parameter_set::{
    MismatchedFields, ParameterSetError, ShortintParameterSet, ShortintParameterSetInner,
};
pub use parameters::{CarryModulus, EncryptionKeyChoice, MessageModulus, PBSOrder, PBSParameters};
pub use resolver::{
    all_parameter_vec, bivariate_pbs_compliant_parameter_set_vec,
    find_parameters_from_message_and_carry, get_parameters_from_message_and_carry, rescale_space,
};
pub use wopbs::WopbsParameters;
