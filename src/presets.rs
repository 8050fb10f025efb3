//! The catalog of vetted parameter presets.
//!
//! Each preset guarantees 128 bits of security and a failure probability below 2^-40 for a
//! bootstrap. `param_message_x_carry_y` encodes the message over x bits and the carry over y
//! bits: its message modulus is 2^x and its carry modulus 2^y. The standard deviations are
//! given by the bit patterns of their binary64 encodings.

use vstd::prelude::*;

use crate::commons::{
    CiphertextModulus, DecompositionBaseLog, DecompositionLevelCount, GlweDimension, LweDimension,
    PolynomialSize, StandardDev,
};
use crate::parameters::{CarryModulus, EncryptionKeyChoice, MessageModulus, PBSParameters};

verus! {

/// The record of a preset, under the native ciphertext modulus.
pub open spec fn spec_preset(
    lwe_dimension: usize,
    glwe_dimension: usize,
    polynomial_size: usize,
    lwe_std_dev_bits: u64,
    glwe_std_dev_bits: u64,
    pbs_base_log: usize,
    pbs_level: usize,
    ks_base_log: usize,
    ks_level: usize,
    message_modulus: usize,
    carry_modulus: usize,
    encryption_key_choice: EncryptionKeyChoice,
) -> PBSParameters {
    PBSParameters {
        lwe_dimension: LweDimension(lwe_dimension),
        glwe_dimension: GlweDimension(glwe_dimension),
        polynomial_size: PolynomialSize(polynomial_size),
        lwe_modular_std_dev: StandardDev(lwe_std_dev_bits),
        glwe_modular_std_dev: StandardDev(glwe_std_dev_bits),
        pbs_base_log: DecompositionBaseLog(pbs_base_log),
        pbs_level: DecompositionLevelCount(pbs_level),
        ks_base_log: DecompositionBaseLog(ks_base_log),
        ks_level: DecompositionLevelCount(ks_level),
        message_modulus: MessageModulus(message_modulus),
        carry_modulus: CarryModulus(carry_modulus),
        ciphertext_modulus: CiphertextModulus::native(),
        encryption_key_choice,
    }
}

#[allow(clippy::too_many_arguments)]
fn preset(
    lwe_dimension: usize,
    glwe_dimension: usize,
    polynomial_size: usize,
    lwe_std_dev_bits: u64,
    glwe_std_dev_bits: u64,
    pbs_base_log: usize,
    pbs_level: usize,
    ks_base_log: usize,
    ks_level: usize,
    message_modulus: usize,
    carry_modulus: usize,
    encryption_key_choice: EncryptionKeyChoice,
) -> (r: PBSParameters)
    ensures
        r == spec_preset(
            lwe_dimension,
            glwe_dimension,
            polynomial_size,
            lwe_std_dev_bits,
            glwe_std_dev_bits,
            pbs_base_log,
            pbs_level,
            ks_base_log,
            ks_level,
            message_modulus,
            carry_modulus,
            encryption_key_choice,
        ),
{
    PBSParameters {
        lwe_dimension: LweDimension(lwe_dimension),
        glwe_dimension: GlweDimension(glwe_dimension),
        polynomial_size: PolynomialSize(polynomial_size),
        lwe_modular_std_dev: StandardDev(lwe_std_dev_bits),
        glwe_modular_std_dev: StandardDev(glwe_std_dev_bits),
        pbs_base_log: DecompositionBaseLog(pbs_base_log),
        pbs_level: DecompositionLevelCount(pbs_level),
        ks_base_log: DecompositionBaseLog(ks_base_log),
        ks_level: DecompositionLevelCount(ks_level),
        message_modulus: MessageModulus(message_modulus),
        carry_modulus: CarryModulus(carry_modulus),
        ciphertext_modulus: CiphertextModulus::new_native(),
        encryption_key_choice,
    }
}

/// Message over 1 bit, carry over 0 bits, inputs encrypted under the big key.
pub open spec fn spec_param_message_1_carry_0() -> PBSParameters {
    spec_preset(678, 5, 256, 0x3ef7eb0aa5691596, 0x3df9b585881ea62c, 15, 1, 5, 2, 2, 1, EncryptionKeyChoice::Big)
}

/// Message over 1 bit, carry over 0 bits, inputs encrypted under the big key.
#[verifier::when_used_as_spec(spec_param_message_1_carry_0)]
pub fn param_message_1_carry_0() -> (r: PBSParameters)
    ensures
        r == spec_param_message_1_carry_0(),
{
    preset(678, 5, 256, 0x3ef7eb0aa5691596, 0x3df9b585881ea62c, 15, 1, 5, 2, 2, 1, EncryptionKeyChoice::Big)
}

/// Message over 1 bit, carry over 1 bit, inputs encrypted under the big key.
pub open spec fn spec_param_message_1_carry_1() -> PBSParameters {
    spec_preset(684, 3, 512, 0x3ef56e3dff978c3f, 0x3d8e5e69cc6845d4, 18, 1, 4, 3, 2, 2, EncryptionKeyChoice::Big)
}

/// Message over 1 bit, carry over 1 bit, inputs encrypted under the big key.
#[verifier::when_used_as_spec(spec_param_message_1_carry_1)]
pub fn param_message_1_carry_1() -> (r: PBSParameters)
    ensures
        r == spec_param_message_1_carry_1(),
{
    preset(684, 3, 512, 0x3ef56e3dff978c3f, 0x3d8e5e69cc6845d4, 18, 1, 4, 3, 2, 2, EncryptionKeyChoice::Big)
}

/// Message over 2 bits, carry over 0 bits, inputs encrypted under the big key.
pub open spec fn spec_param_message_2_carry_0() -> PBSParameters {
    spec_preset(656, 2, 512, 0x3f01e366d435537f, 0x3e65c3aa404be7cb, 8, 2, 3, 4, 4, 1, EncryptionKeyChoice::Big)
}

/// Message over 2 bits, carry over 0 bits, inputs encrypted under the big key.
#[verifier::when_used_as_spec(spec_param_message_2_carry_0)]
pub fn param_message_2_carry_0() -> (r: PBSParameters)
    ensures
        r == spec_param_message_2_carry_0(),
{
    preset(656, 2, 512, 0x3f01e366d435537f, 0x3e65c3aa404be7cb, 8, 2, 3, 4, 4, 1, EncryptionKeyChoice::Big)
}

/// Message over 1 bit, carry over 2 bits, inputs encrypted under the big key.
pub open spec fn spec_param_message_1_carry_2() -> PBSParameters {
    spec_preset(742, 2, 1024, 0x3edda7316ba72dfc, 0x3cb53001d2dbc336, 23, 1, 4, 3, 2, 4, EncryptionKeyChoice::Big)
}

/// Message over 1 bit, carry over 2 bits, inputs encrypted under the big key.
#[verifier::when_used_as_spec(spec_param_message_1_carry_2)]
pub fn param_message_1_carry_2() -> (r: PBSParameters)
    ensures
        r == spec_param_message_1_carry_2(),
{
    preset(742, 2, 1024, 0x3edda7316ba72dfc, 0x3cb53001d2dbc336, 23, 1, 4, 3, 2, 4, EncryptionKeyChoice::Big)
}

/// Message over 2 bits, carry over 1 bit, inputs encrypted under the big key.
pub open spec fn spec_param_message_2_carry_1() -> PBSParameters {
    spec_preset(742, 2, 1024, 0x3edda7316ba72dfc, 0x3cb53001d2dbc336, 23, 1, 4, 3, 4, 2, EncryptionKeyChoice::Big)
}

/// Message over 2 bits, carry over 1 bit, inputs encrypted under the big key.
#[verifier::when_used_as_spec(spec_param_message_2_carry_1)]
pub fn param_message_2_carry_1() -> (r: PBSParameters)
    ensures
        r == spec_param_message_2_carry_1(),
{
    preset(742, 2, 1024, 0x3edda7316ba72dfc, 0x3cb53001d2dbc336, 23, 1, 4, 3, 4, 2, EncryptionKeyChoice::Big)
}

/// Message over 3 bits, carry over 0 bits, inputs encrypted under the big key.
pub open spec fn spec_param_message_3_carry_0() -> PBSParameters {
    spec_preset(742, 2, 1024, 0x3edda7316ba72dfc, 0x3cb53001d2dbc336, 23, 1, 4, 3, 8, 1, EncryptionKeyChoice::Big)
}

/// Message over 3 bits, carry over 0 bits, inputs encrypted under the big key.
#[verifier::when_used_as_spec(spec_param_message_3_carry_0)]
pub fn param_message_3_carry_0() -> (r: PBSParameters)
    ensures
        r == spec_param_message_3_carry_0(),
{
    preset(742, 2, 1024, 0x3edda7316ba72dfc, 0x3cb53001d2dbc336, 23, 1, 4, 3, 8, 1, EncryptionKeyChoice::Big)
}

/// Message over 1 bit, carry over 3 bits, inputs encrypted under the big key.
pub open spec fn spec_param_message_1_carry_3() -> PBSParameters {
    spec_preset(745, 1, 2048, 0x3edc119d550d7cc5, 0x3cb53001d2dbc336, 23, 1, 3, 5, 2, 8, EncryptionKeyChoice::Big)
}

/// Message over 1 bit, carry over 3 bits, inputs encrypted under the big key.
#[verifier::when_used_as_spec(spec_param_message_1_carry_3)]
pub fn param_message_1_carry_3() -> (r: PBSParameters)
    ensures
        r == spec_param_message_1_carry_3(),
{
    preset(745, 1, 2048, 0x3edc119d550d7cc5, 0x3cb53001d2dbc336, 23, 1, 3, 5, 2, 8, EncryptionKeyChoice::Big)
}

/// Message over 2 bits, carry over 2 bits, inputs encrypted under the big key.
pub open spec fn spec_param_message_2_carry_2() -> PBSParameters {
    spec_preset(742, 1, 2048, 0x3edda7316ba72dfc, 0x3cb53001d2dbc336, 23, 1, 3, 5, 4, 4, EncryptionKeyChoice::Big)
}

/// Message over 2 bits, carry over 2 bits, inputs encrypted under the big key.
#[verifier::when_used_as_spec(spec_param_message_2_carry_2)]
pub fn param_message_2_carry_2() -> (r: PBSParameters)
    ensures
        r == spec_param_message_2_carry_2(),
{
    preset(742, 1, 2048, 0x3edda7316ba72dfc, 0x3cb53001d2dbc336, 23, 1, 3, 5, 4, 4, EncryptionKeyChoice::Big)
}

/// Message over 3 bits, carry over 1 bit, inputs encrypted under the big key.
pub open spec fn spec_param_message_3_carry_1() -> PBSParameters {
    spec_preset(742, 1, 2048, 0x3edda7316ba72dfc, 0x3cb53001d2dbc336, 23, 1, 3, 5, 8, 2, EncryptionKeyChoice::Big)
}

/// Message over 3 bits, carry over 1 bit, inputs encrypted under the big key.
#[verifier::when_used_as_spec(spec_param_message_3_carry_1)]
pub fn param_message_3_carry_1() -> (r: PBSParameters)
    ensures
        r == spec_param_message_3_carry_1(),
{
    preset(742, 1, 2048, 0x3edda7316ba72dfc, 0x3cb53001d2dbc336, 23, 1, 3, 5, 8, 2, EncryptionKeyChoice::Big)
}

/// Message over 4 bits, carry over 0 bits, inputs encrypted under the big key.
pub open spec fn spec_param_message_4_carry_0() -> PBSParameters {
    spec_preset(742, 1, 2048, 0x3edda7316ba72dfc, 0x3cb53001d2dbc336, 23, 1, 3, 5, 16, 1, EncryptionKeyChoice::Big)
}

/// Message over 4 bits, carry over 0 bits, inputs encrypted under the big key.
#[verifier::when_used_as_spec(spec_param_message_4_carry_0)]
pub fn param_message_4_carry_0() -> (r: PBSParameters)
    ensures
        r == spec_param_message_4_carry_0(),
{
    preset(742, 1, 2048, 0x3edda7316ba72dfc, 0x3cb53001d2dbc336, 23, 1, 3, 5, 16, 1, EncryptionKeyChoice::Big)
}

/// Message over 1 bit, carry over 4 bits, inputs encrypted under the big key.
pub open spec fn spec_param_message_1_carry_4() -> PBSParameters {
    spec_preset(807, 1, 4096, 0x3ec20c57a7d2922a, 0x3c10000000000000, 15, 2, 3, 5, 2, 16, EncryptionKeyChoice::Big)
}

/// Message over 1 bit, carry over 4 bits, inputs encrypted under the big key.
#[verifier::when_used_as_spec(spec_param_message_1_carry_4)]
pub fn param_message_1_carry_4() -> (r: PBSParameters)
    ensures
        r == spec_param_message_1_carry_4(),
{
    preset(807, 1, 4096, 0x3ec20c57a7d2922a, 0x3c10000000000000, 15, 2, 3, 5, 2, 16, EncryptionKeyChoice::Big)
}

/// Message over 2 bits, carry over 3 bits, inputs encrypted under the big key.
pub open spec fn spec_param_message_2_carry_3() -> PBSParameters {
    spec_preset(856, 1, 4096, 0x3ead71d9f7cf9a54, 0x3c10000000000000, 22, 1, 3, 6, 4, 8, EncryptionKeyChoice::Big)
}

/// Message over 2 bits, carry over 3 bits, inputs encrypted under the big key.
#[verifier::when_used_as_spec(spec_param_message_2_carry_3)]
pub fn param_message_2_carry_3() -> (r: PBSParameters)
    ensures
        r == spec_param_message_2_carry_3(),
{
    preset(856, 1, 4096, 0x3ead71d9f7cf9a54, 0x3c10000000000000, 22, 1, 3, 6, 4, 8, EncryptionKeyChoice::Big)
}

/// Message over 3 bits, carry over 2 bits, inputs encrypted under the big key.
pub open spec fn spec_param_message_3_carry_2() -> PBSParameters {
    spec_preset(812, 1, 4096, 0x3ec0784aa25b8655, 0x3c10000000000000, 22, 1, 3, 5, 8, 4, EncryptionKeyChoice::Big)
}

/// Message over 3 bits, carry over 2 bits, inputs encrypted under the big key.
#[verifier::when_used_as_spec(spec_param_message_3_carry_2)]
pub fn param_message_3_carry_2() -> (r: PBSParameters)
    ensures
        r == spec_param_message_3_carry_2(),
{
    preset(812, 1, 4096, 0x3ec0784aa25b8655, 0x3c10000000000000, 22, 1, 3, 5, 8, 4, EncryptionKeyChoice::Big)
}

/// Message over 4 bits, carry over 1 bit, inputs encrypted under the big key.
pub open spec fn spec_param_message_4_carry_1() -> PBSParameters {
    spec_preset(808, 1, 4096, 0x3ec1b88c24555d17, 0x3c10000000000000, 22, 1, 3, 5, 16, 2, EncryptionKeyChoice::Big)
}

/// Message over 4 bits, carry over 1 bit, inputs encrypted under the big key.
#[verifier::when_used_as_spec(spec_param_message_4_carry_1)]
pub fn param_message_4_carry_1() -> (r: PBSParameters)
    ensures
        r == spec_param_message_4_carry_1(),
{
    preset(808, 1, 4096, 0x3ec1b88c24555d17, 0x3c10000000000000, 22, 1, 3, 5, 16, 2, EncryptionKeyChoice::Big)
}

/// Message over 5 bits, carry over 0 bits, inputs encrypted under the big key.
pub open spec fn spec_param_message_5_carry_0() -> PBSParameters {
    spec_preset(807, 1, 4096, 0x3ec20c57a7d2922a, 0x3c10000000000000, 22, 1, 3, 5, 32, 1, EncryptionKeyChoice::Big)
}

/// Message over 5 bits, carry over 0 bits, inputs encrypted under the big key.
#[verifier::when_used_as_spec(spec_param_message_5_carry_0)]
pub fn param_message_5_carry_0() -> (r: PBSParameters)
    ensures
        r == spec_param_message_5_carry_0(),
{
    preset(807, 1, 4096, 0x3ec20c57a7d2922a, 0x3c10000000000000, 22, 1, 3, 5, 32, 1, EncryptionKeyChoice::Big)
}

/// Message over 1 bit, carry over 5 bits, inputs encrypted under the big key.
pub open spec fn spec_param_message_1_carry_5() -> PBSParameters {
    spec_preset(864, 1, 8192, 0x3ea96f2746231ba0, 0x3c10000000000000, 15, 2, 3, 6, 2, 32, EncryptionKeyChoice::Big)
}

/// Message over 1 bit, carry over 5 bits, inputs encrypted under the big key.
#[verifier::when_used_as_spec(spec_param_message_1_carry_5)]
pub fn param_message_1_carry_5() -> (r: PBSParameters)
    ensures
        r == spec_param_message_1_carry_5(),
{
    preset(864, 1, 8192, 0x3ea96f2746231ba0, 0x3c10000000000000, 15, 2, 3, 6, 2, 32, EncryptionKeyChoice::Big)
}

/// Message over 2 bits, carry over 4 bits, inputs encrypted under the big key.
pub open spec fn spec_param_message_2_carry_4() -> PBSParameters {
    spec_preset(864, 1, 8192, 0x3ea96f2746231ba0, 0x3c10000000000000, 15, 2, 3, 6, 4, 16, EncryptionKeyChoice::Big)
}

/// Message over 2 bits, carry over 4 bits, inputs encrypted under the big key.
#[verifier::when_used_as_spec(spec_param_message_2_carry_4)]
pub fn param_message_2_carry_4() -> (r: PBSParameters)
    ensures
        r == spec_param_message_2_carry_4(),
{
    preset(864, 1, 8192, 0x3ea96f2746231ba0, 0x3c10000000000000, 15, 2, 3, 6, 4, 16, EncryptionKeyChoice::Big)
}

/// Message over 3 bits, carry over 3 bits, inputs encrypted under the big key.
pub open spec fn spec_param_message_3_carry_3() -> PBSParameters {
    spec_preset(864, 1, 8192, 0x3ea96f2746231ba0, 0x3c10000000000000, 15, 2, 3, 6, 8, 8, EncryptionKeyChoice::Big)
}

/// Message over 3 bits, carry over 3 bits, inputs encrypted under the big key.
#[verifier::when_used_as_spec(spec_param_message_3_carry_3)]
pub fn param_message_3_carry_3() -> (r: PBSParameters)
    ensures
        r == spec_param_message_3_carry_3(),
{
    preset(864, 1, 8192, 0x3ea96f2746231ba0, 0x3c10000000000000, 15, 2, 3, 6, 8, 8, EncryptionKeyChoice::Big)
}

/// Message over 4 bits, carry over 2 bits, inputs encrypted under the big key.
pub open spec fn spec_param_message_4_carry_2() -> PBSParameters {
    spec_preset(864, 1, 8192, 0x3ea96f2746231ba0, 0x3c10000000000000, 15, 2, 3, 6, 16, 4, EncryptionKeyChoice::Big)
}

/// Message over 4 bits, carry over 2 bits, inputs encrypted under the big key.
#[verifier::when_used_as_spec(spec_param_message_4_carry_2)]
pub fn param_message_4_carry_2() -> (r: PBSParameters)
    ensures
        r == spec_param_message_4_carry_2(),
{
    preset(864, 1, 8192, 0x3ea96f2746231ba0, 0x3c10000000000000, 15, 2, 3, 6, 16, 4, EncryptionKeyChoice::Big)
}

/// Message over 5 bits, carry over 1 bit, inputs encrypted under the big key.
pub open spec fn spec_param_message_5_carry_1() -> PBSParameters {
    spec_preset(875, 1, 8192, 0x3ea4cbce292e3c28, 0x3c10000000000000, 22, 1, 3, 6, 32, 2, EncryptionKeyChoice::Big)
}

/// Message over 5 bits, carry over 1 bit, inputs encrypted under the big key.
#[verifier::when_used_as_spec(spec_param_message_5_carry_1)]
pub fn param_message_5_carry_1() -> (r: PBSParameters)
    ensures
        r == spec_param_message_5_carry_1(),
{
    preset(875, 1, 8192, 0x3ea4cbce292e3c28, 0x3c10000000000000, 22, 1, 3, 6, 32, 2, EncryptionKeyChoice::Big)
}

/// Message over 6 bits, carry over 0 bits, inputs encrypted under the big key.
pub open spec fn spec_param_message_6_carry_0() -> PBSParameters {
    spec_preset(915, 1, 8192, 0x3e94006688cc6fd8, 0x3c10000000000000, 22, 1, 4, 4, 64, 1, EncryptionKeyChoice::Big)
}

/// Message over 6 bits, carry over 0 bits, inputs encrypted under the big key.
#[verifier::when_used_as_spec(spec_param_message_6_carry_0)]
pub fn param_message_6_carry_0() -> (r: PBSParameters)
    ensures
        r == spec_param_message_6_carry_0(),
{
    preset(915, 1, 8192, 0x3e94006688cc6fd8, 0x3c10000000000000, 22, 1, 4, 4, 64, 1, EncryptionKeyChoice::Big)
}

/// Message over 1 bit, carry over 6 bits, inputs encrypted under the big key.
pub open spec fn spec_param_message_1_carry_6() -> PBSParameters {
    spec_preset(930, 1, 16384, 0x3e8e663795aed519, 0x3c10000000000000, 11, 3, 3, 6, 2, 64, EncryptionKeyChoice::Big)
}

/// Message over 1 bit, carry over 6 bits, inputs encrypted under the big key.
#[verifier::when_used_as_spec(spec_param_message_1_carry_6)]
pub fn param_message_1_carry_6() -> (r: PBSParameters)
    ensures
        r == spec_param_message_1_carry_6(),
{
    preset(930, 1, 16384, 0x3e8e663795aed519, 0x3c10000000000000, 11, 3, 3, 6, 2, 64, EncryptionKeyChoice::Big)
}

/// Message over 2 bits, carry over 5 bits, inputs encrypted under the big key.
pub open spec fn spec_param_message_2_carry_5() -> PBSParameters {
    spec_preset(934, 1, 16384, 0x3e8c40d59a437cdd, 0x3c10000000000000, 15, 2, 3, 6, 4, 32, EncryptionKeyChoice::Big)
}

/// Message over 2 bits, carry over 5 bits, inputs encrypted under the big key.
#[verifier::when_used_as_spec(spec_param_message_2_carry_5)]
pub fn param_message_2_carry_5() -> (r: PBSParameters)
    ensures
        r == spec_param_message_2_carry_5(),
{
    preset(934, 1, 16384, 0x3e8c40d59a437cdd, 0x3c10000000000000, 15, 2, 3, 6, 4, 32, EncryptionKeyChoice::Big)
}

/// Message over 3 bits, carry over 4 bits, inputs encrypted under the big key.
pub open spec fn spec_param_message_3_carry_4() -> PBSParameters {
    spec_preset(930, 1, 16384, 0x3e8e663795aed519, 0x3c10000000000000, 15, 2, 3, 6, 8, 16, EncryptionKeyChoice::Big)
}

/// Message over 3 bits, carry over 4 bits, inputs encrypted under the big key.
#[verifier::when_used_as_spec(spec_param_message_3_carry_4)]
pub fn param_message_3_carry_4() -> (r: PBSParameters)
    ensures
        r == spec_param_message_3_carry_4(),
{
    preset(930, 1, 16384, 0x3e8e663795aed519, 0x3c10000000000000, 15, 2, 3, 6, 8, 16, EncryptionKeyChoice::Big)
}

/// Message over 4 bits, carry over 3 bits, inputs encrypted under the big key.
pub open spec fn spec_param_message_4_carry_3() -> PBSParameters {
    spec_preset(930, 1, 16384, 0x3e8e663795aed519, 0x3c10000000000000, 15, 2, 3, 6, 16, 8, EncryptionKeyChoice::Big)
}

/// Message over 4 bits, carry over 3 bits, inputs encrypted under the big key.
#[verifier::when_used_as_spec(spec_param_message_4_carry_3)]
pub fn param_message_4_carry_3() -> (r: PBSParameters)
    ensures
        r == spec_param_message_4_carry_3(),
{
    preset(930, 1, 16384, 0x3e8e663795aed519, 0x3c10000000000000, 15, 2, 3, 6, 16, 8, EncryptionKeyChoice::Big)
}

/// Message over 5 bits, carry over 2 bits, inputs encrypted under the big key.
pub open spec fn spec_param_message_5_carry_2() -> PBSParameters {
    spec_preset(930, 1, 16384, 0x3e8e663795aed519, 0x3c10000000000000, 15, 2, 3, 6, 32, 4, EncryptionKeyChoice::Big)
}

/// Message over 5 bits, carry over 2 bits, inputs encrypted under the big key.
#[verifier::when_used_as_spec(spec_param_message_5_carry_2)]
pub fn param_message_5_carry_2() -> (r: PBSParameters)
    ensures
        r == spec_param_message_5_carry_2(),
{
    preset(930, 1, 16384, 0x3e8e663795aed519, 0x3c10000000000000, 15, 2, 3, 6, 32, 4, EncryptionKeyChoice::Big)
}

/// Message over 6 bits, carry over 1 bit, inputs encrypted under the big key.
pub open spec fn spec_param_message_6_carry_1() -> PBSParameters {
    spec_preset(930, 1, 16384, 0x3e8e663795aed519, 0x3c10000000000000, 15, 2, 3, 6, 64, 2, EncryptionKeyChoice::Big)
}

/// Message over 6 bits, carry over 1 bit, inputs encrypted under the big key.
#[verifier::when_used_as_spec(spec_param_message_6_carry_1)]
pub fn param_message_6_carry_1() -> (r: PBSParameters)
    ensures
        r == spec_param_message_6_carry_1(),
{
    preset(930, 1, 16384, 0x3e8e663795aed519, 0x3c10000000000000, 15, 2, 3, 6, 64, 2, EncryptionKeyChoice::Big)
}

/// Message over 7 bits, carry over 0 bits, inputs encrypted under the big key.
pub open spec fn spec_param_message_7_carry_0() -> PBSParameters {
    spec_preset(930, 1, 16384, 0x3e8e663795aed519, 0x3c10000000000000, 15, 2, 3, 6, 128, 1, EncryptionKeyChoice::Big)
}

/// Message over 7 bits, carry over 0 bits, inputs encrypted under the big key.
#[verifier::when_used_as_spec(spec_param_message_7_carry_0)]
pub fn param_message_7_carry_0() -> (r: PBSParameters)
    ensures
        r == spec_param_message_7_carry_0(),
{
    preset(930, 1, 16384, 0x3e8e663795aed519, 0x3c10000000000000, 15, 2, 3, 6, 128, 1, EncryptionKeyChoice::Big)
}

/// Message over 1 bit, carry over 7 bits, inputs encrypted under the big key.
pub open spec fn spec_param_message_1_carry_7() -> PBSParameters {
    spec_preset(1004, 1, 32768, 0x3e6f628139697f5f, 0x3c10000000000000, 11, 3, 3, 7, 2, 128, EncryptionKeyChoice::Big)
}

/// Message over 1 bit, carry over 7 bits, inputs encrypted under the big key.
#[verifier::when_used_as_spec(spec_param_message_1_carry_7)]
pub fn param_message_1_carry_7() -> (r: PBSParameters)
    ensures
        r == spec_param_message_1_carry_7(),
{
    preset(1004, 1, 32768, 0x3e6f628139697f5f, 0x3c10000000000000, 11, 3, 3, 7, 2, 128, EncryptionKeyChoice::Big)
}

/// Message over 2 bits, carry over 6 bits, inputs encrypted under the big key.
pub open spec fn spec_param_message_2_carry_6() -> PBSParameters {
    spec_preset(987, 1, 32768, 0x3e756b7da1678c63, 0x3c10000000000000, 11, 3, 3, 7, 4, 64, EncryptionKeyChoice::Big)
}

/// Message over 2 bits, carry over 6 bits, inputs encrypted under the big key.
#[verifier::when_used_as_spec(spec_param_message_2_carry_6)]
pub fn param_message_2_carry_6() -> (r: PBSParameters)
    ensures
        r == spec_param_message_2_carry_6(),
{
    preset(987, 1, 32768, 0x3e756b7da1678c63, 0x3c10000000000000, 11, 3, 3, 7, 4, 64, EncryptionKeyChoice::Big)
}

/// Message over 3 bits, carry over 5 bits, inputs encrypted under the big key.
pub open spec fn spec_param_message_3_carry_5() -> PBSParameters {
    spec_preset(985, 1, 32768, 0x3e7637ef077ec487, 0x3c10000000000000, 11, 3, 3, 7, 8, 32, EncryptionKeyChoice::Big)
}

/// Message over 3 bits, carry over 5 bits, inputs encrypted under the big key.
#[verifier::when_used_as_spec(spec_param_message_3_carry_5)]
pub fn param_message_3_carry_5() -> (r: PBSParameters)
    ensures
        r == spec_param_message_3_carry_5(),
{
    preset(985, 1, 32768, 0x3e7637ef077ec487, 0x3c10000000000000, 11, 3, 3, 7, 8, 32, EncryptionKeyChoice::Big)
}

/// Message over 4 bits, carry over 4 bits, inputs encrypted under the big key.
pub open spec fn spec_param_message_4_carry_4() -> PBSParameters {
    spec_preset(996, 1, 32768, 0x3e722ab4667ba4ec, 0x3c10000000000000, 15, 2, 3, 7, 16, 16, EncryptionKeyChoice::Big)
}

/// Message over 4 bits, carry over 4 bits, inputs encrypted under the big key.
#[verifier::when_used_as_spec(spec_param_message_4_carry_4)]
pub fn param_message_4_carry_4() -> (r: PBSParameters)
    ensures
        r == spec_param_message_4_carry_4(),
{
    preset(996, 1, 32768, 0x3e722ab4667ba4ec, 0x3c10000000000000, 15, 2, 3, 7, 16, 16, EncryptionKeyChoice::Big)
}

/// Message over 5 bits, carry over 3 bits, inputs encrypted under the big key.
pub open spec fn spec_param_message_5_carry_3() -> PBSParameters {
    spec_preset(1020, 1, 32768, 0x3e676adee7ff2ebc, 0x3c10000000000000, 15, 2, 4, 5, 32, 8, EncryptionKeyChoice::Big)
}

/// Message over 5 bits, carry over 3 bits, inputs encrypted under the big key.
#[verifier::when_used_as_spec(spec_param_message_5_carry_3)]
pub fn param_message_5_carry_3() -> (r: PBSParameters)
    ensures
        r == spec_param_message_5_carry_3(),
{
    preset(1020, 1, 32768, 0x3e676adee7ff2ebc, 0x3c10000000000000, 15, 2, 4, 5, 32, 8, EncryptionKeyChoice::Big)
}

/// Message over 6 bits, carry over 2 bits, inputs encrypted under the big key.
pub open spec fn spec_param_message_6_carry_2() -> PBSParameters {
    spec_preset(1018, 1, 32768, 0x3e684a6131221e41, 0x3c10000000000000, 15, 2, 4, 5, 64, 4, EncryptionKeyChoice::Big)
}

/// Message over 6 bits, carry over 2 bits, inputs encrypted under the big key.
#[verifier::when_used_as_spec(spec_param_message_6_carry_2)]
pub fn param_message_6_carry_2() -> (r: PBSParameters)
    ensures
        r == spec_param_message_6_carry_2(),
{
    preset(1018, 1, 32768, 0x3e684a6131221e41, 0x3c10000000000000, 15, 2, 4, 5, 64, 4, EncryptionKeyChoice::Big)
}

/// Message over 7 bits, carry over 1 bit, inputs encrypted under the big key.
pub open spec fn spec_param_message_7_carry_1() -> PBSParameters {
    spec_preset(1017, 1, 32768, 0x3e68bd3d6a6dc5d4, 0x3c10000000000000, 15, 2, 4, 5, 128, 2, EncryptionKeyChoice::Big)
}

/// Message over 7 bits, carry over 1 bit, inputs encrypted under the big key.
#[verifier::when_used_as_spec(spec_param_message_7_carry_1)]
pub fn param_message_7_carry_1() -> (r: PBSParameters)
    ensures
        r == spec_param_message_7_carry_1(),
{
    preset(1017, 1, 32768, 0x3e68bd3d6a6dc5d4, 0x3c10000000000000, 15, 2, 4, 5, 128, 2, EncryptionKeyChoice::Big)
}

/// Message over 8 bits, carry over 0 bits, inputs encrypted under the big key.
pub open spec fn spec_param_message_8_carry_0() -> PBSParameters {
    spec_preset(1017, 1, 32768, 0x3e68bd3d6a6dc5d4, 0x3c10000000000000, 15, 2, 4, 5, 256, 1, EncryptionKeyChoice::Big)
}

/// Message over 8 bits, carry over 0 bits, inputs encrypted under the big key.
#[verifier::when_used_as_spec(spec_param_message_8_carry_0)]
pub fn param_message_8_carry_0() -> (r: PBSParameters)
    ensures
        r == spec_param_message_8_carry_0(),
{
    preset(1017, 1, 32768, 0x3e68bd3d6a6dc5d4, 0x3c10000000000000, 15, 2, 4, 5, 256, 1, EncryptionKeyChoice::Big)
}

/// Message over 1 bit, carry over 1 bit, inputs encrypted under the small key.
pub open spec fn spec_param_small_message_1_carry_1() -> PBSParameters {
    spec_preset(783, 3, 512, 0x3ecc00be9351f607, 0x3d8e5e69cc6845d4, 18, 1, 5, 3, 2, 2, EncryptionKeyChoice::Small)
}

/// Message over 1 bit, carry over 1 bit, inputs encrypted under the small key.
#[verifier::when_used_as_spec(spec_param_small_message_1_carry_1)]
pub fn param_small_message_1_carry_1() -> (r: PBSParameters)
    ensures
        r == spec_param_small_message_1_carry_1(),
{
    preset(783, 3, 512, 0x3ecc00be9351f607, 0x3d8e5e69cc6845d4, 18, 1, 5, 3, 2, 2, EncryptionKeyChoice::Small)
}

/// Message over 2 bits, carry over 2 bits, inputs encrypted under the small key.
pub open spec fn spec_param_small_message_2_carry_2() -> PBSParameters {
    spec_preset(870, 1, 2048, 0x3ea6c9fd7ca9f11a, 0x3cb53001d2dbc336, 23, 1, 4, 4, 4, 4, EncryptionKeyChoice::Small)
}

/// Message over 2 bits, carry over 2 bits, inputs encrypted under the small key.
#[verifier::when_used_as_spec(spec_param_small_message_2_carry_2)]
pub fn param_small_message_2_carry_2() -> (r: PBSParameters)
    ensures
        r == spec_param_small_message_2_carry_2(),
{
    preset(870, 1, 2048, 0x3ea6c9fd7ca9f11a, 0x3cb53001d2dbc336, 23, 1, 4, 4, 4, 4, EncryptionKeyChoice::Small)
}

/// Message over 3 bits, carry over 3 bits, inputs encrypted under the small key.
pub open spec fn spec_param_small_message_3_carry_3() -> PBSParameters {
    spec_preset(1025, 1, 8192, 0x3e655e9de5e92b71, 0x3c10000000000000, 15, 2, 4, 5, 8, 8, EncryptionKeyChoice::Small)
}

/// Message over 3 bits, carry over 3 bits, inputs encrypted under the small key.
#[verifier::when_used_as_spec(spec_param_small_message_3_carry_3)]
pub fn param_small_message_3_carry_3() -> (r: PBSParameters)
    ensures
        r == spec_param_small_message_3_carry_3(),
{
    preset(1025, 1, 8192, 0x3e655e9de5e92b71, 0x3c10000000000000, 15, 2, 4, 5, 8, 8, EncryptionKeyChoice::Small)
}

/// Message over 4 bits, carry over 4 bits, inputs encrypted under the small key.
pub open spec fn spec_param_small_message_4_carry_4() -> PBSParameters {
    spec_preset(1214, 1, 32768, 0x3e1582910c85cf31, 0x3c10000000000000, 15, 2, 4, 6, 16, 16, EncryptionKeyChoice::Small)
}

/// Message over 4 bits, carry over 4 bits, inputs encrypted under the small key.
#[verifier::when_used_as_spec(spec_param_small_message_4_carry_4)]
pub fn param_small_message_4_carry_4() -> (r: PBSParameters)
    ensures
        r == spec_param_small_message_4_carry_4(),
{
    preset(1214, 1, 32768, 0x3e1582910c85cf31, 0x3c10000000000000, 15, 2, 4, 6, 16, 16, EncryptionKeyChoice::Small)
}

} // verus!
