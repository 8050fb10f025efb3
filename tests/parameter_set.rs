use shortint_params::presets::{
    param_message_1_carry_1, param_message_2_carry_2, param_message_3_carry_3,
    param_small_message_2_carry_2,
};
use shortint_params::{
    CarryModulus, CiphertextModulus, DecompositionBaseLog, DecompositionLevelCount,
    EncryptionKeyChoice, GlweDimension, LweDimension, MessageModulus, MismatchedFields,
    PBSOrder, PBSParameters, ParameterSetError, PolynomialSize, ShortintParameterSet,
    ShortintParameterSetInner, StandardDev, WopbsParameters,
};

fn wopbs_matching(pbs: &PBSParameters) -> WopbsParameters {
    WopbsParameters {
        lwe_dimension: LweDimension(549),
        glwe_dimension: GlweDimension(4),
        polynomial_size: PolynomialSize(512),
        lwe_modular_std_dev: StandardDev(0.0003177104139262535f64.to_bits()),
        glwe_modular_std_dev: StandardDev(0.0000000000000000002168404344971009f64.to_bits()),
        pbs_level: DecompositionLevelCount(1),
        pbs_base_log: DecompositionBaseLog(24),
        ks_level: DecompositionLevelCount(3),
        ks_base_log: DecompositionBaseLog(2),
        pfks_level: DecompositionLevelCount(1),
        pfks_base_log: DecompositionBaseLog(24),
        pfks_modular_std_dev: StandardDev(0.0000000000000000002168404344971009f64.to_bits()),
        cbs_level: DecompositionLevelCount(3),
        cbs_base_log: DecompositionBaseLog(6),
        message_modulus: pbs.message_modulus,
        carry_modulus: pbs.carry_modulus,
        ciphertext_modulus: pbs.ciphertext_modulus,
        encryption_key_choice: pbs.encryption_key_choice,
    }
}

#[test]
fn combine_compatible_records_keeps_both() {
    let pbs = param_message_2_carry_2();
    let wopbs = wopbs_matching(&pbs);
    let set = ShortintParameterSet::try_new_pbs_and_wopbs_param_set((pbs, wopbs)).unwrap();
    assert_eq!(set.pbs_parameters(), Some(pbs));
    assert_eq!(set.wopbs_parameters(), Some(wopbs));
    assert!(set.pbs_and_wopbs());
    assert_eq!(set.message_modulus(), MessageModulus(4));
    assert_eq!(set.carry_modulus(), CarryModulus(4));
    assert_eq!(set.encryption_key_choice(), EncryptionKeyChoice::Big);
    assert_eq!(set.lwe_dimension(), pbs.lwe_dimension);
    assert_eq!(set.ks_level(), pbs.ks_level);
}

#[test]
fn combine_rejects_message_modulus_mismatch() {
    let pbs = param_message_2_carry_2();
    let mut wopbs = wopbs_matching(&pbs);
    wopbs.message_modulus = MessageModulus(8);
    assert_eq!(
        ShortintParameterSet::try_new_pbs_and_wopbs_param_set((pbs, wopbs)),
        Err(ParameterSetError::IncompatibleParameters(MismatchedFields::Moduli))
    );
}

#[test]
fn combine_rejects_carry_modulus_mismatch() {
    let pbs = param_message_2_carry_2();
    let mut wopbs = wopbs_matching(&pbs);
    wopbs.carry_modulus = CarryModulus(2);
    assert_eq!(
        ShortintParameterSet::try_new_pbs_and_wopbs_param_set((pbs, wopbs)),
        Err(ParameterSetError::IncompatibleParameters(MismatchedFields::Moduli))
    );
}

#[test]
fn combine_rejects_ciphertext_modulus_mismatch() {
    let pbs = param_message_2_carry_2();
    let mut wopbs = wopbs_matching(&pbs);
    wopbs.ciphertext_modulus = CiphertextModulus::try_new(1u128 << 63).unwrap();
    assert_eq!(
        ShortintParameterSet::try_new_pbs_and_wopbs_param_set((pbs, wopbs)),
        Err(ParameterSetError::IncompatibleParameters(MismatchedFields::Moduli))
    );
}

#[test]
fn combine_rejects_key_choice_mismatch() {
    let pbs = param_message_2_carry_2();
    let mut wopbs = wopbs_matching(&pbs);
    wopbs.encryption_key_choice = EncryptionKeyChoice::Small;
    assert_eq!(
        ShortintParameterSet::try_new_pbs_and_wopbs_param_set((pbs, wopbs)),
        Err(ParameterSetError::IncompatibleParameters(MismatchedFields::EncryptionKeyChoice))
    );
}

#[test]
fn combine_reports_moduli_before_key_choice() {
    let pbs = param_small_message_2_carry_2();
    let mut wopbs = wopbs_matching(&param_message_3_carry_3());
    wopbs.encryption_key_choice = EncryptionKeyChoice::Big;
    assert_eq!(
        ShortintParameterSet::try_new_pbs_and_wopbs_param_set((pbs, wopbs)),
        Err(ParameterSetError::IncompatibleParameters(MismatchedFields::Moduli))
    );
}

#[test]
fn try_from_pair_matches_checked_constructor() {
    let pbs = param_message_1_carry_1();
    let wopbs = wopbs_matching(&pbs);
    let set = ShortintParameterSet::try_from((pbs, wopbs)).unwrap();
    assert_eq!(set.pbs_parameters(), Some(pbs));
    let mut other = wopbs;
    other.encryption_key_choice = EncryptionKeyChoice::Small;
    assert!(ShortintParameterSet::try_from((pbs, other)).is_err());
}

#[test]
fn exactly_one_shape_holds() {
    let pbs = param_message_2_carry_2();
    let wopbs = wopbs_matching(&pbs);
    let sets = [
        ShortintParameterSet::new_pbs_param_set(pbs),
        ShortintParameterSet::new_wopbs_param_set(wopbs),
        ShortintParameterSet::try_new_pbs_and_wopbs_param_set((pbs, wopbs)).unwrap(),
    ];
    for set in sets.iter() {
        let count = [set.pbs_only(), set.wopbs_only(), set.pbs_and_wopbs()]
            .iter()
            .filter(|b| **b)
            .count();
        assert_eq!(count, 1);
    }
    assert!(sets[0].pbs_only());
    assert!(sets[1].wopbs_only());
    assert!(sets[2].pbs_and_wopbs());
}

#[test]
fn inner_shape_predicates() {
    let pbs = param_message_2_carry_2();
    let wopbs = wopbs_matching(&pbs);
    let a = ShortintParameterSetInner::PBSOnly(pbs);
    let b = ShortintParameterSetInner::WopbsOnly(wopbs);
    let c = ShortintParameterSetInner::PBSAndWopbs(pbs, wopbs);
    assert!(a.pbs_only() && !a.wopbs_only() && !a.pbs_and_wopbs());
    assert!(!b.pbs_only() && b.wopbs_only() && !b.pbs_and_wopbs());
    assert!(!c.pbs_only() && !c.wopbs_only() && c.pbs_and_wopbs());
}

#[test]
fn bootstrap_only_round_trip() {
    let pbs = param_message_3_carry_3();
    let set = ShortintParameterSet::new_pbs_param_set(pbs);
    assert_eq!(set.pbs_parameters(), Some(pbs));
    assert_eq!(set.wopbs_parameters(), None);
    let from: ShortintParameterSet = pbs.into();
    assert_eq!(from, set);
}

#[test]
fn extended_only_projections_and_accessors() {
    let wopbs = wopbs_matching(&param_message_2_carry_2());
    let set: ShortintParameterSet = ShortintParameterSet::from(wopbs);
    assert_eq!(set.pbs_parameters(), None);
    assert_eq!(set.wopbs_parameters(), Some(wopbs));
    assert_eq!(set.lwe_dimension(), LweDimension(549));
    assert_eq!(set.glwe_dimension(), GlweDimension(4));
    assert_eq!(set.polynomial_size(), PolynomialSize(512));
    assert_eq!(set.pbs_base_log(), DecompositionBaseLog(24));
    assert_eq!(set.pbs_level(), DecompositionLevelCount(1));
    assert_eq!(set.ks_base_log(), DecompositionBaseLog(2));
    assert_eq!(set.ks_level(), DecompositionLevelCount(3));
    assert_eq!(set.lwe_modular_std_dev(), StandardDev(0.0003177104139262535f64.to_bits()));
    assert_eq!(
        set.glwe_modular_std_dev(),
        StandardDev(0.0000000000000000002168404344971009f64.to_bits())
    );
}

#[test]
fn bootstrap_only_accessors() {
    let pbs = param_message_2_carry_2();
    let set = ShortintParameterSet::new_pbs_param_set(pbs);
    assert_eq!(set.lwe_dimension(), LweDimension(742));
    assert_eq!(set.glwe_dimension(), GlweDimension(1));
    assert_eq!(set.polynomial_size(), PolynomialSize(2048));
    assert_eq!(set.pbs_base_log(), DecompositionBaseLog(23));
    assert_eq!(set.pbs_level(), DecompositionLevelCount(1));
    assert_eq!(set.ks_base_log(), DecompositionBaseLog(3));
    assert_eq!(set.ks_level(), DecompositionLevelCount(5));
    assert_eq!(set.message_modulus(), MessageModulus(4));
    assert_eq!(set.carry_modulus(), CarryModulus(4));
    assert!(set.ciphertext_modulus().is_native_modulus());
    assert_eq!(set.encryption_key_choice(), EncryptionKeyChoice::Big);
    assert_eq!(set.lwe_modular_std_dev(), StandardDev(0.000007069849454709433f64.to_bits()));
    assert_eq!(
        set.glwe_modular_std_dev(),
        StandardDev(0.00000000000000029403601535432533f64.to_bits())
    );
}

#[test]
fn new_builds_record_from_fields() {
    let p = PBSParameters::new(
        LweDimension(10),
        GlweDimension(2),
        PolynomialSize(64),
        StandardDev(1.5f64.to_bits()),
        StandardDev(0.25f64.to_bits()),
        DecompositionBaseLog(7),
        DecompositionLevelCount(3),
        DecompositionBaseLog(5),
        DecompositionLevelCount(4),
        MessageModulus(2),
        CarryModulus(8),
        CiphertextModulus::new_native(),
        EncryptionKeyChoice::Small,
    );
    assert_eq!(p.lwe_dimension, LweDimension(10));
    assert_eq!(p.glwe_dimension, GlweDimension(2));
    assert_eq!(p.polynomial_size, PolynomialSize(64));
    assert_eq!(f64::from_bits(p.lwe_modular_std_dev.0), 1.5);
    assert_eq!(f64::from_bits(p.glwe_modular_std_dev.0), 0.25);
    assert_eq!(p.pbs_base_log, DecompositionBaseLog(7));
    assert_eq!(p.pbs_level, DecompositionLevelCount(3));
    assert_eq!(p.ks_base_log, DecompositionBaseLog(5));
    assert_eq!(p.ks_level, DecompositionLevelCount(4));
    assert_eq!(p.message_modulus, MessageModulus(2));
    assert_eq!(p.carry_modulus, CarryModulus(8));
    assert_eq!(p.encryption_key_choice, EncryptionKeyChoice::Small);
}

#[test]
fn key_choice_selects_order() {
    assert_eq!(EncryptionKeyChoice::Big.pbs_order(), PBSOrder::BootstrapKeyswitch);
    assert_eq!(EncryptionKeyChoice::Small.pbs_order(), PBSOrder::KeyswitchBootstrap);
    assert_eq!(PBSOrder::from(EncryptionKeyChoice::Big), PBSOrder::BootstrapKeyswitch);
    let order: PBSOrder = EncryptionKeyChoice::Small.into();
    assert_eq!(order, PBSOrder::KeyswitchBootstrap);
    assert_ne!(EncryptionKeyChoice::Big.pbs_order(), EncryptionKeyChoice::Small.pbs_order());
}

#[test]
fn ciphertext_modulus_bounds() {
    let native = CiphertextModulus::new_native();
    assert!(native.is_native_modulus());
    assert_eq!(native.get(), 1u128 << 64);
    assert_eq!(CiphertextModulus::try_new(1u128 << 64), Some(native));
    assert_eq!(CiphertextModulus::try_new((1u128 << 64) + 1), None);
    assert_eq!(CiphertextModulus::try_new(1), None);
    assert_eq!(CiphertextModulus::try_new(0), None);
    let small = CiphertextModulus::try_new(2).unwrap();
    assert_eq!(small.get(), 2);
    assert!(!small.is_native_modulus());
}
