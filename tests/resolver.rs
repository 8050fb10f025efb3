use shortint_params::presets::{
    param_message_1_carry_1, param_message_2_carry_1, param_message_2_carry_2,
    param_message_3_carry_1, param_message_7_carry_1,
};
use shortint_params::{
    all_parameter_vec, bivariate_pbs_compliant_parameter_set_vec,
    find_parameters_from_message_and_carry, get_parameters_from_message_and_carry, rescale_space,
    CarryModulus, EncryptionKeyChoice, LweDimension, MessageModulus, PolynomialSize, StandardDev,
};

#[test]
fn resolve_seven_two_gives_message_3_carry_1() {
    let param = get_parameters_from_message_and_carry(7, 2);
    assert_eq!(param, param_message_3_carry_1());
    assert_eq!(param.message_modulus, MessageModulus(8));
    assert_eq!(param.carry_modulus, CarryModulus(2));
}

#[test]
fn resolve_five_one_falls_back() {
    assert_eq!(rescale_space(5), 8);
    assert_eq!(rescale_space(1), 1);
    assert_eq!(find_parameters_from_message_and_carry(5, 1), None);
    assert_eq!(get_parameters_from_message_and_carry(5, 1), param_message_2_carry_2());
}

#[test]
fn resolve_one_one_falls_back() {
    assert_eq!(find_parameters_from_message_and_carry(1, 1), None);
    assert_eq!(get_parameters_from_message_and_carry(1, 1), param_message_2_carry_2());
}

#[test]
fn resolve_zero_spaces_fall_back() {
    assert_eq!(rescale_space(0), 1);
    assert_eq!(find_parameters_from_message_and_carry(0, 0), None);
    assert_eq!(get_parameters_from_message_and_carry(0, 0), param_message_2_carry_2());
    assert_eq!(find_parameters_from_message_and_carry(2, 0), None);
}

#[test]
fn resolve_twice_gives_same_record() {
    for (m, c) in [(7usize, 2usize), (1, 1), (3, 3), (100, 2), (0, 9)] {
        let first = get_parameters_from_message_and_carry(m, c);
        let second = get_parameters_from_message_and_carry(m, c);
        assert_eq!(first, second);
        let again = get_parameters_from_message_and_carry(
            first.message_modulus.0,
            first.carry_modulus.0,
        );
        assert_eq!(again, first);
    }
}

#[test]
fn resolve_exact_moduli_finds_each_preset() {
    for param in all_parameter_vec() {
        let found = find_parameters_from_message_and_carry(
            param.message_modulus.0,
            param.carry_modulus.0,
        );
        assert_eq!(found, Some(param));
    }
}

#[test]
fn resolve_rounds_up_to_powers_of_two() {
    assert_eq!(get_parameters_from_message_and_carry(3, 2), param_message_2_carry_1());
    assert_eq!(get_parameters_from_message_and_carry(2, 2), param_message_1_carry_1());
    assert_eq!(get_parameters_from_message_and_carry(128, 2), param_message_7_carry_1());
    assert_eq!(get_parameters_from_message_and_carry(65, 2), param_message_7_carry_1());
    assert_eq!(find_parameters_from_message_and_carry(129, 2), None);
}

#[test]
fn rescale_space_values() {
    assert_eq!(rescale_space(2), 2);
    assert_eq!(rescale_space(3), 4);
    assert_eq!(rescale_space(4), 4);
    assert_eq!(rescale_space(1000), 1024);
    assert_eq!(rescale_space(1usize << 40), 1u128 << 40);
    assert_eq!(rescale_space((1usize << 40) + 1), 1u128 << 41);
    assert_eq!(rescale_space(usize::MAX), 1u128 << usize::BITS);
}

#[test]
fn resolve_largest_space_falls_back() {
    assert_eq!(find_parameters_from_message_and_carry(usize::MAX, usize::MAX), None);
    assert_eq!(
        get_parameters_from_message_and_carry(usize::MAX, usize::MAX),
        param_message_2_carry_2()
    );
}

#[test]
fn catalog_is_ordered_by_message_then_carry() {
    let all = all_parameter_vec();
    assert_eq!(all.len(), 28);
    for pair in all.windows(2) {
        let a = (pair[0].message_modulus.0, pair[0].carry_modulus.0);
        let b = (pair[1].message_modulus.0, pair[1].carry_modulus.0);
        assert!(a < b);
    }
    for p in all.iter() {
        assert!(p.message_modulus.0.is_power_of_two());
        assert!(p.carry_modulus.0 >= 2 && p.carry_modulus.0.is_power_of_two());
        assert!(p.message_modulus.0 * p.carry_modulus.0 <= 256);
        assert_eq!(p.encryption_key_choice, EncryptionKeyChoice::Big);
        assert!(p.ciphertext_modulus.is_native_modulus());
    }
}

#[test]
fn bivariate_catalog_has_carry_at_least_message() {
    let all = bivariate_pbs_compliant_parameter_set_vec();
    assert_eq!(all.len(), 16);
    for p in all.iter() {
        assert!(p.carry_modulus.0 >= p.message_modulus.0);
    }
}

#[test]
fn preset_values_match_vetted_data() {
    let p = param_message_3_carry_1();
    assert_eq!(p.lwe_dimension, LweDimension(742));
    assert_eq!(p.polynomial_size, PolynomialSize(2048));
    assert_eq!(p.lwe_modular_std_dev, StandardDev(0.000007069849454709433f64.to_bits()));
    assert_eq!(
        p.glwe_modular_std_dev,
        StandardDev(0.00000000000000029403601535432533f64.to_bits())
    );
    let q = param_message_1_carry_1();
    assert_eq!(f64::from_bits(q.lwe_modular_std_dev.0), 0.00002043784477291318);
    assert_eq!(f64::from_bits(q.glwe_modular_std_dev.0), 0.0000000000034525330484572114);
}
