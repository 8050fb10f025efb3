//! Lookup of the vetted preset that fits a desired plaintext capacity.

use vstd::prelude::*;

use crate::parameters::PBSParameters;
use crate::presets::{
    param_message_1_carry_1, param_message_1_carry_2, param_message_1_carry_3,
    param_message_1_carry_4, param_message_1_carry_5, param_message_1_carry_6,
    param_message_1_carry_7, param_message_2_carry_1, param_message_2_carry_2,
    param_message_2_carry_3, param_message_2_carry_4, param_message_2_carry_5,
    param_message_2_carry_6, param_message_3_carry_1, param_message_3_carry_2,
    param_message_3_carry_3, param_message_3_carry_4, param_message_3_carry_5,
    param_message_4_carry_1, param_message_4_carry_2, param_message_4_carry_3,
    param_message_4_carry_4, param_message_5_carry_1, param_message_5_carry_2,
    param_message_5_carry_3, param_message_6_carry_1, param_message_6_carry_2,
    param_message_7_carry_1,
};

verus! {

/// Every preset of the catalog, by increasing message bits, then increasing carry bits.
pub open spec fn all_parameters() -> Seq<PBSParameters> {
    seq![
        param_message_1_carry_1(),
        param_message_1_carry_2(),
        param_message_1_carry_3(),
        param_message_1_carry_4(),
        param_message_1_carry_5(),
        param_message_1_carry_6(),
        param_message_1_carry_7(),
        param_message_2_carry_1(),
        param_message_2_carry_2(),
        param_message_2_carry_3(),
        param_message_2_carry_4(),
        param_message_2_carry_5(),
        param_message_2_carry_6(),
        param_message_3_carry_1(),
        param_message_3_carry_2(),
        param_message_3_carry_3(),
        param_message_3_carry_4(),
        param_message_3_carry_5(),
        param_message_4_carry_1(),
        param_message_4_carry_2(),
        param_message_4_carry_3(),
        param_message_4_carry_4(),
        param_message_5_carry_1(),
        param_message_5_carry_2(),
        param_message_5_carry_3(),
        param_message_6_carry_1(),
        param_message_6_carry_2(),
        param_message_7_carry_1(),
    ]
}

/// The presets whose carry space is at least as large as their message space.
pub open spec fn bivariate_pbs_compliant_parameters() -> Seq<PBSParameters> {
    seq![
        param_message_1_carry_1(),
        param_message_1_carry_2(),
        param_message_1_carry_3(),
        param_message_1_carry_4(),
        param_message_1_carry_5(),
        param_message_1_carry_6(),
        param_message_1_carry_7(),
        param_message_2_carry_2(),
        param_message_2_carry_3(),
        param_message_2_carry_4(),
        param_message_2_carry_5(),
        param_message_2_carry_6(),
        param_message_3_carry_3(),
        param_message_3_carry_4(),
        param_message_3_carry_5(),
        param_message_4_carry_4(),
    ]
}

/// Every preset of the catalog, by increasing message bits, then increasing carry bits.
pub fn all_parameter_vec() -> (r: Vec<PBSParameters>)
    ensures
        r@ == all_parameters(),
{
    let r = vec![
        param_message_1_carry_1(),
        param_message_1_carry_2(),
        param_message_1_carry_3(),
        param_message_1_carry_4(),
        param_message_1_carry_5(),
        param_message_1_carry_6(),
        param_message_1_carry_7(),
        param_message_2_carry_1(),
        param_message_2_carry_2(),
        param_message_2_carry_3(),
        param_message_2_carry_4(),
        param_message_2_carry_5(),
        param_message_2_carry_6(),
        param_message_3_carry_1(),
        param_message_3_carry_2(),
        param_message_3_carry_3(),
        param_message_3_carry_4(),
        param_message_3_carry_5(),
        param_message_4_carry_1(),
        param_message_4_carry_2(),
        param_message_4_carry_3(),
        param_message_4_carry_4(),
        param_message_5_carry_1(),
        param_message_5_carry_2(),
        param_message_5_carry_3(),
        param_message_6_carry_1(),
        param_message_6_carry_2(),
        param_message_7_carry_1(),
    ];
    assert(r@ =~= all_parameters());
    r
}

/// The presets whose carry space is at least as large as their message space.
pub fn bivariate_pbs_compliant_parameter_set_vec() -> (r: Vec<PBSParameters>)
    ensures
        r@ == bivariate_pbs_compliant_parameters(),
{
    let r = vec![
        param_message_1_carry_1(),
        param_message_1_carry_2(),
        param_message_1_carry_3(),
        param_message_1_carry_4(),
        param_message_1_carry_5(),
        param_message_1_carry_6(),
        param_message_1_carry_7(),
        param_message_2_carry_2(),
        param_message_2_carry_3(),
        param_message_2_carry_4(),
        param_message_2_carry_5(),
        param_message_2_carry_6(),
        param_message_3_carry_3(),
        param_message_3_carry_4(),
        param_message_3_carry_5(),
        param_message_4_carry_4(),
    ];
    assert(r@ =~= bivariate_pbs_compliant_parameters());
    r
}

/// Whether `n` is a power of two.
pub open spec fn is_power_of_two(n: nat) -> bool
    decreases n,
{
    if n == 1 {
        true
    } else if n == 0 || n % 2 == 1 {
        false
    } else {
        is_power_of_two(n / 2)
    }
}

/// The smallest power of two that is at least `n`: 1 for 0 and 1, then 2^ceil(log2(n)).
pub open spec fn rescaled_space(n: nat) -> nat
    decreases n,
{
    if n <= 1 {
        1
    } else {
        2 * rescaled_space(((n + 1) / 2) as nat)
    }
}

/// A power of two `p` with `n <= p` and, unless `p` is 1, `p / 2 < n`, is the rescaled `n`.
proof fn lemma_rescaled_space_unique(p: nat, n: nat)
    requires
        is_power_of_two(p),
        n <= p,
        p == 1 || p / 2 < n,
    ensures
        rescaled_space(n) == p,
    decreases n,
{
    if n <= 1 {
        if p != 1 {
            assert(p % 2 == 0 && p / 2 >= 1);
        }
    } else {
        let q = p / 2;
        let m = ((n + 1) / 2) as nat;
        assert(p != 1);
        assert(p % 2 == 0);
        assert(is_power_of_two(q));
        assert(m <= q);
        if q != 1 {
            assert(q % 2 == 0);
            assert(q / 2 < m);
        }
        lemma_rescaled_space_unique(q, m);
    }
}

/// The rescaled space is a power of two.
proof fn lemma_rescaled_space_is_power_of_two(n: nat)
    ensures
        is_power_of_two(rescaled_space(n)),
    decreases n,
{
    if n > 1 {
        let m = ((n + 1) / 2) as nat;
        lemma_rescaled_space_is_power_of_two(m);
        let r = rescaled_space(m);
        assert((2 * r) / 2 == r);
        assert((2 * r) % 2 == 0);
    }
}

/// A power of two is its own rescaled space.
proof fn lemma_rescaled_power_of_two(p: nat)
    requires
        is_power_of_two(p),
    ensures
        rescaled_space(p) == p,
{
    if p != 1 {
        assert(p % 2 == 0);
    }
    lemma_rescaled_space_unique(p, p);
}

/// The smallest power of two that is at least `space` (1 for 0 and 1).
pub fn rescale_space(space: usize) -> (r: u128)
    ensures
        r == rescaled_space(space as nat),
{
    let mut p: u128 = 1;
    while p < space as u128
        invariant
            is_power_of_two(p as nat),
            p >= 1,
            p == 1 || p / 2 < space,
            p <= 2 * (space as u128) || p == 1,
        decreases 2 * (space as int) - (p as int),
    {
        assert(((2 * p) as nat) / 2 == p as nat);
        assert(((2 * p) as nat) % 2 == 0);
        p = 2 * p;
    }
    proof {
        lemma_rescaled_space_unique(p as nat, space as nat);
    }
    p
}

/// Whether a record has exactly the given message and carry moduli.
pub open spec fn has_moduli(params: PBSParameters, message: nat, carry: nat) -> bool {
    params.message_modulus.0 == message && params.carry_modulus.0 == carry
}

/// The first record of `catalog` with the given message and carry moduli, if any.
pub open spec fn first_with_moduli(catalog: Seq<PBSParameters>, message: nat, carry: nat) -> Option<
    PBSParameters,
>
    decreases catalog.len(),
{
    if catalog.len() == 0 {
        None
    } else if has_moduli(catalog[0], message, carry) {
        Some(catalog[0])
    } else {
        first_with_moduli(catalog.drop_first(), message, carry)
    }
}

/// The preset of the catalog whose moduli are the two spaces rounded up to powers of two.
pub open spec fn preset_for(message_space: nat, carry_space: nat) -> Option<PBSParameters> {
    first_with_moduli(all_parameters(), rescaled_space(message_space), rescaled_space(carry_space))
}

/// The record that a request for the two spaces resolves to: the preset that fits them, or
/// the 2-bit message, 2-bit carry preset where none does.
pub open spec fn resolved(message_space: nat, carry_space: nat) -> PBSParameters {
    match preset_for(message_space, carry_space) {
        Some(params) => params,
        None => param_message_2_carry_2(),
    }
}

/// The preset whose message and carry moduli are the desired spaces rounded up to powers of
/// two, or `None` where the catalog has no such preset.
pub fn find_parameters_from_message_and_carry(msg_space: usize, carry_space: usize) -> (r: Option<
    PBSParameters,
>)
    ensures
        r == preset_for(msg_space as nat, carry_space as nat),
{
    let rescaled_message_space = rescale_space(msg_space);
    let rescaled_carry_space = rescale_space(carry_space);
    let catalog = all_parameter_vec();
    let ghost message = rescaled_message_space as nat;
    let ghost carry = rescaled_carry_space as nat;
    let mut i: usize = 0;
    assert(catalog@.subrange(0, catalog@.len() as int) =~= catalog@);
    while i < catalog.len()
        invariant
            i <= catalog.len(),
            message == rescaled_message_space,
            carry == rescaled_carry_space,
            first_with_moduli(catalog@.subrange(i as int, catalog@.len() as int), message, carry)
                == preset_for(msg_space as nat, carry_space as nat),
        decreases catalog.len() - i,
    {
        let param = catalog[i];
        let ghost rest = catalog@.subrange(i as int, catalog@.len() as int);
        assert(rest[0] == param);
        assert(rest.drop_first() =~= catalog@.subrange(i + 1, catalog@.len() as int));
        assert(first_with_moduli(rest, message, carry) == if has_moduli(param, message, carry) {
            Some(param)
        } else {
            first_with_moduli(rest.drop_first(), message, carry)
        });
        if param.message_modulus.0 as u128 == rescaled_message_space
            && param.carry_modulus.0 as u128 == rescaled_carry_space
        {
            return Some(param);
        }
        i = i + 1;
    }
    None
}

/// The preset that fits the desired message and carry spaces, each rounded up to a power of
/// two; where the catalog holds none, the 2-bit message, 2-bit carry preset, which is a
/// degraded default and not a match.
pub fn get_parameters_from_message_and_carry(msg_space: usize, carry_space: usize) -> (r:
    PBSParameters)
    ensures
        r == resolved(msg_space as nat, carry_space as nat),
{
    match find_parameters_from_message_and_carry(msg_space, carry_space) {
        Some(params) => params,
        None => param_message_2_carry_2(),
    }
}

/// A record found in a catalog has the moduli that were looked for.
proof fn lemma_first_with_moduli_has_moduli(catalog: Seq<PBSParameters>, message: nat, carry: nat)
    ensures
        first_with_moduli(catalog, message, carry) matches Some(params) ==> has_moduli(
            params,
            message,
            carry,
        ),
    decreases catalog.len(),
{
    if catalog.len() > 0 && !has_moduli(catalog[0], message, carry) {
        lemma_first_with_moduli_has_moduli(catalog.drop_first(), message, carry);
    }
}

/// The resolution of a request depends on the request only through its two spaces rounded
/// up to powers of two; in particular, the same request always resolves to the same record.
pub proof fn lemma_resolve_depends_on_rescaled_spaces(
    message_space_a: nat,
    carry_space_a: nat,
    message_space_b: nat,
    carry_space_b: nat,
)
    requires
        rescaled_space(message_space_a) == rescaled_space(message_space_b),
        rescaled_space(carry_space_a) == rescaled_space(carry_space_b),
    ensures
        resolved(message_space_a, carry_space_a) == resolved(message_space_b, carry_space_b),
{
}

/// Resolution is idempotent: asking again for the moduli of a resolved record gives that
/// same record back, the fallback included.
pub proof fn lemma_resolve_idempotent(message_space: nat, carry_space: nat)
    ensures
        ({
            let r = resolved(message_space, carry_space);
            resolved(r.message_modulus.0 as nat, r.carry_modulus.0 as nat) == r
        }),
{
    let message = rescaled_space(message_space);
    let carry = rescaled_space(carry_space);
    match first_with_moduli(all_parameters(), message, carry) {
        Some(params) => {
            lemma_first_with_moduli_has_moduli(all_parameters(), message, carry);
            lemma_rescaled_space_is_power_of_two(message_space);
            lemma_rescaled_space_is_power_of_two(carry_space);
            lemma_rescaled_power_of_two(message);
            lemma_rescaled_power_of_two(carry);
        },
        None => {
            assert(is_power_of_two(4)) by {
                reveal_with_fuel(is_power_of_two, 3);
            }
            lemma_rescaled_power_of_two(4);
            assert(first_with_moduli(all_parameters(), 4, 4) == Some(param_message_2_carry_2()))
                by {
                reveal_with_fuel(first_with_moduli, 10);
            }
        },
    }
}

} // verus!
