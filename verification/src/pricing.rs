//! Sums, rounding, yield and one-time costs: the arithmetic behind the prices
//! of a mix. All amounts are whole numbers or exact quotients.
use crate::effect::{lemma_effects_are_few, Effect, EFFECT_COUNT};
use crate::effect_set::EffectSet;
use crate::ingredient::Ingredient;
use crate::mix_state::{MixState, OneTimeIngredient};
use crate::product::Product;
use crate::quality::Quality;
use vstd::prelude::*;

verus! {

/// An exact quotient of two whole amounts, as costs per unit are: the cost of
/// a production cycle over the units that the cycle yields.
#[derive(Clone, Copy, Debug, PartialEq, Eq, Hash, Structural)]
pub struct Ratio {
    pub numerator: u128,
    pub denominator: u128,
}

/// The sum of `weight` over the members of `effects`.
pub open spec fn sum_over(effects: Set<Effect>, weight: spec_fn(Effect) -> nat) -> nat {
    effects.fold(0nat, |sum: nat, effect: Effect| sum + weight(effect))
}

/// The sum over no effects is zero.
pub proof fn lemma_sum_over_empty(weight: spec_fn(Effect) -> nat)
    ensures
        sum_over(Set::<Effect>::empty(), weight) == 0,
{
    vstd::set::fold::lemma_fold_empty(0nat, |sum: nat, effect: Effect| sum + weight(effect));
}

/// A new member adds its weight to the sum.
pub proof fn lemma_sum_over_insert(
    effects: Set<Effect>,
    weight: spec_fn(Effect) -> nat,
    effect: Effect,
)
    requires
        !effects.contains(effect),
    ensures
        sum_over(effects.insert(effect), weight) == sum_over(effects, weight) + weight(effect),
{
    lemma_effects_are_few(effects);
    let step = |sum: nat, effect: Effect| sum + weight(effect);
    vstd::set::fold::lemma_fold_insert(effects, 0nat, step, effect);
}

/// The sum of the price multipliers of `effects`, in hundredths.
pub open spec fn multiplier_sum(effects: Set<Effect>) -> nat {
    sum_over(effects, |effect: Effect| effect.spec_multiplier())
}

/// The sum of the addictiveness of `effects`, in thousandths.
pub open spec fn addictiveness_sum(effects: Set<Effect>) -> nat {
    sum_over(effects, |effect: Effect| effect.spec_addictiveness())
}

/// What the ingredients of a recipe cost together, each as often as it
/// occurs.
pub open spec fn ingredient_cost(ingredients: Seq<Ingredient>) -> nat
    decreases ingredients.len(),
{
    if ingredients.len() == 0 {
        0
    } else {
        ingredient_cost(ingredients.drop_last()) + ingredients.last().spec_price()
    }
}

/// The whole number nearest to `numerator / denominator`; of two that are
/// equally near, the even one.
pub open spec fn round_half_even(numerator: nat, denominator: nat) -> nat
    recommends
        denominator > 0,
{
    let floor = numerator / denominator;
    let rest = numerator % denominator;
    if 2 * rest < denominator {
        floor
    } else if 2 * rest > denominator {
        floor + 1
    } else if floor % 2 == 0 {
        floor
    } else {
        floor + 1
    }
}

/// The distance between two whole numbers.
pub open spec fn distance(a: nat, b: nat) -> nat {
    if a <= b {
        (b - a) as nat
    } else {
        (a - b) as nat
    }
}

/// Whether `rounded` is a whole number nearest to `numerator / denominator`
/// and, where the quotient lies exactly halfway between two whole numbers,
/// the even one of them.
pub open spec fn is_nearest_even(rounded: nat, numerator: nat, denominator: nat) -> bool {
    let twice_off = 2 * distance(rounded * denominator, numerator);
    &&& twice_off <= denominator
    &&& twice_off == denominator ==> rounded % 2 == 0
}

/// Rounding goes to a nearest whole number, and on a tie to the even one.
/// No other whole number is both.
pub proof fn lemma_round_half_even(numerator: nat, denominator: nat)
    requires
        denominator > 0,
    ensures
        is_nearest_even(round_half_even(numerator, denominator), numerator, denominator),
        forall|other: nat| #[trigger]
            is_nearest_even(other, numerator, denominator) ==> other == round_half_even(
                numerator,
                denominator,
            ),
{
    let floor = numerator / denominator;
    let rest = numerator % denominator;
    let rounded = round_half_even(numerator, denominator);
    vstd::arithmetic::div_mod::lemma_fundamental_div_mod(numerator as int, denominator as int);
    assert((floor + 1) * denominator == floor * denominator + denominator) by (nonlinear_arith);
    assert forall|other: nat| #[trigger]
        is_nearest_even(other, numerator, denominator) implies other == rounded by {
        if other < floor {
            assert(other * denominator <= (floor - 1) * denominator) by (nonlinear_arith)
                requires
                    other <= floor - 1,
                    denominator > 0,
            ;
            assert((floor - 1) * denominator == floor * denominator - denominator)
                by (nonlinear_arith);
        } else if other > floor + 1 {
            assert(other * denominator >= (floor + 2) * denominator) by (nonlinear_arith)
                requires
                    other >= floor + 2,
                    denominator > 0,
            ;
            assert((floor + 2) * denominator == floor * denominator + 2 * denominator)
                by (nonlinear_arith);
        }
    }
}

/// The units that one production cycle yields: a plant by pot and growth
/// regulator, meth always ten.
pub open spec fn spec_yield_amount(base: Product, state: MixState) -> nat {
    let pgr = state.ingredients@.contains(OneTimeIngredient::PGR);
    match base {
        Product::Marijuana(_) => if state.use_pot && pgr {
            16
        } else if state.use_pot || pgr {
            12
        } else {
            8
        },
        Product::Cocaine => if state.use_pot && pgr {
            16
        } else if pgr {
            11
        } else if state.use_pot {
            9
        } else {
            6
        },
        Product::Meth => 10,
    }
}

/// What the soil of one production cycle costs.
pub open spec fn spec_soil_cost(quality: Quality) -> nat {
    match quality {
        Quality::Low => 10,
        Quality::Medium => 30,
        Quality::High => 60,
    }
}

/// What one unit of a one-time ingredient costs.
pub const ONE_TIME_INGREDIENT_COST: u32 = 30;

/// What is bought once per production cycle: the soil, and each one-time
/// ingredient in use. Meth grows in no soil and takes none of them.
pub open spec fn spec_one_time_cost(base: Product, state: MixState) -> nat {
    if base is Meth {
        0
    } else {
        spec_soil_cost(state.soil_quality) + (if state.ingredients@.contains(
            OneTimeIngredient::PGR,
        ) {
            ONE_TIME_INGREDIENT_COST as nat
        } else {
            0
        }) + (if state.ingredients@.contains(OneTimeIngredient::Fertilizer) {
            ONE_TIME_INGREDIENT_COST as nat
        } else {
            0
        }) + (if state.ingredients@.contains(OneTimeIngredient::SpeedGrow) {
            ONE_TIME_INGREDIENT_COST as nat
        } else {
            0
        })
    }
}

/// The sum of the price multipliers of `effects`, in hundredths.
pub fn multiplier_total(effects: &EffectSet) -> (total: u32)
    ensures
        total == multiplier_sum(effects@),
        total <= 60 * effects@.len(),
{
    let members = effects.to_vec();
    let ghost weight = |effect: Effect| effect.spec_multiplier();
    let mut total: u32 = 0;
    proof {
        lemma_sum_over_empty(weight);
        assert(members@.take(0).to_set() =~= Set::<Effect>::empty());
    }
    for i in 0..members.len()
        invariant
            members@.no_duplicates(),
            members@.len() <= EFFECT_COUNT,
            weight == |effect: Effect| effect.spec_multiplier(),
            total == sum_over(members@.take(i as int).to_set(), weight),
            total <= 60 * i,
    {
        proof {
            lemma_next_member(members@, i as int);
            lemma_sum_over_insert(members@.take(i as int).to_set(), weight, members@[i as int]);
        }
        total = total + members[i].multiplier();
    }
    assert(members@.take(members@.len() as int) == members@);
    total
}

/// The sum of the addictiveness of `effects`, in thousandths.
pub fn addictiveness_total(effects: &EffectSet) -> (total: u32)
    ensures
        total == addictiveness_sum(effects@),
        total <= 803 * effects@.len(),
{
    let members = effects.to_vec();
    let ghost weight = |effect: Effect| effect.spec_addictiveness();
    let mut total: u32 = 0;
    proof {
        lemma_sum_over_empty(weight);
        assert(members@.take(0).to_set() =~= Set::<Effect>::empty());
    }
    for i in 0..members.len()
        invariant
            members@.no_duplicates(),
            members@.len() <= EFFECT_COUNT,
            weight == |effect: Effect| effect.spec_addictiveness(),
            total == sum_over(members@.take(i as int).to_set(), weight),
            total <= 803 * i,
    {
        proof {
            lemma_next_member(members@, i as int);
            lemma_sum_over_insert(members@.take(i as int).to_set(), weight, members@[i as int]);
        }
        total = total + members[i].addictiveness();
    }
    assert(members@.take(members@.len() as int) == members@);
    total
}

/// The member at `i` of a list without repetition is new to the set of the
/// members before it, and joins that set in the next prefix.
proof fn lemma_next_member(members: Seq<Effect>, i: int)
    requires
        members.no_duplicates(),
        0 <= i < members.len(),
    ensures
        !members.take(i).to_set().contains(members[i]),
        members.take(i + 1).to_set() == members.take(i).to_set().insert(members[i]),
{
    let seen = members.take(i);
    assert(members.take(i + 1) == seen.push(members[i]));
    seen.lemma_push_to_set_commute(members[i]);
}

/// What the ingredients of a recipe cost together.
pub fn ingredient_total(ingredients: &Vec<Ingredient>) -> (total: u128)
    ensures
        total == ingredient_cost(ingredients@),
        total <= 9 * ingredients@.len(),
{
    let mut total: u128 = 0;
    for i in 0..ingredients.len()
        invariant
            total == ingredient_cost(ingredients@.take(i as int)),
            total <= 9 * i,
    {
        assert(ingredients@.take(i + 1).drop_last() == ingredients@.take(i as int));
        total = total + ingredients[i].price() as u128;
    }
    assert(ingredients@.take(ingredients@.len() as int) == ingredients@);
    total
}

/// `numerator / denominator`, rounded to the nearest whole number, a tie
/// to the even one.
pub fn rounded_half_even(numerator: u32, denominator: u32) -> (rounded: u32)
    requires
        denominator > 0,
    ensures
        rounded == round_half_even(numerator as nat, denominator as nat),
{
    let floor = numerator / denominator;
    let rest = numerator % denominator;
    let twice: u64 = 2 * (rest as u64);
    if twice < denominator as u64 {
        floor
    } else if twice > denominator as u64 {
        proof {
            lemma_round_up_fits(numerator as nat, denominator as nat);
        }
        floor + 1
    } else if floor % 2 == 0 {
        floor
    } else {
        proof {
            lemma_round_up_fits(numerator as nat, denominator as nat);
        }
        floor + 1
    }
}

/// Where a quotient is rounded up, the result is no more than the numerator.
proof fn lemma_round_up_fits(numerator: nat, denominator: nat)
    requires
        denominator > 0,
        2 * (numerator % denominator) >= denominator,
    ensures
        numerator / denominator + 1 <= numerator,
{
    let floor = numerator / denominator;
    vstd::arithmetic::div_mod::lemma_fundamental_div_mod(numerator as int, denominator as int);
    assert(denominator * floor >= floor) by (nonlinear_arith)
        requires
            denominator >= 1,
            floor >= 0,
    ;
}

/// The units that one production cycle yields.
pub fn yield_of(base: Product, state: MixState) -> (units: u32)
    ensures
        units == spec_yield_amount(base, state),
        6 <= units <= 16,
{
    let pgr = state.ingredients.contains(&OneTimeIngredient::PGR);
    match (base, state.use_pot, pgr) {
        (Product::Marijuana(_), false, false) => 8,
        (Product::Marijuana(_), true, false) => 12,
        (Product::Marijuana(_), false, true) => 12,
        (Product::Marijuana(_), true, true) => 16,
        (Product::Cocaine, false, false) => 6,
        (Product::Cocaine, true, false) => 9,
        (Product::Cocaine, false, true) => 11,
        (Product::Cocaine, true, true) => 16,
        (Product::Meth, _, _) => 10,
    }
}

/// What is bought once per production cycle.
pub fn one_time_cost(base: Product, state: MixState) -> (cost: u32)
    ensures
        cost == spec_one_time_cost(base, state),
        cost <= 150,
{
    match base {
        Product::Meth => 0,
        _ => {
            let mut cost: u32 = match state.soil_quality {
                Quality::Low => 10,
                Quality::Medium => 30,
                Quality::High => 60,
            };
            if state.ingredients.contains(&OneTimeIngredient::PGR) {
                cost = cost + ONE_TIME_INGREDIENT_COST;
            }
            if state.ingredients.contains(&OneTimeIngredient::Fertilizer) {
                cost = cost + ONE_TIME_INGREDIENT_COST;
            }
            if state.ingredients.contains(&OneTimeIngredient::SpeedGrow) {
                cost = cost + ONE_TIME_INGREDIENT_COST;
            }
            cost
        },
    }
}

} // verus!
