//! What holds of every mix, proved from the definitions of the other modules.
use crate::ingredient::{ending, Ingredient};
use crate::pricing::{is_nearest_even, lemma_round_half_even};
use crate::product::Product;
use crate::effect::Effect;
use crate::reaction::{lemma_react_capacity, rule_table, spec_react, spec_rewrite, CAPACITY};
use crate::sellable::{recipe_key, SellableView};
use vstd::prelude::*;

verus! {

/// The mix that comes of `product` when the ingredients of `recipe` are
/// added to it one after the other.
pub open spec fn spec_mix(product: Product, recipe: Seq<Ingredient>) -> SellableView
    decreases recipe.len(),
{
    if recipe.len() == 0 {
        SellableView::spec_from_product(product)
    } else {
        spec_mix(product, recipe.drop_last()).spec_add_ingredient(recipe.last())
    }
}

/// An ingredient that leaves the effects of a mix as they are leaves the
/// whole mix as it is: base, name, effects and ingredients.
pub proof fn law_unchanged_effects_unchanged_mix(mix: SellableView, ingredient: Ingredient)
    requires
        spec_react(mix.effects, ingredient.spec_effect()) == mix.effects,
    ensures
        mix.spec_add_ingredient(ingredient) == mix,
{
}

/// An ingredient that changes the effects of a mix is recorded: it stands
/// at the end of the new mix's ingredients, and the base stays.
pub proof fn law_changed_effects_recorded(mix: SellableView, ingredient: Ingredient)
    requires
        spec_react(mix.effects, ingredient.spec_effect()) != mix.effects,
    ensures
        mix.spec_add_ingredient(ingredient).base == mix.base,
        mix.spec_add_ingredient(ingredient).ingredients == mix.ingredients.push(ingredient),
        mix.spec_add_ingredient(ingredient).effects == spec_react(
            mix.effects,
            ingredient.spec_effect(),
        ),
{
}

/// What an ingredient does to the effects of a mix depends on those effects
/// and on the ingredient alone: not on the base, the name, or the
/// ingredients that were added before.
pub proof fn law_effects_follow_from_effects_alone(
    mix: SellableView,
    other: SellableView,
    ingredient: Ingredient,
)
    requires
        mix.effects == other.effects,
    ensures
        mix.spec_add_ingredient(ingredient).effects == other.spec_add_ingredient(
            ingredient,
        ).effects,
{
}

/// The order in which ingredients are added matters: Motor Oil and then Cuke
/// leave meth with Energizing, Cuke and then Motor Oil leave it without.
pub proof fn law_order_matters()
    ensures
        spec_mix(Product::Meth, seq![Ingredient::MotorOil, Ingredient::Cuke]).effects.contains(
            Effect::Energizing,
        ),
        !spec_mix(Product::Meth, seq![Ingredient::Cuke, Ingredient::MotorOil]).effects.contains(
            Effect::Energizing,
        ),
        spec_mix(Product::Meth, seq![Ingredient::MotorOil, Ingredient::Cuke]).effects != spec_mix(
            Product::Meth,
            seq![Ingredient::Cuke, Ingredient::MotorOil],
        ).effects,
{
    reveal_with_fuel(spec_rewrite, 9);
    let none = Set::<Effect>::empty();
    let fresh = SellableView::spec_from_product(Product::Meth);
    assert(fresh.effects == none);
    assert(rule_table(Effect::Slippery).len() == 5);
    assert(rule_table(Effect::Energizing).len() == 8);

    let oil = seq![Ingredient::MotorOil];
    let oil_cuke = seq![Ingredient::MotorOil, Ingredient::Cuke];
    assert(oil_cuke.drop_last() == oil);
    assert(oil.drop_last() == Seq::<Ingredient>::empty());
    assert(spec_mix(Product::Meth, oil.drop_last()) == fresh);
    let slippery = none.insert(Effect::Slippery);
    assert(spec_react(none, Effect::Slippery) == slippery);
    assert(spec_mix(Product::Meth, oil).effects == slippery);
    let munchies = none.insert(Effect::Munchies);
    assert(spec_rewrite(slippery, rule_table(Effect::Energizing), 8) == munchies);
    assert(spec_react(slippery, Effect::Energizing) == munchies.insert(Effect::Energizing));
    assert(spec_mix(Product::Meth, oil_cuke).effects == munchies.insert(Effect::Energizing));

    let cuke = seq![Ingredient::Cuke];
    let cuke_oil = seq![Ingredient::Cuke, Ingredient::MotorOil];
    assert(cuke_oil.drop_last() == cuke);
    assert(cuke.drop_last() == Seq::<Ingredient>::empty());
    assert(spec_mix(Product::Meth, cuke.drop_last()) == fresh);
    let energizing = none.insert(Effect::Energizing);
    assert(spec_react(none, Effect::Energizing) == energizing);
    assert(spec_mix(Product::Meth, cuke).effects == energizing);
    assert(spec_rewrite(energizing, rule_table(Effect::Slippery), 5) == munchies);
    assert(spec_react(energizing, Effect::Slippery) == munchies.insert(Effect::Slippery));
    assert(spec_mix(Product::Meth, cuke_oil).effects == munchies.insert(Effect::Slippery));
}

/// Adding an ingredient never takes a mix over capacity.
pub proof fn law_add_ingredient_within_capacity(mix: SellableView, ingredient: Ingredient)
    requires
        mix.effects.len() <= CAPACITY,
    ensures
        mix.spec_add_ingredient(ingredient).effects.len() <= CAPACITY,
{
    lemma_react_capacity(mix.effects, ingredient.spec_effect());
}

/// No mix that can be made has more than [`CAPACITY`] effects: whatever the
/// product and whatever the ingredients added to it.
pub proof fn law_capacity(product: Product, recipe: Seq<Ingredient>)
    ensures
        spec_mix(product, recipe).effects.len() <= CAPACITY,
        spec_mix(product, recipe).base == product,
    decreases recipe.len(),
{
    if recipe.len() > 0 {
        law_capacity(product, recipe.drop_last());
        law_add_ingredient_within_capacity(spec_mix(product, recipe.drop_last()), recipe.last());
    }
}

/// The sell price of a mix is a whole number nearest to the exact sell
/// price; where the exact price lies halfway between two whole numbers, it
/// is the even one of the two. No other whole number is both.
pub proof fn law_sell_price_rounds_half_to_even(mix: SellableView)
    ensures
        is_nearest_even(mix.spec_sell_price(), mix.spec_exact_sell_price(), 100),
        forall|other: nat| #[trigger]
            is_nearest_even(other, mix.spec_exact_sell_price(), 100) ==> other
                == mix.spec_sell_price(),
{
    lemma_round_half_even(mix.spec_exact_sell_price(), 100);
}

/// A mix whose exact sell price ends in a half sells for the even one of
/// the two whole numbers next to it.
pub proof fn law_sell_price_tie_goes_to_even(mix: SellableView)
    requires
        mix.spec_exact_sell_price() % 100 == 50,
    ensures
        mix.spec_sell_price() % 2 == 0,
        mix.spec_sell_price() * 100 == mix.spec_exact_sell_price() + 50 || mix.spec_sell_price()
            * 100 + 50 == mix.spec_exact_sell_price(),
{
    let exact = mix.spec_exact_sell_price();
    vstd::arithmetic::div_mod::lemma_fundamental_div_mod(exact as int, 100);
}

/// The key of a recipe with an ingredient ends as the name of its last
/// ingredient does.
proof fn lemma_key_ends_with_last_name(base: Product, recipe: Seq<Ingredient>)
    requires
        recipe.len() > 0,
    ensures
        recipe_key(base, recipe).len() >= 4,
        ending(recipe_key(base, recipe)) == ending(recipe.last().spec_name()),
        recipe_key(base, recipe).len() == recipe_key(base, recipe.drop_last()).len()
            + recipe.last().spec_name().len(),
{
    recipe.last().lemma_names_end_apart(recipe.last());
}

/// Two recipes with the same key have the same base and the same
/// ingredients in the same order.
pub proof fn law_key_injective(
    base: Product,
    recipe: Seq<Ingredient>,
    other_base: Product,
    other_recipe: Seq<Ingredient>,
)
    requires
        recipe_key(base, recipe) == recipe_key(other_base, other_recipe),
    ensures
        base == other_base,
        recipe == other_recipe,
    decreases recipe.len() + other_recipe.len(),
{
    if recipe.len() == 0 && other_recipe.len() == 0 {
        base.lemma_names_distinct(other_base);
    } else if recipe.len() == 0 {
        lemma_key_ends_with_last_name(other_base, other_recipe);
        base.lemma_name_ends_unlike_ingredient(other_recipe.last());
    } else if other_recipe.len() == 0 {
        lemma_key_ends_with_last_name(base, recipe);
        other_base.lemma_name_ends_unlike_ingredient(recipe.last());
    } else {
        lemma_key_ends_with_last_name(base, recipe);
        lemma_key_ends_with_last_name(other_base, other_recipe);
        recipe.last().lemma_names_end_apart(other_recipe.last());
        let front = recipe_key(base, recipe.drop_last());
        let other_front = recipe_key(other_base, other_recipe.drop_last());
        let name = recipe.last().spec_name();
        assert(front == (front + name).subrange(0, front.len() as int));
        assert(other_front == (other_front + name).subrange(0, other_front.len() as int));
        law_key_injective(base, recipe.drop_last(), other_base, other_recipe.drop_last());
        assert(recipe == recipe.drop_last().push(recipe.last()));
        assert(other_recipe == other_recipe.drop_last().push(other_recipe.last()));
    }
}

/// Two mixes have the same key exactly when they have the same base and the
/// same ingredients in the same order, whatever their effects and names.
pub proof fn law_key_tells_recipes_apart(mix: SellableView, other: SellableView)
    ensures
        mix.spec_key() == other.spec_key() <==> mix.base == other.base && mix.ingredients
            == other.ingredients,
{
    if mix.spec_key() == other.spec_key() {
        law_key_injective(mix.base, mix.ingredients, other.base, other.ingredients);
    }
}

} // verus!
