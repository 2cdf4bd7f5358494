//! Mixes: how they are made, named and filed, and what they sell for, cost
//! and yield.
use crate::effect::Effect;
use crate::effect_set::EffectSet;
use crate::ingredient::Ingredient;
use crate::mix_state::MixState;
use crate::pricing::{
    addictiveness_sum, addictiveness_total, ingredient_cost, ingredient_total, multiplier_sum,
    multiplier_total, one_time_cost, round_half_even, rounded_half_even, spec_one_time_cost,
    spec_yield_amount, yield_of, Ratio,
};
use crate::product::Product;
use crate::reaction::{lemma_react_capacity, react, spec_react, CAPACITY};
use vstd::prelude::*;
use vstd::string::StringExecFns;

verus! {

/// A mix: a base product, the ingredients that were added to it in their
/// order, the effects that it has now, and the name that it goes by.
///
/// Every mix has a base that the catalog knows and at most [`CAPACITY`]
/// effects.
#[derive(Debug, PartialEq)]
pub struct Sellable {
    base: Product,
    name: String,
    effects: EffectSet,
    ingredients: Vec<Ingredient>,
}

/// What a mix is, as plain mathematical values.
pub struct SellableView {
    pub base: Product,
    pub name: Seq<char>,
    pub effects: Set<Effect>,
    pub ingredients: Seq<Ingredient>,
}

impl View for Sellable {
    type V = SellableView;

    closed spec fn view(&self) -> SellableView {
        SellableView {
            base: self.base,
            name: self.name@,
            effects: self.effects@,
            ingredients: self.ingredients@,
        }
    }
}

impl SellableView {
    /// The fresh mix of `product`: its starting effects, no ingredient, and
    /// the product's display name.
    pub open spec fn spec_from_product(product: Product) -> SellableView {
        SellableView {
            base: product,
            name: product.spec_display_name(),
            effects: product.spec_starting_effects(),
            ingredients: Seq::empty(),
        }
    }

    /// The mix after `ingredient` has been added. Where the ingredient
    /// leaves the effects as they are, the mix stays as it is: the
    /// ingredient is not recorded. Otherwise the mix has the new effects,
    /// the ingredient at the end of its list, and the ingredient's name
    /// after its own.
    pub open spec fn spec_add_ingredient(self, ingredient: Ingredient) -> SellableView {
        let effects = spec_react(self.effects, ingredient.spec_effect());
        if effects == self.effects {
            self
        } else {
            SellableView {
                base: self.base,
                name: self.name + " + "@ + ingredient.spec_name(),
                effects: effects,
                ingredients: self.ingredients.push(ingredient),
            }
        }
    }

    /// The mix under another name.
    pub open spec fn spec_with_name(self, name: Seq<char>) -> SellableView {
        SellableView { name: name, ..self }
    }

    /// The key of the mix: the identity string of its base, then the names
    /// of its ingredients in their order.
    pub open spec fn spec_key(self) -> Seq<char> {
        recipe_key(self.base, self.ingredients)
    }

    /// The sell price before rounding, in hundredths: the base's sell price,
    /// raised by the multipliers of the effects.
    pub open spec fn spec_exact_sell_price(self) -> nat {
        self.base.spec_sell_price() * (100 + multiplier_sum(self.effects))
    }

    /// The price that a unit of the mix sells for: the exact sell price,
    /// rounded to the nearest whole number, a tie to the even one.
    pub open spec fn spec_sell_price(self) -> nat {
        round_half_even(self.spec_exact_sell_price(), 100)
    }

    /// The addictiveness that counts for the mix, in thousandths: that of
    /// the effects, and that of the base unless the mix is a marijuana
    /// strain with no ingredient.
    pub open spec fn spec_raw_addictiveness(self) -> nat {
        if self.base.spec_is_marijuana() && self.ingredients.len() == 0 {
            addictiveness_sum(self.effects)
        } else {
            self.base.spec_addictiveness() + addictiveness_sum(self.effects)
        }
    }

    /// The addictiveness of the mix in whole percent, at most 100.
    pub open spec fn spec_addictiveness(self) -> nat {
        let percent = self.spec_raw_addictiveness() / 10;
        if percent > 100 {
            100
        } else {
            percent
        }
    }

    /// The units that one production cycle of the mix yields.
    pub open spec fn spec_yield_amount(self, state: MixState) -> nat {
        spec_yield_amount(self.base, state)
    }

    /// What one production cycle of the mix costs: the base, what is bought
    /// once per cycle, and the ingredients for every unit of the yield.
    pub open spec fn spec_cycle_cost(self, state: MixState) -> nat {
        self.base.spec_price(state) + spec_one_time_cost(self.base, state) + self.spec_yield_amount(
            state,
        ) * ingredient_cost(self.ingredients)
    }
}

/// The key of a recipe: the identity string of the base, then the names of
/// the ingredients in their order.
pub open spec fn recipe_key(base: Product, ingredients: Seq<Ingredient>) -> Seq<char>
    decreases ingredients.len(),
{
    if ingredients.len() == 0 {
        base.spec_name()
    } else {
        recipe_key(base, ingredients.drop_last()) + ingredients.last().spec_name()
    }
}

impl Sellable {
    #[verifier::type_invariant]
    spec fn well_formed(self) -> bool {
        &&& self.base.spec_is_catalogued()
        &&& self.effects@.len() <= CAPACITY
    }

    /// The fresh mix of `product`.
    pub fn from_product(product: Product) -> (mix: Sellable)
        requires
            product.spec_is_catalogued(),
        ensures
            mix@ == SellableView::spec_from_product(product),
    {
        Sellable {
            base: product,
            name: product.display_name(),
            effects: product.starting_effects(),
            ingredients: Vec::new(),
        }
    }

    /// The mix after `ingredient` has been added. The mix itself is left as
    /// it is.
    pub fn add_ingredient(&mut self, ingredient: Ingredient) -> (mixed: Sellable)
        ensures
            *final(self) == *old(self),
            mixed@ == old(self)@.spec_add_ingredient(ingredient),
            mixed@.effects.len() <= CAPACITY,
    {
        proof {
            use_type_invariant(&*self);
            lemma_react_capacity(self.effects@, ingredient.spec_effect());
        }
        let effects = react(&self.effects, ingredient.effect());
        if effects == self.effects {
            return self.clone();
        }
        let mut name = self.name.clone();
        name.append(" + ");
        name.append(ingredient.name());
        let mut ingredients = self.ingredients.clone();
        ingredients.push(ingredient);
        Sellable { base: self.base, name, effects, ingredients }
    }

    /// The mix under the name `name`.
    pub fn with_name(&self, name: String) -> (renamed: Sellable)
        ensures
            renamed@ == self@.spec_with_name(name@),
    {
        proof {
            use_type_invariant(self);
        }
        Sellable {
            base: self.base,
            name,
            effects: self.effects.clone(),
            ingredients: self.ingredients.clone(),
        }
    }

    /// The base product.
    pub fn base(&self) -> (base: Product)
        ensures
            base == self@.base,
            base.spec_is_catalogued(),
    {
        proof {
            use_type_invariant(self);
        }
        self.base
    }

    /// The name that the mix goes by.
    pub fn name(&self) -> (name: &String)
        ensures
            name@ == self@.name,
    {
        &self.name
    }

    /// The effects that the mix has.
    pub fn effects(&self) -> (effects: &EffectSet)
        ensures
            effects@ == self@.effects,
            effects@.len() <= CAPACITY,
    {
        proof {
            use_type_invariant(self);
        }
        &self.effects
    }

    /// The ingredients that were added, in their order.
    pub fn ingredients(&self) -> (ingredients: &Vec<Ingredient>)
        ensures
            ingredients@ == self@.ingredients,
    {
        &self.ingredients
    }

    /// The key under which the recipe of the mix is filed.
    pub fn key(&self) -> (key: String)
        ensures
            key@ == self@.spec_key(),
    {
        let mut key = self.base.name();
        for i in 0..self.ingredients.len()
            invariant
                key@ == recipe_key(self.base, self.ingredients@.take(i as int)),
        {
            assert(self.ingredients@.take(i + 1).drop_last() == self.ingredients@.take(i as int));
            key.append(self.ingredients[i].name());
        }
        assert(self.ingredients@.take(self.ingredients@.len() as int) == self.ingredients@);
        key
    }

    /// The price that a unit of the mix sells for.
    pub fn sell_price(&self) -> (price: u32)
        ensures
            price == self@.spec_sell_price(),
    {
        proof {
            use_type_invariant(self);
        }
        let raise = 100 + multiplier_total(&self.effects);
        proof {
            assert(self.base.spec_sell_price() * raise <= 150 * 580) by (nonlinear_arith)
                requires
                    self.base.spec_sell_price() <= 150,
                    raise <= 580,
            ;
        }
        rounded_half_even(self.base.sell_price() * raise, 100)
    }

    /// The addictiveness of the mix in whole percent, from 0 to 100.
    pub fn addictiveness(&self) -> (percent: u32)
        ensures
            percent == self@.spec_addictiveness(),
            percent <= 100,
    {
        proof {
            use_type_invariant(self);
        }
        let mut thousandths = addictiveness_total(&self.effects);
        if !(self.base.is_marijuana() && self.ingredients.len() == 0) {
            thousandths = thousandths + self.base.addictiveness();
        }
        let percent = thousandths / 10;
        if percent > 100 {
            100
        } else {
            percent
        }
    }

    /// The units that one production cycle of the mix yields.
    pub fn yield_amount(&self, state: MixState) -> (units: u32)
        ensures
            units == self@.spec_yield_amount(state),
            units > 0,
    {
        yield_of(self.base, state)
    }

    /// What a unit of the base costs: the base's cost over the yield.
    pub fn unit_price(&self, state: MixState) -> (price: Ratio)
        ensures
            price.numerator == self@.base.spec_price(state),
            price.denominator == self@.spec_yield_amount(state),
            price.denominator > 0,
    {
        proof {
            use_type_invariant(self);
        }
        Ratio {
            numerator: self.base.price(state) as u128,
            denominator: self.yield_amount(state) as u128,
        }
    }

    /// What a unit of the mix costs: the cost of a production cycle over
    /// the yield.
    pub fn price(&self, state: MixState) -> (price: Ratio)
        ensures
            price.numerator == self@.spec_cycle_cost(state),
            price.denominator == self@.spec_yield_amount(state),
            price.denominator > 0,
    {
        proof {
            use_type_invariant(self);
        }
        let units = self.yield_amount(state) as u128;
        let per_unit = ingredient_total(&self.ingredients);
        let fixed = self.base.price(state) as u128 + one_time_cost(self.base, state) as u128;
        proof {
            assert(self.ingredients.len() <= usize::MAX);
            assert(units * per_unit <= 16 * (9 * usize::MAX)) by (nonlinear_arith)
                requires
                    units <= 16,
                    per_unit <= 9 * usize::MAX,
            ;
        }
        Ratio { numerator: fixed + units * per_unit, denominator: units }
    }
}

impl Clone for Sellable {
    fn clone(&self) -> (copy: Sellable)
        ensures
            copy@ == self@,
    {
        proof {
            use_type_invariant(self);
        }
        Sellable {
            base: self.base,
            name: self.name.clone(),
            effects: self.effects.clone(),
            ingredients: self.ingredients.clone(),
        }
    }
}

} // verus!
