//! The catalog of base products.
use crate::effect::Effect;
use crate::effect_set::EffectSet;
use crate::ingredient::{ending, Ingredient};
use crate::mix_state::MixState;
use crate::quality::Quality;
use vstd::prelude::*;
use vstd::string::StringExecFns;

verus! {

/// A base substance that ingredients are mixed into. A marijuana strain is
/// told apart by the effect that it starts with.
#[derive(Clone, Copy, Debug, PartialEq, Eq, Hash, Structural)]
pub enum Product {
    Marijuana(Effect),
    Meth,
    Cocaine,
}

impl Product {
    /// Whether the catalog knows the product: meth, cocaine, and the four
    /// marijuana strains that start with Calming, Refreshing, Energizing or
    /// Sedating.
    pub open spec fn spec_is_catalogued(self) -> bool {
        match self {
            Product::Marijuana(Effect::Calming) => true,
            Product::Marijuana(Effect::Refreshing) => true,
            Product::Marijuana(Effect::Energizing) => true,
            Product::Marijuana(Effect::Sedating) => true,
            Product::Marijuana(_) => false,
            Product::Meth => true,
            Product::Cocaine => true,
        }
    }

    /// Whether the catalog knows the product.
    pub fn is_catalogued(&self) -> (known: bool)
        ensures
            known == self.spec_is_catalogued(),
    {
        match self {
            Product::Marijuana(Effect::Calming) => true,
            Product::Marijuana(Effect::Refreshing) => true,
            Product::Marijuana(Effect::Energizing) => true,
            Product::Marijuana(Effect::Sedating) => true,
            Product::Marijuana(_) => false,
            Product::Meth => true,
            Product::Cocaine => true,
        }
    }

    /// Whether the product is a marijuana strain.
    pub open spec fn spec_is_marijuana(self) -> bool {
        self is Marijuana
    }

    /// Whether the product is a marijuana strain.
    pub fn is_marijuana(&self) -> (marijuana: bool)
        ensures
            marijuana == self.spec_is_marijuana(),
    {
        match self {
            Product::Marijuana(_) => true,
            Product::Meth => false,
            Product::Cocaine => false,
        }
    }

    /// What one production cycle of the product costs before additives: the
    /// seed of a strain, the pseudo of meth by its grade, the seed of coca.
    /// No cost is defined for a product that the catalog does not know.
    pub open spec fn spec_price(self, state: MixState) -> nat
        recommends
            self.spec_is_catalogued(),
    {
        match self {
            Product::Marijuana(Effect::Calming) => 30,
            Product::Marijuana(Effect::Refreshing) => 35,
            Product::Marijuana(Effect::Energizing) => 40,
            Product::Marijuana(Effect::Sedating) => 45,
            Product::Marijuana(_) => arbitrary(),
            Product::Meth => match state.pseudo_quality {
                Quality::Low => 60,
                Quality::Medium => 80,
                Quality::High => 110,
            },
            Product::Cocaine => 80,
        }
    }

    /// What one production cycle of the product costs before additives.
    pub fn price(&self, state: MixState) -> (cost: u32)
        requires
            self.spec_is_catalogued(),
        ensures
            cost == self.spec_price(state),
            30 <= cost <= 110,
    {
        match self {
            Product::Marijuana(Effect::Calming) => 30,
            Product::Marijuana(Effect::Refreshing) => 35,
            Product::Marijuana(Effect::Energizing) => 40,
            Product::Marijuana(Effect::Sedating) => 45,
            Product::Marijuana(_) => unreached(),
            Product::Meth => match state.pseudo_quality {
                Quality::Low => 60,
                Quality::Medium => 80,
                Quality::High => 110,
            },
            Product::Cocaine => 80,
        }
    }

    /// What a unit of the unmixed product sells for.
    pub open spec fn spec_sell_price(self) -> nat {
        match self {
            Product::Marijuana(_) => 35,
            Product::Meth => 70,
            Product::Cocaine => 150,
        }
    }

    /// What a unit of the unmixed product sells for.
    pub fn sell_price(&self) -> (price: u32)
        ensures
            price == self.spec_sell_price(),
            35 <= price <= 150,
    {
        match self {
            Product::Marijuana(_) => 35,
            Product::Meth => 70,
            Product::Cocaine => 150,
        }
    }

    /// The addictiveness of the product itself, in thousandths.
    pub open spec fn spec_addictiveness(self) -> nat {
        match self {
            Product::Marijuana(_) => 50,
            Product::Meth => 600,
            Product::Cocaine => 400,
        }
    }

    /// The addictiveness of the product itself, in thousandths (`50` stands
    /// for `0.05`).
    pub fn addictiveness(&self) -> (thousandths: u32)
        ensures
            thousandths == self.spec_addictiveness(),
            50 <= thousandths <= 600,
    {
        match self {
            Product::Marijuana(_) => 50,
            Product::Meth => 600,
            Product::Cocaine => 400,
        }
    }

    /// The effects that the unmixed product has: a strain has its own
    /// effect, the others have none.
    pub open spec fn spec_starting_effects(self) -> Set<Effect> {
        match self {
            Product::Marijuana(effect) => Set::<Effect>::empty().insert(effect),
            Product::Meth => Set::<Effect>::empty(),
            Product::Cocaine => Set::<Effect>::empty(),
        }
    }

    /// The effects that the unmixed product has.
    pub fn starting_effects(&self) -> (effects: EffectSet)
        ensures
            effects@ == self.spec_starting_effects(),
    {
        let mut effects = EffectSet::new();
        match self {
            Product::Marijuana(effect) => {
                effects.insert(*effect);
            },
            Product::Meth => {},
            Product::Cocaine => {},
        }
        effects
    }

    /// The product's identity string: the product, and for a strain its
    /// effect in brackets.
    pub open spec fn spec_name(self) -> Seq<char> {
        match self {
            Product::Marijuana(effect) => "Marijuana("@ + effect.spec_name() + ")"@,
            Product::Meth => "Meth"@,
            Product::Cocaine => "Cocaine"@,
        }
    }

    /// The product's identity string.
    pub fn name(&self) -> (name: String)
        ensures
            name@ == self.spec_name(),
    {
        match self {
            Product::Marijuana(effect) => {
                let mut name = String::from_str("Marijuana(");
                name.append(effect.name());
                name.append(")");
                name
            },
            Product::Meth => String::from_str("Meth"),
            Product::Cocaine => String::from_str("Cocaine"),
        }
    }

    /// The name that a fresh mix of the product goes by: the strain's street
    /// name where the catalog has one, the identity string otherwise.
    pub open spec fn spec_display_name(self) -> Seq<char> {
        match self {
            Product::Marijuana(Effect::Calming) => "OG Kush"@,
            Product::Marijuana(Effect::Refreshing) => "Sour Diesel"@,
            Product::Marijuana(Effect::Energizing) => "Green Crack"@,
            Product::Marijuana(Effect::Sedating) => "Granddaddy Purple"@,
            _ => self.spec_name(),
        }
    }

    /// The name that a fresh mix of the product goes by.
    pub fn display_name(&self) -> (name: String)
        ensures
            name@ == self.spec_display_name(),
    {
        match self {
            Product::Marijuana(Effect::Calming) => String::from_str("OG Kush"),
            Product::Marijuana(Effect::Refreshing) => String::from_str("Sour Diesel"),
            Product::Marijuana(Effect::Energizing) => String::from_str("Green Crack"),
            Product::Marijuana(Effect::Sedating) => String::from_str("Granddaddy Purple"),
            _ => self.name(),
        }
    }

    /// No two products share an identity string.
    pub proof fn lemma_names_distinct(self, other: Product)
        requires
            self.spec_name() == other.spec_name(),
        ensures
            self == other,
    {
        reveal_strlit("Marijuana(");
        reveal_strlit(")");
        reveal_strlit("Meth");
        reveal_strlit("Cocaine");
        let name = self.spec_name();
        let other_name = other.spec_name();
        assert(name[0] == other_name[0] && name[1] == other_name[1]);
        match (self, other) {
            (Product::Marijuana(effect), Product::Marijuana(other_effect)) => {
                effect.lemma_names_distinct(other_effect);
                other_effect.lemma_names_distinct(effect);
                assert(name.len() == effect.spec_name().len() + 11);
                assert(other_name.len() == other_effect.spec_name().len() + 11);
                assert(name[10] == effect.spec_name()[0]);
                assert(name[11] == effect.spec_name()[1]);
                assert(other_name[10] == other_effect.spec_name()[0]);
                assert(other_name[11] == other_effect.spec_name()[1]);
            },
            _ => {},
        }
    }

    /// The identity string of a product has four characters or more, and
    /// its last four are those of no ingredient name.
    pub proof fn lemma_name_ends_unlike_ingredient(self, ingredient: Ingredient)
        ensures
            self.spec_name().len() >= 4,
            ending(self.spec_name()) != ending(ingredient.spec_name()),
    {
        reveal_strlit("Marijuana(");
        reveal_strlit(")");
        reveal_strlit("Meth");
        reveal_strlit("Cocaine");
        reveal_strlit("Cuke");
        reveal_strlit("Banana");
        reveal_strlit("Paracetamol");
        reveal_strlit("Donut");
        reveal_strlit("Viagra");
        reveal_strlit("MouthWash");
        reveal_strlit("FluMedicine");
        reveal_strlit("Gasoline");
        reveal_strlit("EnergyDrink");
        reveal_strlit("MotorOil");
        reveal_strlit("MegaBean");
        reveal_strlit("Chili");
        reveal_strlit("Battery");
        reveal_strlit("Iodine");
        reveal_strlit("Addy");
        reveal_strlit("HorseSemen");
        let name = self.spec_name();
        assert(ending(name).3 == name[name.len() - 1]);
        assert(ending(name).0 == name[name.len() - 4]);
        assert(ending(name).1 == name[name.len() - 3]);
    }
}

} // verus!
