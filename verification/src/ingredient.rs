//! The catalog of ingredients: what each costs and which effect it brings.
use crate::effect::Effect;
use vstd::prelude::*;

verus! {

/// An additive that can be mixed into a product. Each ingredient has a fixed
/// cost and brings one effect of its own.
#[derive(Clone, Copy, Debug, PartialEq, Eq, Hash, Structural)]
pub enum Ingredient {
    Cuke,
    Banana,
    Paracetamol,
    Donut,
    Viagra,
    MouthWash,
    FluMedicine,
    Gasoline,
    EnergyDrink,
    MotorOil,
    MegaBean,
    Chili,
    Battery,
    Iodine,
    Addy,
    HorseSemen,
}

impl Ingredient {
    /// What one unit of the ingredient costs.
    pub open spec fn spec_price(self) -> nat {
        match self {
            Ingredient::Cuke => 2,
            Ingredient::Banana => 2,
            Ingredient::Paracetamol => 3,
            Ingredient::Donut => 3,
            Ingredient::Viagra => 4,
            Ingredient::MouthWash => 4,
            Ingredient::FluMedicine => 5,
            Ingredient::Gasoline => 5,
            Ingredient::EnergyDrink => 6,
            Ingredient::MotorOil => 6,
            Ingredient::MegaBean => 7,
            Ingredient::Chili => 7,
            Ingredient::Battery => 8,
            Ingredient::Iodine => 8,
            Ingredient::Addy => 9,
            Ingredient::HorseSemen => 9,
        }
    }

    /// What one unit of the ingredient costs.
    pub fn price(&self) -> (cost: u32)
        ensures
            cost == self.spec_price(),
            2 <= cost <= 9,
    {
        match self {
            Ingredient::Cuke => 2,
            Ingredient::Banana => 2,
            Ingredient::Paracetamol => 3,
            Ingredient::Donut => 3,
            Ingredient::Viagra => 4,
            Ingredient::MouthWash => 4,
            Ingredient::FluMedicine => 5,
            Ingredient::Gasoline => 5,
            Ingredient::EnergyDrink => 6,
            Ingredient::MotorOil => 6,
            Ingredient::MegaBean => 7,
            Ingredient::Chili => 7,
            Ingredient::Battery => 8,
            Ingredient::Iodine => 8,
            Ingredient::Addy => 9,
            Ingredient::HorseSemen => 9,
        }
    }

    /// The effect that the ingredient brings into a mix.
    pub open spec fn spec_effect(self) -> Effect {
        match self {
            Ingredient::Cuke => Effect::Energizing,
            Ingredient::Banana => Effect::Gingeritis,
            Ingredient::Paracetamol => Effect::Sneaky,
            Ingredient::Donut => Effect::CalorieDense,
            Ingredient::Viagra => Effect::TropicThunder,
            Ingredient::MouthWash => Effect::Balding,
            Ingredient::FluMedicine => Effect::Sedating,
            Ingredient::Gasoline => Effect::Toxic,
            Ingredient::EnergyDrink => Effect::Athletic,
            Ingredient::MotorOil => Effect::Slippery,
            Ingredient::MegaBean => Effect::Foggy,
            Ingredient::Chili => Effect::Spicy,
            Ingredient::Battery => Effect::BrightEyed,
            Ingredient::Iodine => Effect::Jennerising,
            Ingredient::Addy => Effect::ThoughtProvoking,
            Ingredient::HorseSemen => Effect::LongFaced,
        }
    }

    /// The effect that the ingredient brings into a mix.
    pub fn effect(&self) -> (effect: Effect)
        ensures
            effect == self.spec_effect(),
    {
        match self {
            Ingredient::Cuke => Effect::Energizing,
            Ingredient::Banana => Effect::Gingeritis,
            Ingredient::Paracetamol => Effect::Sneaky,
            Ingredient::Donut => Effect::CalorieDense,
            Ingredient::Viagra => Effect::TropicThunder,
            Ingredient::MouthWash => Effect::Balding,
            Ingredient::FluMedicine => Effect::Sedating,
            Ingredient::Gasoline => Effect::Toxic,
            Ingredient::EnergyDrink => Effect::Athletic,
            Ingredient::MotorOil => Effect::Slippery,
            Ingredient::MegaBean => Effect::Foggy,
            Ingredient::Chili => Effect::Spicy,
            Ingredient::Battery => Effect::BrightEyed,
            Ingredient::Iodine => Effect::Jennerising,
            Ingredient::Addy => Effect::ThoughtProvoking,
            Ingredient::HorseSemen => Effect::LongFaced,
        }
    }

    /// The ingredient's display name.
    pub open spec fn spec_name(self) -> Seq<char> {
        match self {
            Ingredient::Cuke => "Cuke"@,
            Ingredient::Banana => "Banana"@,
            Ingredient::Paracetamol => "Paracetamol"@,
            Ingredient::Donut => "Donut"@,
            Ingredient::Viagra => "Viagra"@,
            Ingredient::MouthWash => "MouthWash"@,
            Ingredient::FluMedicine => "FluMedicine"@,
            Ingredient::Gasoline => "Gasoline"@,
            Ingredient::EnergyDrink => "EnergyDrink"@,
            Ingredient::MotorOil => "MotorOil"@,
            Ingredient::MegaBean => "MegaBean"@,
            Ingredient::Chili => "Chili"@,
            Ingredient::Battery => "Battery"@,
            Ingredient::Iodine => "Iodine"@,
            Ingredient::Addy => "Addy"@,
            Ingredient::HorseSemen => "HorseSemen"@,
        }
    }

    /// The ingredient's display name.
    pub fn name(&self) -> (name: &'static str)
        ensures
            name@ == self.spec_name(),
    {
        match self {
            Ingredient::Cuke => "Cuke",
            Ingredient::Banana => "Banana",
            Ingredient::Paracetamol => "Paracetamol",
            Ingredient::Donut => "Donut",
            Ingredient::Viagra => "Viagra",
            Ingredient::MouthWash => "MouthWash",
            Ingredient::FluMedicine => "FluMedicine",
            Ingredient::Gasoline => "Gasoline",
            Ingredient::EnergyDrink => "EnergyDrink",
            Ingredient::MotorOil => "MotorOil",
            Ingredient::MegaBean => "MegaBean",
            Ingredient::Chili => "Chili",
            Ingredient::Battery => "Battery",
            Ingredient::Iodine => "Iodine",
            Ingredient::Addy => "Addy",
            Ingredient::HorseSemen => "HorseSemen",
        }
    }

    /// Every ingredient name has four characters or more, and no two end
    /// in the same four.
    pub proof fn lemma_names_end_apart(self, other: Ingredient)
        ensures
            self.spec_name().len() >= 4,
            ending(self.spec_name()) == ending(other.spec_name()) ==> self == other,
    {
        reveal_strlit("Cuke");
        reveal_strlit("Banana");
        reveal_strlit("Paracetamol");
        reveal_strlit("Donut");
        reveal_strlit("Viagra");
        reveal_strlit("MouthWash");
        reveal_strlit("FluMedicine");
        reveal_strlit("Gasoline");
        reveal_strlit("EnergyDrink");
        reveal_strlit("MotorOil");
        reveal_strlit("MegaBean");
        reveal_strlit("Chili");
        reveal_strlit("Battery");
        reveal_strlit("Iodine");
        reveal_strlit("Addy");
        reveal_strlit("HorseSemen");
    }
}

/// The last four characters of `text`.
pub open spec fn ending(text: Seq<char>) -> (char, char, char, char)
    recommends
        text.len() >= 4,
{
    (text[text.len() - 4], text[text.len() - 3], text[text.len() - 2], text[text.len() - 1])
}

} // verus!
