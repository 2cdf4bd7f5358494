use mix_calculator::{Effect, Ingredient, Product, Sellable};
use std::collections::HashSet;

fn effects(mix: &Sellable) -> HashSet<Effect> {
    mix.effects().to_vec().into_iter().collect()
}

#[test]
fn test_sour() {
    let mix = Sellable::from_product(Product::Marijuana(Effect::Refreshing));
    assert_eq!(effects(&mix), HashSet::from([Effect::Refreshing]));
    assert_eq!(mix.sell_price() as f32, 40.);
    assert_eq!(mix.addictiveness() as f32, 10.);
}

#[test]
fn test_sour_addy() {
    let mix = Sellable::from_product(Product::Marijuana(Effect::Refreshing))
        .add_ingredient(Ingredient::Addy);
    assert_eq!(
        effects(&mix),
        HashSet::from([Effect::Refreshing, Effect::ThoughtProvoking]),
    );
    assert_eq!(mix.sell_price() as f32, 55.);
    assert_eq!(mix.addictiveness() as f32, 52.);
}

#[test]
fn test_sour_banana() {
    let mix = Sellable::from_product(Product::Marijuana(Effect::Refreshing))
        .add_ingredient(Ingredient::Banana);
    assert_eq!(
        effects(&mix),
        HashSet::from([Effect::Refreshing, Effect::Gingeritis]),
    );
    assert_eq!(mix.sell_price() as f32, 47.);
    assert_eq!(mix.addictiveness() as f32, 15.);
}

#[test]
fn test_sour_battery() {
    let mix = Sellable::from_product(Product::Marijuana(Effect::Refreshing))
        .add_ingredient(Ingredient::Battery);
    assert_eq!(
        effects(&mix),
        HashSet::from([Effect::Refreshing, Effect::BrightEyed]),
    );
    assert_eq!(mix.sell_price() as f32, 54.);
    assert_eq!(mix.addictiveness() as f32, 35.);
}

#[test]
fn test_sour_chili() {
    let mix = Sellable::from_product(Product::Marijuana(Effect::Refreshing))
        .add_ingredient(Ingredient::Chili);
    assert_eq!(
        effects(&mix),
        HashSet::from([Effect::Refreshing, Effect::Spicy]),
    );
    assert_eq!(mix.sell_price() as f32, 53.);
    assert_eq!(mix.addictiveness() as f32, 81.);
}

#[test]
fn test_sour_cuke() {
    let mix = Sellable::from_product(Product::Marijuana(Effect::Refreshing))
        .add_ingredient(Ingredient::Cuke);
    assert_eq!(
        effects(&mix),
        HashSet::from([Effect::Refreshing, Effect::Energizing]),
    );
    assert_eq!(mix.sell_price() as f32, 48.);
    assert_eq!(mix.addictiveness() as f32, 49.);
}

#[test]
fn test_sour_donut() {
    let mix = Sellable::from_product(Product::Marijuana(Effect::Refreshing))
        .add_ingredient(Ingredient::Donut);
    assert_eq!(
        effects(&mix),
        HashSet::from([Effect::Refreshing, Effect::CalorieDense]),
    );
    assert_eq!(mix.sell_price() as f32, 50.);
    assert_eq!(mix.addictiveness() as f32, 25.);
}

#[test]
fn test_sour_energydrink() {
    let mix = Sellable::from_product(Product::Marijuana(Effect::Refreshing))
        .add_ingredient(Ingredient::EnergyDrink);
    assert_eq!(
        effects(&mix),
        HashSet::from([Effect::Refreshing, Effect::Athletic]),
    );
    assert_eq!(mix.sell_price() as f32, 51.);
    assert_eq!(mix.addictiveness() as f32, 76.);
}

#[test]
fn test_sour_flumedicine() {
    let mix = Sellable::from_product(Product::Marijuana(Effect::Refreshing))
        .add_ingredient(Ingredient::FluMedicine);
    assert_eq!(
        effects(&mix),
        HashSet::from([Effect::Refreshing, Effect::Sedating]),
    );
    assert_eq!(mix.sell_price() as f32, 49.);
    assert_eq!(mix.addictiveness() as f32, 15.);
}

#[test]
fn test_sour_gasoline() {
    let mix = Sellable::from_product(Product::Marijuana(Effect::Refreshing))
        .add_ingredient(Ingredient::Gasoline);
    assert_eq!(
        effects(&mix),
        HashSet::from([Effect::Refreshing, Effect::Toxic]),
    );
    assert_eq!(mix.sell_price() as f32, 40.);
    assert_eq!(mix.addictiveness() as f32, 15.);
}

#[test]
fn test_sour_horsesemen() {
    let mix = Sellable::from_product(Product::Marijuana(Effect::Refreshing))
        .add_ingredient(Ingredient::HorseSemen);
    assert_eq!(
        effects(&mix),
        HashSet::from([Effect::Refreshing, Effect::LongFaced]),
    );
    assert_eq!(mix.sell_price() as f32, 58.);
    assert_eq!(mix.addictiveness() as f32, 76.);
}

#[test]
fn test_sour_iodine() {
    let mix = Sellable::from_product(Product::Marijuana(Effect::Refreshing))
        .add_ingredient(Ingredient::Iodine);
    assert_eq!(
        effects(&mix),
        HashSet::from([Effect::ThoughtProvoking, Effect::Jennerising]),
    );
    assert_eq!(mix.sell_price() as f32, 65.);
    assert_eq!(mix.addictiveness() as f32, 76.);
}

#[test]
fn test_sour_megabean() {
    let mix = Sellable::from_product(Product::Marijuana(Effect::Refreshing))
        .add_ingredient(Ingredient::MegaBean);
    assert_eq!(
        effects(&mix),
        HashSet::from([Effect::Refreshing, Effect::Foggy]),
    );
    assert_eq!(mix.sell_price() as f32, 52.);
    assert_eq!(mix.addictiveness() as f32, 25.);
}

#[test]
fn test_sour_motoroil() {
    let mix = Sellable::from_product(Product::Marijuana(Effect::Refreshing))
        .add_ingredient(Ingredient::MotorOil);
    assert_eq!(
        effects(&mix),
        HashSet::from([Effect::Refreshing, Effect::Slippery]),
    );
    assert_eq!(mix.sell_price() as f32, 52.);
    assert_eq!(mix.addictiveness() as f32, 46.);
}

#[test]
fn test_sour_mouthwash() {
    let mix = Sellable::from_product(Product::Marijuana(Effect::Refreshing))
        .add_ingredient(Ingredient::MouthWash);
    assert_eq!(
        effects(&mix),
        HashSet::from([Effect::Balding, Effect::Refreshing]),
    );
    assert_eq!(mix.sell_price() as f32, 50.);
    assert_eq!(mix.addictiveness() as f32, 15.);
}

#[test]
fn test_sour_paracetamol() {
    let mix = Sellable::from_product(Product::Marijuana(Effect::Refreshing))
        .add_ingredient(Ingredient::Paracetamol);
    assert_eq!(
        effects(&mix),
        HashSet::from([Effect::Refreshing, Effect::Sneaky]),
    );
    assert_eq!(mix.sell_price() as f32, 48.);
    assert_eq!(mix.addictiveness() as f32, 48.);
}

#[test]
fn test_sour_viagra() {
    let mix = Sellable::from_product(Product::Marijuana(Effect::Refreshing))
        .add_ingredient(Ingredient::Viagra);
    assert_eq!(
        effects(&mix),
        HashSet::from([Effect::Refreshing, Effect::TropicThunder]),
    );
    assert_eq!(mix.sell_price() as f32, 56.);
    assert_eq!(mix.addictiveness() as f32, 95.);
}
