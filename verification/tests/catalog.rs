use mix_calculator::{Effect, Ingredient, MixState, Product, Quality};

const ALL_EFFECTS: [Effect; 35] = [
    Effect::AntiGravity,
    Effect::Athletic,
    Effect::Balding,
    Effect::BrightEyed,
    Effect::Calming,
    Effect::CalorieDense,
    Effect::Cyclopean,
    Effect::Disorienting,
    Effect::Electrifying,
    Effect::Energizing,
    Effect::Euphoric,
    Effect::Explosive,
    Effect::Focused,
    Effect::Foggy,
    Effect::Gingeritis,
    Effect::Glowing,
    Effect::Jennerising,
    Effect::Laxative,
    Effect::Lethal,
    Effect::LongFaced,
    Effect::Munchies,
    Effect::Paranoia,
    Effect::Refreshing,
    Effect::Schizophrenic,
    Effect::Sedating,
    Effect::SeizureInducing,
    Effect::Shrinking,
    Effect::Slippery,
    Effect::Smelly,
    Effect::Sneaky,
    Effect::Spicy,
    Effect::ThoughtProvoking,
    Effect::Toxic,
    Effect::TropicThunder,
    Effect::Zombifying,
];

const ALL_INGREDIENTS: [Ingredient; 16] = [
    Ingredient::Cuke,
    Ingredient::Banana,
    Ingredient::Paracetamol,
    Ingredient::Donut,
    Ingredient::Viagra,
    Ingredient::MouthWash,
    Ingredient::FluMedicine,
    Ingredient::Gasoline,
    Ingredient::EnergyDrink,
    Ingredient::MotorOil,
    Ingredient::MegaBean,
    Ingredient::Chili,
    Ingredient::Battery,
    Ingredient::Iodine,
    Ingredient::Addy,
    Ingredient::HorseSemen,
];

#[test]
fn effect_multipliers_are_in_hundredths() {
    assert_eq!(Effect::AntiGravity.multiplier(), 54);
    assert_eq!(Effect::Calming.multiplier(), 10);
    assert_eq!(Effect::Shrinking.multiplier(), 60);
    assert_eq!(Effect::ThoughtProvoking.multiplier(), 44);
    assert_eq!(Effect::Zombifying.multiplier(), 58);
    assert_eq!(Effect::Balding.multiplier() as f32 / 100., 0.3);
    assert_eq!(Effect::Sedating.multiplier() as f32 / 100., 0.26);
}

#[test]
fn inert_effects_add_nothing_to_the_price() {
    for effect in [
        Effect::Disorienting,
        Effect::Explosive,
        Effect::Laxative,
        Effect::Lethal,
        Effect::Paranoia,
        Effect::Schizophrenic,
        Effect::SeizureInducing,
        Effect::Smelly,
        Effect::Toxic,
    ] {
        assert_eq!(effect.multiplier(), 0);
    }
}

#[test]
fn every_effect_has_a_multiplier_and_an_addictiveness() {
    let multipliers: u32 = ALL_EFFECTS.iter().map(|effect| effect.multiplier()).sum();
    let addictiveness: u32 = ALL_EFFECTS.iter().map(|effect| effect.addictiveness()).sum();
    assert_eq!(multipliers, 910);
    assert_eq!(addictiveness, 7762);
}

#[test]
fn effect_addictiveness_is_in_thousandths() {
    assert_eq!(Effect::AntiGravity.addictiveness(), 611);
    assert_eq!(Effect::TropicThunder.addictiveness(), 803);
    assert_eq!(Effect::Calming.addictiveness(), 0);
    assert_eq!(Effect::Munchies.addictiveness(), 96);
    assert_eq!(Effect::Electrifying.addictiveness() as f32 / 1000., 0.235);
}

#[test]
fn effect_names_are_distinct() {
    for (at, effect) in ALL_EFFECTS.iter().enumerate() {
        assert_eq!(effect.name(), format!("{:?}", effect));
        for other in &ALL_EFFECTS[at + 1..] {
            assert_ne!(effect.name(), other.name());
        }
    }
}

#[test]
fn ingredient_prices() {
    let prices: Vec<u32> = ALL_INGREDIENTS.iter().map(|ingredient| ingredient.price()).collect();
    assert_eq!(prices, vec![2, 2, 3, 3, 4, 4, 5, 5, 6, 6, 7, 7, 8, 8, 9, 9]);
}

#[test]
fn ingredient_effects() {
    let effects: Vec<Effect> = ALL_INGREDIENTS.iter().map(|ingredient| ingredient.effect()).collect();
    assert_eq!(
        effects,
        vec![
            Effect::Energizing,
            Effect::Gingeritis,
            Effect::Sneaky,
            Effect::CalorieDense,
            Effect::TropicThunder,
            Effect::Balding,
            Effect::Sedating,
            Effect::Toxic,
            Effect::Athletic,
            Effect::Slippery,
            Effect::Foggy,
            Effect::Spicy,
            Effect::BrightEyed,
            Effect::Jennerising,
            Effect::ThoughtProvoking,
            Effect::LongFaced,
        ]
    );
}

#[test]
fn ingredient_names_are_distinct() {
    for (at, ingredient) in ALL_INGREDIENTS.iter().enumerate() {
        assert_eq!(ingredient.name(), format!("{:?}", ingredient));
        for other in &ALL_INGREDIENTS[at + 1..] {
            assert_ne!(ingredient.name(), other.name());
        }
    }
}

#[test]
fn the_catalog_knows_four_strains_meth_and_cocaine() {
    let known: Vec<Effect> = ALL_EFFECTS
        .iter()
        .copied()
        .filter(|effect| Product::Marijuana(*effect).is_catalogued())
        .collect();
    assert_eq!(
        known,
        vec![Effect::Calming, Effect::Energizing, Effect::Refreshing, Effect::Sedating]
    );
    assert!(Product::Meth.is_catalogued());
    assert!(Product::Cocaine.is_catalogued());
}

#[test]
fn strain_prices() {
    let state = MixState::default();
    assert_eq!(Product::Marijuana(Effect::Calming).price(state), 30);
    assert_eq!(Product::Marijuana(Effect::Refreshing).price(state), 35);
    assert_eq!(Product::Marijuana(Effect::Energizing).price(state), 40);
    assert_eq!(Product::Marijuana(Effect::Sedating).price(state), 45);
    assert_eq!(Product::Cocaine.price(state), 80);
}

#[test]
fn meth_price_goes_by_the_pseudo() {
    let mut state = MixState::default();
    assert_eq!(Product::Meth.price(state), 60);
    state.pseudo_quality = Quality::Medium;
    assert_eq!(Product::Meth.price(state), 80);
    state.pseudo_quality = Quality::High;
    assert_eq!(Product::Meth.price(state), 110);
    assert_eq!(Product::Cocaine.price(state), 80);
    assert_eq!(Product::Marijuana(Effect::Calming).price(state), 30);
}

#[test]
fn soil_does_not_change_the_price_of_a_product() {
    let mut state = MixState::default();
    state.soil_quality = Quality::High;
    assert_eq!(Product::Meth.price(state), 60);
    assert_eq!(Product::Cocaine.price(state), 80);
    assert_eq!(Product::Marijuana(Effect::Sedating).price(state), 45);
}

#[test]
fn base_sell_prices_and_addictiveness() {
    assert_eq!(Product::Marijuana(Effect::Calming).sell_price(), 35);
    assert_eq!(Product::Marijuana(Effect::Sedating).sell_price(), 35);
    assert_eq!(Product::Meth.sell_price(), 70);
    assert_eq!(Product::Cocaine.sell_price(), 150);
    assert_eq!(Product::Marijuana(Effect::Calming).addictiveness(), 50);
    assert_eq!(Product::Meth.addictiveness(), 600);
    assert_eq!(Product::Cocaine.addictiveness(), 400);
    assert_eq!(Product::Cocaine.addictiveness() as f32 / 1000., 0.4);
}

#[test]
fn a_strain_starts_with_its_effect() {
    let effects = Product::Marijuana(Effect::Energizing).starting_effects();
    assert_eq!(effects.to_vec(), vec![Effect::Energizing]);
    assert!(Product::Meth.starting_effects().is_empty());
    assert!(Product::Cocaine.starting_effects().is_empty());
}

#[test]
fn product_names() {
    assert_eq!(Product::Meth.name(), "Meth");
    assert_eq!(Product::Cocaine.name(), "Cocaine");
    assert_eq!(Product::Marijuana(Effect::Calming).name(), "Marijuana(Calming)");
    assert_eq!(Product::Marijuana(Effect::TropicThunder).name(), "Marijuana(TropicThunder)");
    for effect in ALL_EFFECTS {
        let product = Product::Marijuana(effect);
        assert_eq!(product.name(), format!("{:?}", product));
    }
}

#[test]
fn display_names() {
    assert_eq!(Product::Marijuana(Effect::Calming).display_name(), "OG Kush");
    assert_eq!(Product::Marijuana(Effect::Refreshing).display_name(), "Sour Diesel");
    assert_eq!(Product::Marijuana(Effect::Energizing).display_name(), "Green Crack");
    assert_eq!(Product::Marijuana(Effect::Sedating).display_name(), "Granddaddy Purple");
    assert_eq!(Product::Marijuana(Effect::Foggy).display_name(), "Marijuana(Foggy)");
    assert_eq!(Product::Meth.display_name(), "Meth");
    assert_eq!(Product::Cocaine.display_name(), "Cocaine");
}

#[test]
fn only_marijuana_is_a_strain() {
    assert!(Product::Marijuana(Effect::Calming).is_marijuana());
    assert!(!Product::Meth.is_marijuana());
    assert!(!Product::Cocaine.is_marijuana());
}

#[test]
fn quality_defaults_to_low() {
    assert_eq!(Quality::default(), Quality::Low);
}
