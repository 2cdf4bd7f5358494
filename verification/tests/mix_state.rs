use mix_calculator::{MixState, OneTimeIngredient, OneTimeSet, Quality};

#[test]
fn the_default_state_uses_nothing() {
    let state = MixState::default();
    assert!(!state.ingredients.contains(&OneTimeIngredient::PGR));
    assert!(!state.ingredients.contains(&OneTimeIngredient::Fertilizer));
    assert!(!state.ingredients.contains(&OneTimeIngredient::SpeedGrow));
    assert_eq!(state.soil_quality, Quality::Low);
    assert_eq!(state.pseudo_quality, Quality::Low);
    assert!(!state.use_pot);
}

#[test]
fn a_one_time_ingredient_is_in_the_set_at_most_once() {
    let mut set = OneTimeSet::new();
    assert!(set.insert(OneTimeIngredient::PGR));
    assert!(!set.insert(OneTimeIngredient::PGR));
    assert!(set.contains(&OneTimeIngredient::PGR));
    assert!(!set.contains(&OneTimeIngredient::Fertilizer));
    assert!(set.remove(&OneTimeIngredient::PGR));
    assert!(!set.remove(&OneTimeIngredient::PGR));
    assert_eq!(set, OneTimeSet::new());
}

#[test]
fn the_three_one_time_ingredients_are_independent() {
    let mut set = OneTimeSet::default();
    set.insert(OneTimeIngredient::Fertilizer);
    set.insert(OneTimeIngredient::SpeedGrow);
    assert!(!set.contains(&OneTimeIngredient::PGR));
    assert!(set.contains(&OneTimeIngredient::Fertilizer));
    assert!(set.contains(&OneTimeIngredient::SpeedGrow));
    set.remove(&OneTimeIngredient::Fertilizer);
    assert!(!set.contains(&OneTimeIngredient::Fertilizer));
    assert!(set.contains(&OneTimeIngredient::SpeedGrow));
}

#[test]
fn states_compare_by_their_fields() {
    let mut one = MixState::default();
    let mut other = MixState::default();
    assert!(one == other);
    one.ingredients.insert(OneTimeIngredient::PGR);
    assert!(one != other);
    other.ingredients.insert(OneTimeIngredient::PGR);
    assert!(one == other);
    other.use_pot = true;
    assert!(one != other);
}
