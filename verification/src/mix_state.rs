//! The growing and cooking conditions of a session.
use crate::quality::Quality;
use vstd::prelude::*;

verus! {

/// An additive that is bought once per production cycle, whatever the yield.
#[derive(Clone, Copy, Debug, PartialEq, Eq, Hash, Structural)]
pub enum OneTimeIngredient {
    PGR,
    Fertilizer,
    SpeedGrow,
}

/// A set of one-time ingredients: each of the three is in it or not.
#[derive(Clone, Copy, Debug, PartialEq, Eq, Hash, Structural)]
pub struct OneTimeSet {
    pgr: bool,
    fertilizer: bool,
    speed_grow: bool,
}

impl View for OneTimeSet {
    type V = Set<OneTimeIngredient>;

    closed spec fn view(&self) -> Set<OneTimeIngredient> {
        Set::new(
            |ingredient: OneTimeIngredient|
                match ingredient {
                    OneTimeIngredient::PGR => self.pgr,
                    OneTimeIngredient::Fertilizer => self.fertilizer,
                    OneTimeIngredient::SpeedGrow => self.speed_grow,
                },
        )
    }
}

impl OneTimeSet {
    /// The empty set.
    pub fn new() -> (set: OneTimeSet)
        ensures
            set@ == Set::<OneTimeIngredient>::empty(),
    {
        OneTimeSet { pgr: false, fertilizer: false, speed_grow: false }
    }

    /// Whether `ingredient` is in the set.
    pub fn contains(&self, ingredient: &OneTimeIngredient) -> (found: bool)
        ensures
            found == self@.contains(*ingredient),
    {
        match ingredient {
            OneTimeIngredient::PGR => self.pgr,
            OneTimeIngredient::Fertilizer => self.fertilizer,
            OneTimeIngredient::SpeedGrow => self.speed_grow,
        }
    }

    /// Puts `ingredient` into the set; returns whether it was absent before.
    pub fn insert(&mut self, ingredient: OneTimeIngredient) -> (added: bool)
        ensures
            final(self)@ == old(self)@.insert(ingredient),
            added == !old(self)@.contains(ingredient),
    {
        let added = !self.contains(&ingredient);
        match ingredient {
            OneTimeIngredient::PGR => {
                self.pgr = true;
            },
            OneTimeIngredient::Fertilizer => {
                self.fertilizer = true;
            },
            OneTimeIngredient::SpeedGrow => {
                self.speed_grow = true;
            },
        }
        added
    }

    /// Takes `ingredient` out of the set; returns whether it was in it.
    pub fn remove(&mut self, ingredient: &OneTimeIngredient) -> (removed: bool)
        ensures
            final(self)@ == old(self)@.remove(*ingredient),
            removed == old(self)@.contains(*ingredient),
    {
        let removed = self.contains(ingredient);
        match ingredient {
            OneTimeIngredient::PGR => {
                self.pgr = false;
            },
            OneTimeIngredient::Fertilizer => {
                self.fertilizer = false;
            },
            OneTimeIngredient::SpeedGrow => {
                self.speed_grow = false;
            },
        }
        removed
    }
}

impl Default for OneTimeSet {
    fn default() -> (set: OneTimeSet)
        ensures
            set@ == Set::<OneTimeIngredient>::empty(),
    {
        OneTimeSet::new()
    }
}

/// The growing and cooking conditions of a session. They bear on cost and
/// yield, never on the effects of a mix.
#[derive(Clone, Copy, Debug, PartialEq, Eq, Structural)]
pub struct MixState {
    /// The one-time ingredients in use.
    pub ingredients: OneTimeSet,
    /// The grade of the soil that plants grow in.
    pub soil_quality: Quality,
    /// The grade of the pseudo that meth is cooked from.
    pub pseudo_quality: Quality,
    /// Whether plants grow in a pot rather than in a grow tent.
    pub use_pot: bool,
}

impl Default for MixState {
    fn default() -> (state: MixState)
        ensures
            state.ingredients@ == Set::<OneTimeIngredient>::empty(),
            state.soil_quality == Quality::Low,
            state.pseudo_quality == Quality::Low,
            !state.use_pot,
    {
        MixState {
            ingredients: OneTimeSet::new(),
            soil_quality: Quality::Low,
            pseudo_quality: Quality::Low,
            use_pot: false,
        }
    }
}

} // verus!
