//! The reaction table, and what adding an ingredient does to the effects of a
//! mix.
use crate::effect::{lemma_effects_are_few, Effect};
use crate::effect_set::EffectSet;
use vstd::prelude::*;

verus! {

/// The most effects that a mix can carry.
pub const CAPACITY: usize = 8;

/// A condition on the effects that a mix had before the ingredient was added.
#[derive(Clone, Copy, Debug, PartialEq, Eq, Structural)]
pub enum Guard {
    /// Holds of every mix.
    Always,
    /// Holds when the mix had the effect.
    Present(Effect),
    /// Holds when the mix did not have the effect.
    Absent(Effect),
}

impl Guard {
    /// Whether the guard holds of a mix with the effects `before`.
    pub open spec fn spec_holds(self, before: Set<Effect>) -> bool {
        match self {
            Guard::Always => true,
            Guard::Present(effect) => before.contains(effect),
            Guard::Absent(effect) => !before.contains(effect),
        }
    }

    /// Whether the guard holds of a mix with the effects `before`.
    pub fn holds(&self, before: &EffectSet) -> (held: bool)
        ensures
            held == self.spec_holds(before@),
    {
        match self {
            Guard::Always => true,
            Guard::Present(effect) => before.contains(effect),
            Guard::Absent(effect) => !before.contains(effect),
        }
    }
}

/// One entry of the reaction table: under the entry's ingredient, a mix that
/// has `existing` and meets `guard` trades `existing` for `replacement`.
#[derive(Clone, Copy, Debug, PartialEq, Eq, Structural)]
pub struct Rule {
    /// The effect that the rule takes out of the mix.
    pub existing: Effect,
    /// The effect that the rule puts in its place.
    pub replacement: Effect,
    /// What the mix must have looked like before the ingredient was added.
    pub guard: Guard,
}

impl Rule {
    /// Whether the rule is selected for a mix with the effects `before`: the
    /// mix has `existing`, and the guard holds of it.
    pub open spec fn spec_fires(self, before: Set<Effect>) -> bool {
        before.contains(self.existing) && self.guard.spec_holds(before)
    }

    /// Whether the rule is selected for a mix with the effects `before`.
    pub fn fires(&self, before: &EffectSet) -> (fired: bool)
        ensures
            fired == self.spec_fires(before@),
    {
        before.contains(&self.existing) && self.guard.holds(before)
    }

    /// The working set after this rule has had its turn. A selected rule
    /// trades `existing` for `replacement`, unless the working set already
    /// has `replacement`: then it leaves the working set as it is.
    pub open spec fn spec_apply(self, before: Set<Effect>, working: Set<Effect>) -> Set<Effect> {
        if self.spec_fires(before) && !working.contains(self.replacement) {
            working.remove(self.existing).insert(self.replacement)
        } else {
            working
        }
    }
}

/// The reaction table: for each effect that an ingredient can bring, the
/// rules that it triggers, in the order in which they take their turn.
///
/// Within one list a rule that frees an effect stands before the rule that
/// produces that effect, so that a chain such as Jennerising to Sneaky and
/// Sneaky to Tropic Thunder moves both effects in one pass.
pub open spec fn rule_table(incoming: Effect) -> Seq<Rule> {
    match incoming {
        Effect::Athletic => seq![
            Rule { existing: Effect::Disorienting, replacement: Effect::Electrifying, guard: Guard::Always },
            Rule { existing: Effect::Euphoric, replacement: Effect::Energizing, guard: Guard::Always },
            Rule { existing: Effect::Focused, replacement: Effect::Shrinking, guard: Guard::Always },
            Rule { existing: Effect::Foggy, replacement: Effect::Laxative, guard: Guard::Always },
            Rule { existing: Effect::Glowing, replacement: Effect::Disorienting, guard: Guard::Always },
            Rule { existing: Effect::Schizophrenic, replacement: Effect::Balding, guard: Guard::Always },
            Rule { existing: Effect::Sedating, replacement: Effect::Munchies, guard: Guard::Always },
            Rule { existing: Effect::Spicy, replacement: Effect::Euphoric, guard: Guard::Always },
            Rule { existing: Effect::TropicThunder, replacement: Effect::Sneaky, guard: Guard::Always },
        ],
        Effect::Balding => seq![
            Rule { existing: Effect::Calming, replacement: Effect::AntiGravity, guard: Guard::Always },
            Rule { existing: Effect::CalorieDense, replacement: Effect::Sneaky, guard: Guard::Always },
            Rule { existing: Effect::Explosive, replacement: Effect::Sedating, guard: Guard::Always },
            Rule { existing: Effect::Focused, replacement: Effect::Jennerising, guard: Guard::Always },
        ],
        Effect::BrightEyed => seq![
            Rule { existing: Effect::Cyclopean, replacement: Effect::Glowing, guard: Guard::Always },
            Rule { existing: Effect::Euphoric, replacement: Effect::Zombifying, guard: Guard::Absent(Effect::Electrifying) },
            Rule { existing: Effect::Electrifying, replacement: Effect::Euphoric, guard: Guard::Absent(Effect::Zombifying) },
            Rule { existing: Effect::Laxative, replacement: Effect::CalorieDense, guard: Guard::Always },
            Rule { existing: Effect::Munchies, replacement: Effect::TropicThunder, guard: Guard::Always },
            Rule { existing: Effect::Shrinking, replacement: Effect::Munchies, guard: Guard::Always },
        ],
        Effect::CalorieDense => seq![
            Rule { existing: Effect::AntiGravity, replacement: Effect::Slippery, guard: Guard::Always },
            Rule { existing: Effect::Balding, replacement: Effect::Sneaky, guard: Guard::Always },
            Rule { existing: Effect::CalorieDense, replacement: Effect::Explosive, guard: Guard::Always },
            Rule { existing: Effect::Focused, replacement: Effect::Euphoric, guard: Guard::Always },
            Rule { existing: Effect::Jennerising, replacement: Effect::Gingeritis, guard: Guard::Always },
            Rule { existing: Effect::Shrinking, replacement: Effect::Energizing, guard: Guard::Always },
        ],
        Effect::Energizing => seq![
            Rule { existing: Effect::Euphoric, replacement: Effect::Laxative, guard: Guard::Always },
            Rule { existing: Effect::Foggy, replacement: Effect::Cyclopean, guard: Guard::Always },
            Rule { existing: Effect::Gingeritis, replacement: Effect::ThoughtProvoking, guard: Guard::Always },
            Rule { existing: Effect::Munchies, replacement: Effect::Athletic, guard: Guard::Always },
            Rule { existing: Effect::Slippery, replacement: Effect::Munchies, guard: Guard::Always },
            Rule { existing: Effect::Slippery, replacement: Effect::Athletic, guard: Guard::Present(Effect::Munchies) },
            Rule { existing: Effect::Sneaky, replacement: Effect::Paranoia, guard: Guard::Always },
            Rule { existing: Effect::Toxic, replacement: Effect::Euphoric, guard: Guard::Always },
        ],
        Effect::Foggy => seq![
            Rule { existing: Effect::Athletic, replacement: Effect::Laxative, guard: Guard::Always },
            Rule { existing: Effect::Calming, replacement: Effect::Glowing, guard: Guard::Always },
            Rule { existing: Effect::Energizing, replacement: Effect::Cyclopean, guard: Guard::Absent(Effect::ThoughtProvoking) },
            Rule { existing: Effect::Focused, replacement: Effect::Disorienting, guard: Guard::Always },
            Rule { existing: Effect::Jennerising, replacement: Effect::Paranoia, guard: Guard::Always },
            Rule { existing: Effect::SeizureInducing, replacement: Effect::Focused, guard: Guard::Always },
            Rule { existing: Effect::Shrinking, replacement: Effect::Electrifying, guard: Guard::Always },
            Rule { existing: Effect::Slippery, replacement: Effect::Toxic, guard: Guard::Always },
            Rule { existing: Effect::Sneaky, replacement: Effect::Calming, guard: Guard::Always },
            Rule { existing: Effect::ThoughtProvoking, replacement: Effect::Cyclopean, guard: Guard::Always },
        ],
        Effect::Gingeritis => seq![
            Rule { existing: Effect::Calming, replacement: Effect::Sneaky, guard: Guard::Always },
            Rule { existing: Effect::Cyclopean, replacement: Effect::ThoughtProvoking, guard: Guard::Always },
            Rule { existing: Effect::Focused, replacement: Effect::SeizureInducing, guard: Guard::Always },
            Rule { existing: Effect::Disorienting, replacement: Effect::Focused, guard: Guard::Always },
            Rule { existing: Effect::Energizing, replacement: Effect::ThoughtProvoking, guard: Guard::Absent(Effect::Cyclopean) },
            Rule { existing: Effect::LongFaced, replacement: Effect::Refreshing, guard: Guard::Always },
            Rule { existing: Effect::Paranoia, replacement: Effect::Jennerising, guard: Guard::Always },
            Rule { existing: Effect::Smelly, replacement: Effect::AntiGravity, guard: Guard::Always },
            Rule { existing: Effect::Toxic, replacement: Effect::Smelly, guard: Guard::Always },
        ],
        Effect::Jennerising => seq![
            Rule { existing: Effect::Calming, replacement: Effect::Balding, guard: Guard::Always },
            Rule { existing: Effect::CalorieDense, replacement: Effect::Gingeritis, guard: Guard::Always },
            Rule { existing: Effect::Euphoric, replacement: Effect::SeizureInducing, guard: Guard::Always },
            Rule { existing: Effect::Foggy, replacement: Effect::Paranoia, guard: Guard::Always },
            Rule { existing: Effect::Refreshing, replacement: Effect::ThoughtProvoking, guard: Guard::Always },
            Rule { existing: Effect::Toxic, replacement: Effect::Sneaky, guard: Guard::Always },
        ],
        Effect::LongFaced => seq![
            Rule { existing: Effect::AntiGravity, replacement: Effect::Calming, guard: Guard::Always },
            Rule { existing: Effect::Gingeritis, replacement: Effect::Refreshing, guard: Guard::Always },
            Rule { existing: Effect::ThoughtProvoking, replacement: Effect::Electrifying, guard: Guard::Always },
        ],
        Effect::Sedating => seq![
            Rule { existing: Effect::Munchies, replacement: Effect::Slippery, guard: Guard::Always },
            Rule { existing: Effect::Athletic, replacement: Effect::Munchies, guard: Guard::Always },
            Rule { existing: Effect::Calming, replacement: Effect::BrightEyed, guard: Guard::Always },
            Rule { existing: Effect::Cyclopean, replacement: Effect::Foggy, guard: Guard::Always },
            Rule { existing: Effect::Electrifying, replacement: Effect::Refreshing, guard: Guard::Always },
            Rule { existing: Effect::Euphoric, replacement: Effect::Toxic, guard: Guard::Always },
            Rule { existing: Effect::Focused, replacement: Effect::Calming, guard: Guard::Always },
            Rule { existing: Effect::Laxative, replacement: Effect::Euphoric, guard: Guard::Always },
            Rule { existing: Effect::Shrinking, replacement: Effect::Paranoia, guard: Guard::Always },
            Rule { existing: Effect::ThoughtProvoking, replacement: Effect::Gingeritis, guard: Guard::Always },
        ],
        Effect::Slippery => seq![
            Rule { existing: Effect::Munchies, replacement: Effect::Schizophrenic, guard: Guard::Absent(Effect::Energizing) },
            Rule { existing: Effect::Energizing, replacement: Effect::Munchies, guard: Guard::Always },
            Rule { existing: Effect::Euphoric, replacement: Effect::Sedating, guard: Guard::Always },
            Rule { existing: Effect::Foggy, replacement: Effect::Toxic, guard: Guard::Always },
            Rule { existing: Effect::Paranoia, replacement: Effect::AntiGravity, guard: Guard::Always },
        ],
        Effect::Sneaky => seq![
            Rule { existing: Effect::Calming, replacement: Effect::Slippery, guard: Guard::Always },
            Rule { existing: Effect::Electrifying, replacement: Effect::Athletic, guard: Guard::Always },
            Rule { existing: Effect::Paranoia, replacement: Effect::Balding, guard: Guard::Always },
            Rule { existing: Effect::Energizing, replacement: Effect::Paranoia, guard: Guard::Always },
            Rule { existing: Effect::Focused, replacement: Effect::Gingeritis, guard: Guard::Always },
            Rule { existing: Effect::Foggy, replacement: Effect::Calming, guard: Guard::Always },
            Rule { existing: Effect::Toxic, replacement: Effect::TropicThunder, guard: Guard::Always },
            Rule { existing: Effect::Glowing, replacement: Effect::Toxic, guard: Guard::Always },
            Rule { existing: Effect::Munchies, replacement: Effect::AntiGravity, guard: Guard::Always },
            Rule { existing: Effect::Spicy, replacement: Effect::BrightEyed, guard: Guard::Always },
        ],
        Effect::Spicy => seq![
            Rule { existing: Effect::AntiGravity, replacement: Effect::TropicThunder, guard: Guard::Always },
            Rule { existing: Effect::Athletic, replacement: Effect::Euphoric, guard: Guard::Always },
            Rule { existing: Effect::Laxative, replacement: Effect::LongFaced, guard: Guard::Always },
            Rule { existing: Effect::Munchies, replacement: Effect::Toxic, guard: Guard::Always },
            Rule { existing: Effect::Shrinking, replacement: Effect::Refreshing, guard: Guard::Always },
            Rule { existing: Effect::Sneaky, replacement: Effect::BrightEyed, guard: Guard::Always },
        ],
        Effect::ThoughtProvoking => seq![
            Rule { existing: Effect::Explosive, replacement: Effect::Euphoric, guard: Guard::Always },
            Rule { existing: Effect::Foggy, replacement: Effect::Energizing, guard: Guard::Always },
            Rule { existing: Effect::Glowing, replacement: Effect::Refreshing, guard: Guard::Always },
            Rule { existing: Effect::LongFaced, replacement: Effect::Electrifying, guard: Guard::Always },
            Rule { existing: Effect::Sedating, replacement: Effect::Gingeritis, guard: Guard::Always },
        ],
        Effect::Toxic => seq![
            Rule { existing: Effect::Disorienting, replacement: Effect::Glowing, guard: Guard::Always },
            Rule { existing: Effect::Electrifying, replacement: Effect::Disorienting, guard: Guard::Always },
            Rule { existing: Effect::Euphoric, replacement: Effect::Spicy, guard: Guard::Absent(Effect::Energizing) },
            Rule { existing: Effect::Energizing, replacement: Effect::Euphoric, guard: Guard::Always },
            Rule { existing: Effect::Gingeritis, replacement: Effect::Smelly, guard: Guard::Always },
            Rule { existing: Effect::Sneaky, replacement: Effect::TropicThunder, guard: Guard::Always },
            Rule { existing: Effect::Jennerising, replacement: Effect::Sneaky, guard: Guard::Always },
            Rule { existing: Effect::Laxative, replacement: Effect::Foggy, guard: Guard::Always },
            Rule { existing: Effect::Munchies, replacement: Effect::Sedating, guard: Guard::Always },
            Rule { existing: Effect::Paranoia, replacement: Effect::Calming, guard: Guard::Always },
            Rule { existing: Effect::Shrinking, replacement: Effect::Focused, guard: Guard::Always },
        ],
        Effect::TropicThunder => seq![
            Rule { existing: Effect::Athletic, replacement: Effect::Sneaky, guard: Guard::Always },
            Rule { existing: Effect::Disorienting, replacement: Effect::Toxic, guard: Guard::Always },
            Rule { existing: Effect::Euphoric, replacement: Effect::BrightEyed, guard: Guard::Always },
            Rule { existing: Effect::Laxative, replacement: Effect::Calming, guard: Guard::Always },
        ],
        _ => Seq::empty(),
    }
}

/// The rules that `incoming` triggers, in table order.
pub fn rules_for(incoming: Effect) -> (rules: Vec<Rule>)
    ensures
        rules@ == rule_table(incoming),
{
    match incoming {
        Effect::Athletic => vec![
            Rule { existing: Effect::Disorienting, replacement: Effect::Electrifying, guard: Guard::Always },
            Rule { existing: Effect::Euphoric, replacement: Effect::Energizing, guard: Guard::Always },
            Rule { existing: Effect::Focused, replacement: Effect::Shrinking, guard: Guard::Always },
            Rule { existing: Effect::Foggy, replacement: Effect::Laxative, guard: Guard::Always },
            Rule { existing: Effect::Glowing, replacement: Effect::Disorienting, guard: Guard::Always },
            Rule { existing: Effect::Schizophrenic, replacement: Effect::Balding, guard: Guard::Always },
            Rule { existing: Effect::Sedating, replacement: Effect::Munchies, guard: Guard::Always },
            Rule { existing: Effect::Spicy, replacement: Effect::Euphoric, guard: Guard::Always },
            Rule { existing: Effect::TropicThunder, replacement: Effect::Sneaky, guard: Guard::Always },
        ],
        Effect::Balding => vec![
            Rule { existing: Effect::Calming, replacement: Effect::AntiGravity, guard: Guard::Always },
            Rule { existing: Effect::CalorieDense, replacement: Effect::Sneaky, guard: Guard::Always },
            Rule { existing: Effect::Explosive, replacement: Effect::Sedating, guard: Guard::Always },
            Rule { existing: Effect::Focused, replacement: Effect::Jennerising, guard: Guard::Always },
        ],
        Effect::BrightEyed => vec![
            Rule { existing: Effect::Cyclopean, replacement: Effect::Glowing, guard: Guard::Always },
            Rule { existing: Effect::Euphoric, replacement: Effect::Zombifying, guard: Guard::Absent(Effect::Electrifying) },
            Rule { existing: Effect::Electrifying, replacement: Effect::Euphoric, guard: Guard::Absent(Effect::Zombifying) },
            Rule { existing: Effect::Laxative, replacement: Effect::CalorieDense, guard: Guard::Always },
            Rule { existing: Effect::Munchies, replacement: Effect::TropicThunder, guard: Guard::Always },
            Rule { existing: Effect::Shrinking, replacement: Effect::Munchies, guard: Guard::Always },
        ],
        Effect::CalorieDense => vec![
            Rule { existing: Effect::AntiGravity, replacement: Effect::Slippery, guard: Guard::Always },
            Rule { existing: Effect::Balding, replacement: Effect::Sneaky, guard: Guard::Always },
            Rule { existing: Effect::CalorieDense, replacement: Effect::Explosive, guard: Guard::Always },
            Rule { existing: Effect::Focused, replacement: Effect::Euphoric, guard: Guard::Always },
            Rule { existing: Effect::Jennerising, replacement: Effect::Gingeritis, guard: Guard::Always },
            Rule { existing: Effect::Shrinking, replacement: Effect::Energizing, guard: Guard::Always },
        ],
        Effect::Energizing => vec![
            Rule { existing: Effect::Euphoric, replacement: Effect::Laxative, guard: Guard::Always },
            Rule { existing: Effect::Foggy, replacement: Effect::Cyclopean, guard: Guard::Always },
            Rule { existing: Effect::Gingeritis, replacement: Effect::ThoughtProvoking, guard: Guard::Always },
            Rule { existing: Effect::Munchies, replacement: Effect::Athletic, guard: Guard::Always },
            Rule { existing: Effect::Slippery, replacement: Effect::Munchies, guard: Guard::Always },
            Rule { existing: Effect::Slippery, replacement: Effect::Athletic, guard: Guard::Present(Effect::Munchies) },
            Rule { existing: Effect::Sneaky, replacement: Effect::Paranoia, guard: Guard::Always },
            Rule { existing: Effect::Toxic, replacement: Effect::Euphoric, guard: Guard::Always },
        ],
        Effect::Foggy => vec![
            Rule { existing: Effect::Athletic, replacement: Effect::Laxative, guard: Guard::Always },
            Rule { existing: Effect::Calming, replacement: Effect::Glowing, guard: Guard::Always },
            Rule { existing: Effect::Energizing, replacement: Effect::Cyclopean, guard: Guard::Absent(Effect::ThoughtProvoking) },
            Rule { existing: Effect::Focused, replacement: Effect::Disorienting, guard: Guard::Always },
            Rule { existing: Effect::Jennerising, replacement: Effect::Paranoia, guard: Guard::Always },
            Rule { existing: Effect::SeizureInducing, replacement: Effect::Focused, guard: Guard::Always },
            Rule { existing: Effect::Shrinking, replacement: Effect::Electrifying, guard: Guard::Always },
            Rule { existing: Effect::Slippery, replacement: Effect::Toxic, guard: Guard::Always },
            Rule { existing: Effect::Sneaky, replacement: Effect::Calming, guard: Guard::Always },
            Rule { existing: Effect::ThoughtProvoking, replacement: Effect::Cyclopean, guard: Guard::Always },
        ],
        Effect::Gingeritis => vec![
            Rule { existing: Effect::Calming, replacement: Effect::Sneaky, guard: Guard::Always },
            Rule { existing: Effect::Cyclopean, replacement: Effect::ThoughtProvoking, guard: Guard::Always },
            Rule { existing: Effect::Focused, replacement: Effect::SeizureInducing, guard: Guard::Always },
            Rule { existing: Effect::Disorienting, replacement: Effect::Focused, guard: Guard::Always },
            Rule { existing: Effect::Energizing, replacement: Effect::ThoughtProvoking, guard: Guard::Absent(Effect::Cyclopean) },
            Rule { existing: Effect::LongFaced, replacement: Effect::Refreshing, guard: Guard::Always },
            Rule { existing: Effect::Paranoia, replacement: Effect::Jennerising, guard: Guard::Always },
            Rule { existing: Effect::Smelly, replacement: Effect::AntiGravity, guard: Guard::Always },
            Rule { existing: Effect::Toxic, replacement: Effect::Smelly, guard: Guard::Always },
        ],
        Effect::Jennerising => vec![
            Rule { existing: Effect::Calming, replacement: Effect::Balding, guard: Guard::Always },
            Rule { existing: Effect::CalorieDense, replacement: Effect::Gingeritis, guard: Guard::Always },
            Rule { existing: Effect::Euphoric, replacement: Effect::SeizureInducing, guard: Guard::Always },
            Rule { existing: Effect::Foggy, replacement: Effect::Paranoia, guard: Guard::Always },
            Rule { existing: Effect::Refreshing, replacement: Effect::ThoughtProvoking, guard: Guard::Always },
            Rule { existing: Effect::Toxic, replacement: Effect::Sneaky, guard: Guard::Always },
        ],
        Effect::LongFaced => vec![
            Rule { existing: Effect::AntiGravity, replacement: Effect::Calming, guard: Guard::Always },
            Rule { existing: Effect::Gingeritis, replacement: Effect::Refreshing, guard: Guard::Always },
            Rule { existing: Effect::ThoughtProvoking, replacement: Effect::Electrifying, guard: Guard::Always },
        ],
        Effect::Sedating => vec![
            Rule { existing: Effect::Munchies, replacement: Effect::Slippery, guard: Guard::Always },
            Rule { existing: Effect::Athletic, replacement: Effect::Munchies, guard: Guard::Always },
            Rule { existing: Effect::Calming, replacement: Effect::BrightEyed, guard: Guard::Always },
            Rule { existing: Effect::Cyclopean, replacement: Effect::Foggy, guard: Guard::Always },
            Rule { existing: Effect::Electrifying, replacement: Effect::Refreshing, guard: Guard::Always },
            Rule { existing: Effect::Euphoric, replacement: Effect::Toxic, guard: Guard::Always },
            Rule { existing: Effect::Focused, replacement: Effect::Calming, guard: Guard::Always },
            Rule { existing: Effect::Laxative, replacement: Effect::Euphoric, guard: Guard::Always },
            Rule { existing: Effect::Shrinking, replacement: Effect::Paranoia, guard: Guard::Always },
            Rule { existing: Effect::ThoughtProvoking, replacement: Effect::Gingeritis, guard: Guard::Always },
        ],
        Effect::Slippery => vec![
            Rule { existing: Effect::Munchies, replacement: Effect::Schizophrenic, guard: Guard::Absent(Effect::Energizing) },
            Rule { existing: Effect::Energizing, replacement: Effect::Munchies, guard: Guard::Always },
            Rule { existing: Effect::Euphoric, replacement: Effect::Sedating, guard: Guard::Always },
            Rule { existing: Effect::Foggy, replacement: Effect::Toxic, guard: Guard::Always },
            Rule { existing: Effect::Paranoia, replacement: Effect::AntiGravity, guard: Guard::Always },
        ],
        Effect::Sneaky => vec![
            Rule { existing: Effect::Calming, replacement: Effect::Slippery, guard: Guard::Always },
            Rule { existing: Effect::Electrifying, replacement: Effect::Athletic, guard: Guard::Always },
            Rule { existing: Effect::Paranoia, replacement: Effect::Balding, guard: Guard::Always },
            Rule { existing: Effect::Energizing, replacement: Effect::Paranoia, guard: Guard::Always },
            Rule { existing: Effect::Focused, replacement: Effect::Gingeritis, guard: Guard::Always },
            Rule { existing: Effect::Foggy, replacement: Effect::Calming, guard: Guard::Always },
            Rule { existing: Effect::Toxic, replacement: Effect::TropicThunder, guard: Guard::Always },
            Rule { existing: Effect::Glowing, replacement: Effect::Toxic, guard: Guard::Always },
            Rule { existing: Effect::Munchies, replacement: Effect::AntiGravity, guard: Guard::Always },
            Rule { existing: Effect::Spicy, replacement: Effect::BrightEyed, guard: Guard::Always },
        ],
        Effect::Spicy => vec![
            Rule { existing: Effect::AntiGravity, replacement: Effect::TropicThunder, guard: Guard::Always },
            Rule { existing: Effect::Athletic, replacement: Effect::Euphoric, guard: Guard::Always },
            Rule { existing: Effect::Laxative, replacement: Effect::LongFaced, guard: Guard::Always },
            Rule { existing: Effect::Munchies, replacement: Effect::Toxic, guard: Guard::Always },
            Rule { existing: Effect::Shrinking, replacement: Effect::Refreshing, guard: Guard::Always },
            Rule { existing: Effect::Sneaky, replacement: Effect::BrightEyed, guard: Guard::Always },
        ],
        Effect::ThoughtProvoking => vec![
            Rule { existing: Effect::Explosive, replacement: Effect::Euphoric, guard: Guard::Always },
            Rule { existing: Effect::Foggy, replacement: Effect::Energizing, guard: Guard::Always },
            Rule { existing: Effect::Glowing, replacement: Effect::Refreshing, guard: Guard::Always },
            Rule { existing: Effect::LongFaced, replacement: Effect::Electrifying, guard: Guard::Always },
            Rule { existing: Effect::Sedating, replacement: Effect::Gingeritis, guard: Guard::Always },
        ],
        Effect::Toxic => vec![
            Rule { existing: Effect::Disorienting, replacement: Effect::Glowing, guard: Guard::Always },
            Rule { existing: Effect::Electrifying, replacement: Effect::Disorienting, guard: Guard::Always },
            Rule { existing: Effect::Euphoric, replacement: Effect::Spicy, guard: Guard::Absent(Effect::Energizing) },
            Rule { existing: Effect::Energizing, replacement: Effect::Euphoric, guard: Guard::Always },
            Rule { existing: Effect::Gingeritis, replacement: Effect::Smelly, guard: Guard::Always },
            Rule { existing: Effect::Sneaky, replacement: Effect::TropicThunder, guard: Guard::Always },
            Rule { existing: Effect::Jennerising, replacement: Effect::Sneaky, guard: Guard::Always },
            Rule { existing: Effect::Laxative, replacement: Effect::Foggy, guard: Guard::Always },
            Rule { existing: Effect::Munchies, replacement: Effect::Sedating, guard: Guard::Always },
            Rule { existing: Effect::Paranoia, replacement: Effect::Calming, guard: Guard::Always },
            Rule { existing: Effect::Shrinking, replacement: Effect::Focused, guard: Guard::Always },
        ],
        Effect::TropicThunder => vec![
            Rule { existing: Effect::Athletic, replacement: Effect::Sneaky, guard: Guard::Always },
            Rule { existing: Effect::Disorienting, replacement: Effect::Toxic, guard: Guard::Always },
            Rule { existing: Effect::Euphoric, replacement: Effect::BrightEyed, guard: Guard::Always },
            Rule { existing: Effect::Laxative, replacement: Effect::Calming, guard: Guard::Always },
        ],
        _ => Vec::new(),
    }
}

/// The working set after the first `n` rules of `rules` have had their turn
/// on a mix whose effects were `before`. Every rule is selected against
/// `before`; only the trade itself looks at the working set.
pub open spec fn spec_rewrite(before: Set<Effect>, rules: Seq<Rule>, n: nat) -> Set<Effect>
    decreases n,
{
    if n == 0 {
        before
    } else {
        rules[n - 1].spec_apply(before, spec_rewrite(before, rules, (n - 1) as nat))
    }
}

/// The effects of a mix after an ingredient with the primary effect
/// `incoming` has been added to a mix with the effects `before`: the rules
/// of `incoming` rewrite the set in one pass, then `incoming` itself joins
/// if it is absent and the set has room.
pub open spec fn spec_react(before: Set<Effect>, incoming: Effect) -> Set<Effect> {
    let rules = rule_table(incoming);
    let working = spec_rewrite(before, rules, rules.len());
    if !working.contains(incoming) && working.len() < CAPACITY {
        working.insert(incoming)
    } else {
        working
    }
}

/// Adds an ingredient with the primary effect `incoming` to a mix with the
/// effects `before`, and returns the effects of the new mix.
pub fn react(before: &EffectSet, incoming: Effect) -> (after: EffectSet)
    ensures
        after@ == spec_react(before@, incoming),
        before@.len() <= after@.len() <= before@.len() + 1,
        before@.len() <= CAPACITY ==> after@.len() <= CAPACITY,
{
    proof {
        lemma_react_capacity(before@, incoming);
    }
    let rules = rules_for(incoming);
    let mut working = before.clone();
    for i in 0..rules.len()
        invariant
            working@ == spec_rewrite(before@, rules@, i as nat),
    {
        let rule = rules[i];
        if rule.fires(before) && !working.contains(&rule.replacement) {
            working.remove(&rule.existing);
            working.insert(rule.replacement);
        }
    }
    if !working.contains(&incoming) && working.len() < CAPACITY {
        working.insert(incoming);
    }
    working
}

/// In every list of the table a rule that frees an effect stands before the
/// rule that produces that effect: what a rule puts into the mix, no later
/// rule of the same list takes out.
pub proof fn lemma_table_frees_before_it_fills(incoming: Effect, earlier: int, later: int)
    requires
        0 <= earlier < later < rule_table(incoming).len(),
    ensures
        rule_table(incoming)[earlier].replacement != rule_table(incoming)[later].existing,
{
}

/// Whether no effect is the `existing` of two rules of `rules`.
spec fn sources_distinct(rules: Seq<Rule>) -> bool {
    forall|i: int, j: int| 0 <= i < j < rules.len() ==> rules[i].existing != rules[j].existing
}

/// Whether the rule at `k`, if it trades, finds its `existing` effect in the
/// working set, so that the trade leaves the size of the set as it was.
spec fn trade_is_even(before: Set<Effect>, rules: Seq<Rule>, k: nat) -> bool {
    let rule = rules[k as int];
    let working = spec_rewrite(before, rules, k);
    rule.spec_fires(before) && !working.contains(rule.replacement) ==> working.contains(
        rule.existing,
    )
}

/// An effect of the mix stays in the working set as long as no rule with
/// that effect as its `existing` has had its turn.
proof fn lemma_untouched_effect_stays(
    before: Set<Effect>,
    rules: Seq<Rule>,
    n: nat,
    effect: Effect,
)
    requires
        n <= rules.len(),
        before.contains(effect),
        forall|i: int| 0 <= i < n ==> rules[i].existing != effect,
    ensures
        spec_rewrite(before, rules, n).contains(effect),
    decreases n,
{
    if n > 0 {
        lemma_untouched_effect_stays(before, rules, (n - 1) as nat, effect);
    }
}

/// Where every trade among the first `n` rules is even, the working set
/// after them is as large as the mix was.
proof fn lemma_even_trades_keep_size(before: Set<Effect>, rules: Seq<Rule>, n: nat)
    requires
        n <= rules.len(),
        forall|k: nat| k < n ==> trade_is_even(before, rules, k),
    ensures
        spec_rewrite(before, rules, n).len() == before.len(),
    decreases n,
{
    lemma_effects_are_few(before);
    if n > 0 {
        let k = (n - 1) as nat;
        lemma_even_trades_keep_size(before, rules, k);
        lemma_effects_are_few(spec_rewrite(before, rules, k));
        assert(trade_is_even(before, rules, k));
    }
}

/// In a list with distinct sources every trade is even.
proof fn lemma_distinct_sources_trade_evenly(before: Set<Effect>, rules: Seq<Rule>, k: nat)
    requires
        k < rules.len(),
        sources_distinct(rules),
    ensures
        trade_is_even(before, rules, k),
{
    let rule = rules[k as int];
    if before.contains(rule.existing) {
        lemma_untouched_effect_stays(before, rules, k, rule.existing);
    }
}

/// Under Energizing two rules trade Slippery away. The second one is
/// selected only for a mix that had Munchies, and by its turn the working
/// set of such a mix has Athletic or still has Slippery.
proof fn lemma_energizing_trades_evenly(before: Set<Effect>, k: nat)
    requires
        k < rule_table(Effect::Energizing).len(),
    ensures
        trade_is_even(before, rule_table(Effect::Energizing), k),
{
    let rules = rule_table(Effect::Energizing);
    let rule = rules[k as int];
    if k != 5 {
        if before.contains(rule.existing) {
            lemma_untouched_effect_stays(before, rules, k, rule.existing);
        }
    } else if before.contains(Effect::Slippery) && before.contains(Effect::Munchies) {
        lemma_untouched_effect_stays(before, rules, 3, Effect::Munchies);
        lemma_untouched_effect_stays(before, rules, 4, Effect::Slippery);
        let w3 = spec_rewrite(before, rules, 3);
        let w4 = spec_rewrite(before, rules, 4);
        let w5 = spec_rewrite(before, rules, 5);
        assert(w4 == rules[3].spec_apply(before, w3));
        assert(w5 == rules[4].spec_apply(before, w4));
    }
}

/// Every trade of the reaction table is even.
proof fn lemma_table_trades_evenly(before: Set<Effect>, incoming: Effect, k: nat)
    requires
        k < rule_table(incoming).len(),
    ensures
        trade_is_even(before, rule_table(incoming), k),
{
    if incoming == Effect::Energizing {
        lemma_energizing_trades_evenly(before, k);
    } else {
        assert(sources_distinct(rule_table(incoming)));
        lemma_distinct_sources_trade_evenly(before, rule_table(incoming), k);
    }
}

/// The rules of the table trade one effect for another: the working set
/// after them is as large as the mix was.
pub proof fn lemma_rewrite_keeps_size(before: Set<Effect>, incoming: Effect)
    ensures
        spec_rewrite(before, rule_table(incoming), rule_table(incoming).len()).len()
            == before.len(),
{
    let rules = rule_table(incoming);
    assert forall|k: nat| k < rules.len() implies trade_is_even(before, rules, k) by {
        lemma_table_trades_evenly(before, incoming, k);
    }
    lemma_even_trades_keep_size(before, rules, rules.len());
}

/// An ingredient never takes a mix over capacity: the new mix has at most
/// one effect more than the old one, and it has more only where the old one
/// had room.
pub proof fn lemma_react_capacity(before: Set<Effect>, incoming: Effect)
    ensures
        before.len() <= spec_react(before, incoming).len() <= before.len() + 1,
        before.len() >= CAPACITY ==> spec_react(before, incoming).len() == before.len(),
        before.len() <= CAPACITY ==> spec_react(before, incoming).len() <= CAPACITY,
{
    lemma_rewrite_keeps_size(before, incoming);
    lemma_effects_are_few(
        spec_rewrite(before, rule_table(incoming), rule_table(incoming).len()),
    );
}

} // verus!
