//! The catalog of effects: what each adds to the sell price and to the
//! addictiveness of a mix.
use vstd::prelude::*;

verus! {

/// A property that a mix can have. Each effect raises the sell price by a
/// fixed share of the base price and adds a fixed amount of addictiveness.
#[derive(Clone, Copy, Debug, PartialEq, Eq, Hash, Structural)]
pub enum Effect {
    AntiGravity,
    Athletic,
    Balding,
    BrightEyed,
    Calming,
    CalorieDense,
    Cyclopean,
    Disorienting,
    Electrifying,
    Energizing,
    Euphoric,
    Explosive,
    Focused,
    Foggy,
    Gingeritis,
    Glowing,
    Jennerising,
    Laxative,
    Lethal,
    LongFaced,
    Munchies,
    Paranoia,
    Refreshing,
    Schizophrenic,
    Sedating,
    SeizureInducing,
    Shrinking,
    Slippery,
    Smelly,
    Sneaky,
    Spicy,
    ThoughtProvoking,
    Toxic,
    TropicThunder,
    Zombifying,
}

impl Effect {
    /// Share of the base sell price that this effect adds, in hundredths.
    pub open spec fn spec_multiplier(self) -> nat {
        match self {
            Effect::AntiGravity => 54,
            Effect::Athletic => 32,
            Effect::Balding => 30,
            Effect::BrightEyed => 40,
            Effect::Calming => 10,
            Effect::CalorieDense => 28,
            Effect::Cyclopean => 56,
            Effect::Disorienting => 0,
            Effect::Electrifying => 50,
            Effect::Energizing => 22,
            Effect::Euphoric => 18,
            Effect::Explosive => 0,
            Effect::Focused => 16,
            Effect::Foggy => 36,
            Effect::Gingeritis => 20,
            Effect::Glowing => 48,
            Effect::Jennerising => 42,
            Effect::Laxative => 0,
            Effect::Lethal => 0,
            Effect::LongFaced => 52,
            Effect::Munchies => 12,
            Effect::Paranoia => 0,
            Effect::Refreshing => 14,
            Effect::Schizophrenic => 0,
            Effect::Sedating => 26,
            Effect::SeizureInducing => 0,
            Effect::Shrinking => 60,
            Effect::Slippery => 34,
            Effect::Smelly => 0,
            Effect::Sneaky => 24,
            Effect::Spicy => 38,
            Effect::ThoughtProvoking => 44,
            Effect::Toxic => 0,
            Effect::TropicThunder => 46,
            Effect::Zombifying => 58,
        }
    }

    /// Share of the base sell price that this effect adds, in hundredths
    /// (`54` stands for `0.54`).
    pub fn multiplier(&self) -> (hundredths: u32)
        ensures
            hundredths == self.spec_multiplier(),
            hundredths <= 60,
    {
        match self {
            Effect::AntiGravity => 54,
            Effect::Athletic => 32,
            Effect::Balding => 30,
            Effect::BrightEyed => 40,
            Effect::Calming => 10,
            Effect::CalorieDense => 28,
            Effect::Cyclopean => 56,
            Effect::Disorienting => 0,
            Effect::Electrifying => 50,
            Effect::Energizing => 22,
            Effect::Euphoric => 18,
            Effect::Explosive => 0,
            Effect::Focused => 16,
            Effect::Foggy => 36,
            Effect::Gingeritis => 20,
            Effect::Glowing => 48,
            Effect::Jennerising => 42,
            Effect::Laxative => 0,
            Effect::Lethal => 0,
            Effect::LongFaced => 52,
            Effect::Munchies => 12,
            Effect::Paranoia => 0,
            Effect::Refreshing => 14,
            Effect::Schizophrenic => 0,
            Effect::Sedating => 26,
            Effect::SeizureInducing => 0,
            Effect::Shrinking => 60,
            Effect::Slippery => 34,
            Effect::Smelly => 0,
            Effect::Sneaky => 24,
            Effect::Spicy => 38,
            Effect::ThoughtProvoking => 44,
            Effect::Toxic => 0,
            Effect::TropicThunder => 46,
            Effect::Zombifying => 58,
        }
    }

    /// Addictiveness that this effect contributes, in thousandths.
    pub open spec fn spec_addictiveness(self) -> nat {
        match self {
            Effect::AntiGravity => 611,
            Effect::Athletic => 607,
            Effect::Balding => 0,
            Effect::BrightEyed => 200,
            Effect::Calming => 0,
            Effect::CalorieDense => 100,
            Effect::Cyclopean => 100,
            Effect::Disorienting => 0,
            Effect::Electrifying => 235,
            Effect::Energizing => 340,
            Effect::Euphoric => 235,
            Effect::Explosive => 0,
            Effect::Focused => 104,
            Effect::Foggy => 100,
            Effect::Gingeritis => 0,
            Effect::Glowing => 472,
            Effect::Jennerising => 343,
            Effect::Laxative => 100,
            Effect::Lethal => 0,
            Effect::LongFaced => 607,
            Effect::Munchies => 96,
            Effect::Paranoia => 0,
            Effect::Refreshing => 104,
            Effect::Schizophrenic => 0,
            Effect::Sedating => 0,
            Effect::SeizureInducing => 0,
            Effect::Shrinking => 336,
            Effect::Slippery => 309,
            Effect::Smelly => 0,
            Effect::Sneaky => 327,
            Effect::Spicy => 665,
            Effect::ThoughtProvoking => 370,
            Effect::Toxic => 0,
            Effect::TropicThunder => 803,
            Effect::Zombifying => 598,
        }
    }

    /// Addictiveness that this effect contributes, in thousandths
    /// (`611` stands for `0.611`).
    pub fn addictiveness(&self) -> (thousandths: u32)
        ensures
            thousandths == self.spec_addictiveness(),
            thousandths <= 803,
    {
        match self {
            Effect::AntiGravity => 611,
            Effect::Athletic => 607,
            Effect::Balding => 0,
            Effect::BrightEyed => 200,
            Effect::Calming => 0,
            Effect::CalorieDense => 100,
            Effect::Cyclopean => 100,
            Effect::Disorienting => 0,
            Effect::Electrifying => 235,
            Effect::Energizing => 340,
            Effect::Euphoric => 235,
            Effect::Explosive => 0,
            Effect::Focused => 104,
            Effect::Foggy => 100,
            Effect::Gingeritis => 0,
            Effect::Glowing => 472,
            Effect::Jennerising => 343,
            Effect::Laxative => 100,
            Effect::Lethal => 0,
            Effect::LongFaced => 607,
            Effect::Munchies => 96,
            Effect::Paranoia => 0,
            Effect::Refreshing => 104,
            Effect::Schizophrenic => 0,
            Effect::Sedating => 0,
            Effect::SeizureInducing => 0,
            Effect::Shrinking => 336,
            Effect::Slippery => 309,
            Effect::Smelly => 0,
            Effect::Sneaky => 327,
            Effect::Spicy => 665,
            Effect::ThoughtProvoking => 370,
            Effect::Toxic => 0,
            Effect::TropicThunder => 803,
            Effect::Zombifying => 598,
        }
    }

    /// The effect's display name.
    pub open spec fn spec_name(self) -> Seq<char> {
        match self {
            Effect::AntiGravity => "AntiGravity"@,
            Effect::Athletic => "Athletic"@,
            Effect::Balding => "Balding"@,
            Effect::BrightEyed => "BrightEyed"@,
            Effect::Calming => "Calming"@,
            Effect::CalorieDense => "CalorieDense"@,
            Effect::Cyclopean => "Cyclopean"@,
            Effect::Disorienting => "Disorienting"@,
            Effect::Electrifying => "Electrifying"@,
            Effect::Energizing => "Energizing"@,
            Effect::Euphoric => "Euphoric"@,
            Effect::Explosive => "Explosive"@,
            Effect::Focused => "Focused"@,
            Effect::Foggy => "Foggy"@,
            Effect::Gingeritis => "Gingeritis"@,
            Effect::Glowing => "Glowing"@,
            Effect::Jennerising => "Jennerising"@,
            Effect::Laxative => "Laxative"@,
            Effect::Lethal => "Lethal"@,
            Effect::LongFaced => "LongFaced"@,
            Effect::Munchies => "Munchies"@,
            Effect::Paranoia => "Paranoia"@,
            Effect::Refreshing => "Refreshing"@,
            Effect::Schizophrenic => "Schizophrenic"@,
            Effect::Sedating => "Sedating"@,
            Effect::SeizureInducing => "SeizureInducing"@,
            Effect::Shrinking => "Shrinking"@,
            Effect::Slippery => "Slippery"@,
            Effect::Smelly => "Smelly"@,
            Effect::Sneaky => "Sneaky"@,
            Effect::Spicy => "Spicy"@,
            Effect::ThoughtProvoking => "ThoughtProvoking"@,
            Effect::Toxic => "Toxic"@,
            Effect::TropicThunder => "TropicThunder"@,
            Effect::Zombifying => "Zombifying"@,
        }
    }

    /// The effect's display name.
    pub fn name(&self) -> (name: &'static str)
        ensures
            name@ == self.spec_name(),
    {
        match self {
            Effect::AntiGravity => "AntiGravity",
            Effect::Athletic => "Athletic",
            Effect::Balding => "Balding",
            Effect::BrightEyed => "BrightEyed",
            Effect::Calming => "Calming",
            Effect::CalorieDense => "CalorieDense",
            Effect::Cyclopean => "Cyclopean",
            Effect::Disorienting => "Disorienting",
            Effect::Electrifying => "Electrifying",
            Effect::Energizing => "Energizing",
            Effect::Euphoric => "Euphoric",
            Effect::Explosive => "Explosive",
            Effect::Focused => "Focused",
            Effect::Foggy => "Foggy",
            Effect::Gingeritis => "Gingeritis",
            Effect::Glowing => "Glowing",
            Effect::Jennerising => "Jennerising",
            Effect::Laxative => "Laxative",
            Effect::Lethal => "Lethal",
            Effect::LongFaced => "LongFaced",
            Effect::Munchies => "Munchies",
            Effect::Paranoia => "Paranoia",
            Effect::Refreshing => "Refreshing",
            Effect::Schizophrenic => "Schizophrenic",
            Effect::Sedating => "Sedating",
            Effect::SeizureInducing => "SeizureInducing",
            Effect::Shrinking => "Shrinking",
            Effect::Slippery => "Slippery",
            Effect::Smelly => "Smelly",
            Effect::Sneaky => "Sneaky",
            Effect::Spicy => "Spicy",
            Effect::ThoughtProvoking => "ThoughtProvoking",
            Effect::Toxic => "Toxic",
            Effect::TropicThunder => "TropicThunder",
            Effect::Zombifying => "Zombifying",
        }
    }

    /// No two effects share a display name: the names differ in their
    /// length or in one of their first two characters.
    pub proof fn lemma_names_distinct(self, other: Effect)
        ensures
            self.spec_name().len() >= 5,
            opening(self.spec_name()) == opening(other.spec_name()) ==> self == other,
    {
        reveal_strlit("AntiGravity");
        reveal_strlit("Athletic");
        reveal_strlit("Balding");
        reveal_strlit("BrightEyed");
        reveal_strlit("Calming");
        reveal_strlit("CalorieDense");
        reveal_strlit("Cyclopean");
        reveal_strlit("Disorienting");
        reveal_strlit("Electrifying");
        reveal_strlit("Energizing");
        reveal_strlit("Euphoric");
        reveal_strlit("Explosive");
        reveal_strlit("Focused");
        reveal_strlit("Foggy");
        reveal_strlit("Gingeritis");
        reveal_strlit("Glowing");
        reveal_strlit("Jennerising");
        reveal_strlit("Laxative");
        reveal_strlit("Lethal");
        reveal_strlit("LongFaced");
        reveal_strlit("Munchies");
        reveal_strlit("Paranoia");
        reveal_strlit("Refreshing");
        reveal_strlit("Schizophrenic");
        reveal_strlit("Sedating");
        reveal_strlit("SeizureInducing");
        reveal_strlit("Shrinking");
        reveal_strlit("Slippery");
        reveal_strlit("Smelly");
        reveal_strlit("Sneaky");
        reveal_strlit("Spicy");
        reveal_strlit("ThoughtProvoking");
        reveal_strlit("Toxic");
        reveal_strlit("TropicThunder");
        reveal_strlit("Zombifying");
    }
}

/// The length of `text` and its first two characters.
pub open spec fn opening(text: Seq<char>) -> (nat, char, char)
    recommends
        text.len() >= 2,
{
    (text.len(), text[0], text[1])
}

/// The number of effects that there are.
pub const EFFECT_COUNT: usize = 35;

/// The set of all effects.
pub open spec fn all_effects() -> Set<Effect> {
    Set::<Effect>::empty()
        .insert(Effect::AntiGravity)
        .insert(Effect::Athletic)
        .insert(Effect::Balding)
        .insert(Effect::BrightEyed)
        .insert(Effect::Calming)
        .insert(Effect::CalorieDense)
        .insert(Effect::Cyclopean)
        .insert(Effect::Disorienting)
        .insert(Effect::Electrifying)
        .insert(Effect::Energizing)
        .insert(Effect::Euphoric)
        .insert(Effect::Explosive)
        .insert(Effect::Focused)
        .insert(Effect::Foggy)
        .insert(Effect::Gingeritis)
        .insert(Effect::Glowing)
        .insert(Effect::Jennerising)
        .insert(Effect::Laxative)
        .insert(Effect::Lethal)
        .insert(Effect::LongFaced)
        .insert(Effect::Munchies)
        .insert(Effect::Paranoia)
        .insert(Effect::Refreshing)
        .insert(Effect::Schizophrenic)
        .insert(Effect::Sedating)
        .insert(Effect::SeizureInducing)
        .insert(Effect::Shrinking)
        .insert(Effect::Slippery)
        .insert(Effect::Smelly)
        .insert(Effect::Sneaky)
        .insert(Effect::Spicy)
        .insert(Effect::ThoughtProvoking)
        .insert(Effect::Toxic)
        .insert(Effect::TropicThunder)
        .insert(Effect::Zombifying)
}

/// There are [`EFFECT_COUNT`] effects, so every set of effects is finite and
/// has no more members than that.
pub proof fn lemma_effects_are_few(effects: Set<Effect>)
    ensures
        effects.finite(),
        effects.len() <= EFFECT_COUNT,
{
    assert(all_effects().finite());
    assert(all_effects().len() == EFFECT_COUNT);
    assert(effects.subset_of(all_effects()));
    vstd::set_lib::lemma_set_subset_finite(all_effects(), effects);
    vstd::set_lib::lemma_len_subset(effects, all_effects());
}

} // verus!
