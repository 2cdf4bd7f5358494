//! Finite sets of effects.
use crate::effect::{lemma_effects_are_few, Effect, EFFECT_COUNT};
use vstd::prelude::*;

verus! {

/// A finite set of effects.
///
/// The members are kept in a list in which nothing occurs twice; the order of
/// the list carries no meaning, and the view is the set of its members.
#[derive(Debug)]
pub struct EffectSet {
    items: Vec<Effect>,
}

impl View for EffectSet {
    type V = Set<Effect>;

    closed spec fn view(&self) -> Set<Effect> {
        self.items@.to_set()
    }
}

impl EffectSet {
    #[verifier::type_invariant]
    spec fn distinct(self) -> bool {
        self.items@.no_duplicates()
    }

    /// The empty set.
    pub fn new() -> (set: EffectSet)
        ensures
            set@ == Set::<Effect>::empty(),
    {
        EffectSet { items: Vec::new() }
    }

    /// The set of the effects that occur in `effects`.
    pub fn from_vec(effects: Vec<Effect>) -> (set: EffectSet)
        ensures
            set@ == effects@.to_set(),
    {
        let mut set = EffectSet::new();
        for i in 0..effects.len()
            invariant
                set@ == effects@.take(i as int).to_set(),
        {
            set.insert(effects[i]);
            proof {
                let seen = effects@.take(i as int);
                assert(effects@.take(i + 1) == seen.push(effects@[i as int]));
                seen.lemma_push_to_set_commute(effects@[i as int]);
            }
        }
        assert(effects@.take(effects.len() as int) == effects@);
        set
    }

    /// The number of members.
    pub fn len(&self) -> (n: usize)
        ensures
            n == self@.len(),
            n <= EFFECT_COUNT,
    {
        proof {
            use_type_invariant(self);
            self.items@.unique_seq_to_set();
            lemma_effects_are_few(self@);
        }
        self.items.len()
    }

    /// Whether the set has no member.
    pub fn is_empty(&self) -> (empty: bool)
        ensures
            empty == (self@ == Set::<Effect>::empty()),
    {
        proof {
            if self.items@.len() > 0 {
                assert(self@.contains(self.items@[0]));
            } else {
                assert(self@ =~= Set::<Effect>::empty());
            }
        }
        self.items.len() == 0
    }

    /// Position of `effect` in the list, if it is a member.
    fn position(&self, effect: Effect) -> (at: Option<usize>)
        ensures
            match at {
                Some(i) => i < self.items@.len() && self.items@[i as int] == effect,
                None => !self@.contains(effect),
            },
    {
        for i in 0..self.items.len()
            invariant
                forall|j: int| 0 <= j < i ==> self.items@[j] != effect,
        {
            if self.items[i] == effect {
                return Some(i);
            }
        }
        None
    }

    /// Whether `effect` is a member.
    pub fn contains(&self, effect: &Effect) -> (found: bool)
        ensures
            found == self@.contains(*effect),
    {
        self.position(*effect).is_some()
    }

    /// Adds `effect` to the set; returns whether it was absent before.
    pub fn insert(&mut self, effect: Effect) -> (added: bool)
        ensures
            final(self)@ == old(self)@.insert(effect),
            added == !old(self)@.contains(effect),
    {
        proof {
            use_type_invariant(&*self);
        }
        if self.contains(&effect) {
            false
        } else {
            proof {
                self.items@.lemma_push_to_set_commute(effect);
            }
            let mut items = Vec::new();
            core::mem::swap(&mut self.items, &mut items);
            items.push(effect);
            self.items = items;
            true
        }
    }

    /// Takes `effect` out of the set; returns whether it was a member.
    pub fn remove(&mut self, effect: &Effect) -> (removed: bool)
        ensures
            final(self)@ == old(self)@.remove(*effect),
            removed == old(self)@.contains(*effect),
    {
        proof {
            use_type_invariant(&*self);
        }
        match self.position(*effect) {
            Some(i) => {
                let ghost before = self.items@;
                let mut items = Vec::new();
                core::mem::swap(&mut self.items, &mut items);
                items.remove(i);
                self.items = items;
                proof {
                    let after = self.items@;
                    assert forall|e: Effect| after.to_set().contains(e) <==> before.to_set().remove(
                        *effect,
                    ).contains(e) by {
                        if before.contains(e) && e != *effect {
                            let j = choose|j: int| 0 <= j < before.len() && before[j] == e;
                            if j < i {
                                assert(after[j] == e);
                            } else {
                                assert(after[j - 1] == e);
                            }
                        }
                    }
                }
                true
            },
            None => false,
        }
    }

    /// The members, each once, in no particular order.
    pub fn to_vec(&self) -> (members: Vec<Effect>)
        ensures
            members@.no_duplicates(),
            members@.to_set() == self@,
            members@.len() == self@.len(),
            members@.len() <= EFFECT_COUNT,
    {
        proof {
            use_type_invariant(self);
            self.items@.unique_seq_to_set();
            lemma_effects_are_few(self@);
        }
        let mut members: Vec<Effect> = Vec::new();
        for i in 0..self.items.len()
            invariant
                members@ == self.items@.take(i as int),
        {
            members.push(self.items[i]);
        }
        assert(members@ == self.items@);
        members
    }
}

impl Clone for EffectSet {
    fn clone(&self) -> (copy: EffectSet)
        ensures
            copy@ == self@,
    {
        EffectSet { items: self.to_vec() }
    }
}

impl PartialEq for EffectSet {
    /// Two effect sets are equal when they have the same members.
    fn eq(&self, other: &EffectSet) -> (same: bool) {
        proof {
            lemma_effects_are_few(self@);
            lemma_effects_are_few(other@);
        }
        if self.len() != other.len() {
            return false;
        }
        for i in 0..self.items.len()
            invariant
                forall|j: int| 0 <= j < i ==> other@.contains(self.items@[j]),
        {
            if !other.contains(&self.items[i]) {
                return false;
            }
        }
        proof {
            vstd::set_lib::lemma_subset_equality(self@, other@);
        }
        true
    }
}

impl Eq for EffectSet {

}

impl vstd::std_specs::cmp::PartialEqSpecImpl for EffectSet {
    open spec fn obeys_eq_spec() -> bool {
        true
    }

    open spec fn eq_spec(&self, other: &EffectSet) -> bool {
        self@ == other@
    }
}

} // verus!
