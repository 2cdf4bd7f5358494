use mix_calculator::{Effect, EffectSet};

#[test]
fn a_new_set_is_empty() {
    let set = EffectSet::new();
    assert!(set.is_empty());
    assert_eq!(set.len(), 0);
    assert!(!set.contains(&Effect::Calming));
    assert!(set.to_vec().is_empty());
}

#[test]
fn insert_adds_an_absent_effect_once() {
    let mut set = EffectSet::new();
    assert!(set.insert(Effect::Calming));
    assert!(!set.insert(Effect::Calming));
    assert!(set.insert(Effect::Foggy));
    assert_eq!(set.len(), 2);
    assert!(set.contains(&Effect::Calming));
    assert!(set.contains(&Effect::Foggy));
    assert!(!set.contains(&Effect::Toxic));
    assert!(!set.is_empty());
}

#[test]
fn remove_takes_a_member_out() {
    let mut set = EffectSet::from_vec(vec![Effect::Calming, Effect::Foggy, Effect::Toxic]);
    assert!(set.remove(&Effect::Foggy));
    assert!(!set.remove(&Effect::Foggy));
    assert!(!set.remove(&Effect::Lethal));
    assert_eq!(set.len(), 2);
    assert!(set.contains(&Effect::Calming));
    assert!(!set.contains(&Effect::Foggy));
    assert!(set.contains(&Effect::Toxic));
}

#[test]
fn from_vec_drops_repetitions() {
    let set = EffectSet::from_vec(vec![
        Effect::Spicy,
        Effect::Calming,
        Effect::Spicy,
        Effect::Spicy,
        Effect::Calming,
    ]);
    assert_eq!(set.len(), 2);
    let mut members = set.to_vec();
    members.sort_by_key(|effect| effect.name());
    assert_eq!(members, vec![Effect::Calming, Effect::Spicy]);
}

#[test]
fn equality_does_not_look_at_the_order() {
    let one = EffectSet::from_vec(vec![Effect::Spicy, Effect::Calming, Effect::Toxic]);
    let other = EffectSet::from_vec(vec![Effect::Toxic, Effect::Spicy, Effect::Calming]);
    assert_eq!(one, other);
    let mut rebuilt = EffectSet::new();
    rebuilt.insert(Effect::Calming);
    rebuilt.insert(Effect::Toxic);
    assert_ne!(one, rebuilt);
    rebuilt.insert(Effect::Spicy);
    assert_eq!(one, rebuilt);
}

#[test]
fn sets_of_the_same_size_with_other_members_differ() {
    let one = EffectSet::from_vec(vec![Effect::Spicy, Effect::Calming]);
    let other = EffectSet::from_vec(vec![Effect::Spicy, Effect::Toxic]);
    assert_ne!(one, other);
    assert_ne!(one, EffectSet::new());
    assert_eq!(EffectSet::new(), EffectSet::new());
}

#[test]
fn a_clone_has_the_same_members() {
    let set = EffectSet::from_vec(vec![Effect::Spicy, Effect::Calming]);
    let mut copy = set.clone();
    assert_eq!(copy, set);
    copy.remove(&Effect::Spicy);
    assert!(set.contains(&Effect::Spicy));
    assert_ne!(copy, set);
}

#[test]
fn to_vec_lists_every_member_once() {
    let mut set = EffectSet::new();
    for effect in [Effect::Toxic, Effect::Foggy, Effect::Toxic, Effect::Lethal, Effect::Foggy] {
        set.insert(effect);
    }
    let members = set.to_vec();
    assert_eq!(members.len(), 3);
    for effect in [Effect::Toxic, Effect::Foggy, Effect::Lethal] {
        assert_eq!(members.iter().filter(|member| **member == effect).count(), 1);
    }
}
