//! Resolution of a skill list into derived stats.

use starstraw::manager::SkillManager;
use starstraw::model::{SkillName, SkillType, StrawError};
use starstraw::stats::ProfileStats;

#[test]
fn empty_set_resolves_to_defaults() {
    let manager = SkillManager(Vec::new());
    let stats = manager.get_stats();
    assert_eq!(stats.power, 100);
    assert_eq!(stats.defense, 100);
    assert_eq!(stats.title, SkillName::Normal);
    assert!(stats.abilities.is_empty());
    assert!(stats.skills.is_empty());
}

#[test]
fn default_stats_match_empty_resolution() {
    let stats = ProfileStats::default();
    assert_eq!(stats.power, 100);
    assert_eq!(stats.defense, 100);
    assert_eq!(stats.title, SkillName::Normal);
    assert!(stats.abilities.is_empty());
    assert!(stats.skills.is_empty());
}

#[test]
fn resolve_is_deterministic() {
    let manager = SkillManager(vec![
        ((SkillType::Title, SkillName::Manager), 100_000),
        ((SkillType::ModifierP, SkillName::Master), 200),
        ((SkillType::Ability, SkillName::Absolute), 100),
    ]);
    let a = manager.get_stats();
    let b = manager.get_stats();
    assert_eq!(a.power, b.power);
    assert_eq!(a.defense, b.defense);
    assert_eq!(a.title, b.title);
    assert_eq!(a.abilities, b.abilities);
    assert_eq!(a.skills, b.skills);
}

#[test]
fn resolve_passes_skills_through() {
    let skills = vec![
        ((SkillType::ModifierD, SkillName::Protected), 105),
        ((SkillType::Title, SkillName::Normal), 100),
    ];
    let manager = SkillManager(skills.clone());
    assert_eq!(manager.get_stats().skills, skills);
}

#[test]
fn normal_title_then_master_grant() {
    let mut manager = SkillManager(vec![((SkillType::Title, SkillName::Normal), 100)]);
    let granted = manager.push(((SkillType::ModifierP, SkillName::Master), 200));
    assert_eq!(granted, Ok(()));
    let stats = manager.get_stats();
    assert_eq!(stats.power, 200);
    assert_eq!(stats.defense, 100);
    assert_eq!(stats.title, SkillName::Normal);
}

#[test]
fn first_title_wins() {
    let manager = SkillManager(vec![
        ((SkillType::Title, SkillName::Manager), 100_000),
        ((SkillType::Title, SkillName::Administrator), 1_000_000),
    ]);
    let stats = manager.get_stats();
    assert_eq!(stats.title, SkillName::Manager);
    // only the first title's magnitude scales the stats
    assert_eq!(stats.power, 100_000);
    assert_eq!(stats.defense, 100_000);
}

#[test]
fn duplicate_modifiers_stack() {
    let manager = SkillManager(vec![
        ((SkillType::ModifierP, SkillName::Trustworthy), 105),
        ((SkillType::ModifierP, SkillName::Trustworthy), 105),
    ]);
    // x1.05 twice is 105 * 105 / 100 == 110 in saturating hundredths
    assert_eq!(manager.get_stats().power, 110);
    assert_eq!(manager.get_stats().defense, 100);
}

#[test]
fn title_scales_both_power_and_defense() {
    let manager = SkillManager(vec![
        ((SkillType::ModifierP, SkillName::Master), 200),
        ((SkillType::ModifierD, SkillName::Patron), 200),
        ((SkillType::Title, SkillName::Manager), 100_000),
    ]);
    let stats = manager.get_stats();
    assert_eq!(stats.power, 200_000);
    assert_eq!(stats.defense, 200_000);
    assert_eq!(stats.title, SkillName::Manager);
}

#[test]
fn modifiers_before_the_title_still_count() {
    let before = SkillManager(vec![
        ((SkillType::ModifierP, SkillName::Master), 200),
        ((SkillType::Title, SkillName::Normal), 100),
    ]);
    let after = SkillManager(vec![
        ((SkillType::Title, SkillName::Normal), 100),
        ((SkillType::ModifierP, SkillName::Master), 200),
    ]);
    assert_eq!(before.get_stats().power, 200);
    assert_eq!(after.get_stats().power, 200);
}

#[test]
fn later_ability_entry_shadows_earlier() {
    let manager = SkillManager(vec![
        ((SkillType::Ability, SkillName::Absolute), 100),
        ((SkillType::Ability, SkillName::Absolute), 250),
    ]);
    let stats = manager.get_stats();
    assert_eq!(
        stats.abilities,
        vec![(SkillName::Absolute, 100), (SkillName::Absolute, 250)]
    );
    assert_eq!(stats.ability(SkillName::Absolute), Some(250));
}

#[test]
fn missing_ability_resolves_to_none() {
    let manager = SkillManager(vec![((SkillType::Title, SkillName::Normal), 100)]);
    assert_eq!(manager.get_stats().ability(SkillName::Absolute), None);
}

#[test]
fn describe_gives_category_and_default_magnitude() {
    assert_eq!(
        SkillName::Master.describe(),
        ((SkillType::ModifierP, SkillName::Master), 200)
    );
    assert_eq!(
        SkillName::Patron.describe(),
        ((SkillType::ModifierD, SkillName::Patron), 200)
    );
    assert_eq!(
        SkillName::Trustworthy.describe(),
        ((SkillType::ModifierP, SkillName::Trustworthy), 105)
    );
    assert_eq!(
        SkillName::Protected.describe(),
        ((SkillType::ModifierD, SkillName::Protected), 105)
    );
    assert_eq!(
        SkillName::Absolute.describe(),
        ((SkillType::Ability, SkillName::Absolute), 100)
    );
    assert_eq!(
        SkillName::God.describe(),
        ((SkillType::Title, SkillName::God), 10_000_000)
    );
    assert_eq!(
        SkillName::Administrator.describe(),
        ((SkillType::Title, SkillName::Administrator), 1_000_000)
    );
    assert_eq!(
        SkillName::Manager.describe(),
        ((SkillType::Title, SkillName::Manager), 100_000)
    );
    assert_eq!(
        SkillName::Normal.describe(),
        ((SkillType::Title, SkillName::Normal), 100)
    );
}

#[test]
fn error_messages() {
    assert_eq!(
        StrawError::MustBeUnique.to_string(),
        "One of the given values must be unique."
    );
    assert_eq!(
        StrawError::NotAllowed.to_string(),
        "You are not allowed to access this resource."
    );
    assert_eq!(
        StrawError::ValueError.to_string(),
        "One of the field values given is invalid."
    );
    assert_eq!(
        StrawError::NotFound.to_string(),
        "No asset with this ID could be found."
    );
    assert_eq!(
        StrawError::Other.to_string(),
        "An unspecified error has occured"
    );
}
