//! Stats resolver: folds a skill list into a derived-stats snapshot.
//!
//! The fold scans the list in order. The first title entry (or
//! `(Title, Normal, x1.0)` when none exists) is the effective title; every
//! power modifier multiplies into `power`, every defense modifier into
//! `defense`, every ability entry is recorded (a later entry for the same
//! name shadows an earlier one), and title entries besides the first are
//! ignored. Finally both `power` and `defense` are multiplied by the
//! effective title's magnitude.

use vstd::prelude::*;

use crate::model::{
    grant_allowed, Skill, SkillName, SkillSet, SkillType, ABSOLUTE_POWER_FLOOR, MAG_ONE,
};

verus! {

/// Fixed-point product of two multipliers in hundredths, saturating at
/// `u64::MAX`: x1.05 times x1.05 is `105 * 105 / 100 == 110` (x1.10, the
/// remainder is dropped).
pub open spec fn scale_mul(a: int, b: int) -> int {
    if a * b / (MAG_ONE as int) > u64::MAX {
        u64::MAX as int
    } else {
        a * b / (MAG_ONE as int)
    }
}

/// Fixed-point product of two multipliers in hundredths, saturating at
/// `u64::MAX`.
pub fn mag_mul(a: u64, b: u64) -> (r: u64)
    ensures
        r as int == scale_mul(a as int, b as int),
{
    proof {
        assert((a as int) * (b as int) <= (u64::MAX as int) * (u64::MAX as int)) by (nonlinear_arith)
            requires
                a <= u64::MAX,
                b <= u64::MAX,
        ;
        assert((a as int) * (b as int) >= 0) by (nonlinear_arith);
    }
    let wide: u128 = (a as u128) * (b as u128) / (MAG_ONE as u128);
    if wide > (u64::MAX as u128) {
        u64::MAX
    } else {
        wide as u64
    }
}

/// Whether the entry is a title entry.
pub open spec fn is_title(s: Skill) -> bool {
    s.0.0 == SkillType::Title
}

/// The title entry used when a skill list holds none: `Normal` at x1.0.
pub open spec fn default_title() -> Skill {
    ((SkillType::Title, SkillName::Normal), MAG_ONE)
}

/// The product of the power-modifier magnitudes of `s`, before the title is
/// applied, starting from x1.0.
pub open spec fn power_raw(s: Seq<Skill>) -> int
    decreases s.len(),
{
    if s.len() == 0 {
        MAG_ONE as int
    } else if s.last().0.0 == SkillType::ModifierP {
        scale_mul(power_raw(s.drop_last()), s.last().1 as int)
    } else {
        power_raw(s.drop_last())
    }
}

/// The product of the defense-modifier magnitudes of `s`, before the title
/// is applied, starting from x1.0.
pub open spec fn defense_raw(s: Seq<Skill>) -> int
    decreases s.len(),
{
    if s.len() == 0 {
        MAG_ONE as int
    } else if s.last().0.0 == SkillType::ModifierD {
        scale_mul(defense_raw(s.drop_last()), s.last().1 as int)
    } else {
        defense_raw(s.drop_last())
    }
}

/// The `(name, level)` pairs of the ability entries of `s`, in order.
pub open spec fn abilities_seq(s: Seq<Skill>) -> Seq<(SkillName, u64)>
    decreases s.len(),
{
    if s.len() == 0 {
        Seq::empty()
    } else if s.last().0.0 == SkillType::Ability {
        abilities_seq(s.drop_last()).push((s.last().0.1, s.last().1))
    } else {
        abilities_seq(s.drop_last())
    }
}

/// The effective level of ability `name` in a list of ability pairs: the
/// level of the last pair carrying `name`, or `None` when there is none.
pub open spec fn ability_level(abs: Seq<(SkillName, u64)>, name: SkillName) -> Option<u64>
    decreases abs.len(),
{
    if abs.len() == 0 {
        None
    } else if abs.last().0 == name {
        Some(abs.last().1)
    } else {
        ability_level(abs.drop_last(), name)
    }
}

/// Whether `s` holds a title entry.
pub open spec fn has_title(s: Seq<Skill>) -> bool
    decreases s.len(),
{
    s.len() > 0 && (is_title(s.first()) || has_title(s.drop_first()))
}

/// The position of the first title entry of `s` (meaningful only when
/// `has_title(s)`).
pub open spec fn first_title_index(s: Seq<Skill>) -> int
    decreases s.len(),
{
    if s.len() == 0 {
        0
    } else if is_title(s.first()) {
        0
    } else {
        1 + first_title_index(s.drop_first())
    }
}

/// The effective title entry of `s`: its first title entry, or
/// `(Title, Normal, x1.0)` when it holds none.
pub open spec fn title_entry(s: Seq<Skill>) -> Skill
    decreases s.len(),
{
    if s.len() == 0 {
        default_title()
    } else if is_title(s.first()) {
        s.first()
    } else {
        title_entry(s.drop_first())
    }
}

/// The derived power level of `s`: the product of its power modifiers and
/// the effective title's magnitude.
pub open spec fn stats_power(s: Seq<Skill>) -> int {
    scale_mul(power_raw(s), title_entry(s).1 as int)
}

/// The derived defense level of `s`: the product of its defense modifiers
/// and the effective title's magnitude.
pub open spec fn stats_defense(s: Seq<Skill>) -> int {
    scale_mul(defense_raw(s), title_entry(s).1 as int)
}

/// The effective title name of `s`.
pub open spec fn stats_title(s: Seq<Skill>) -> SkillName {
    title_entry(s).0.1
}

/// Derived statistics of a profile, recomputed on demand from its skill
/// list; `power` and `defense` are fixed-point multipliers in hundredths.
#[derive(Clone, Debug)]
pub struct ProfileStats {
    pub power: u64,
    pub defense: u64,
    pub title: SkillName,
    /// The `(name, level)` pairs of the ability entries, in list order; the
    /// effective level of a name is its last pair (see [`ability_level`]).
    pub abilities: Vec<(SkillName, u64)>,
    pub skills: SkillSet,
}

/// What it means for a snapshot `r` to be the derived stats of the skill
/// list `s`.
pub open spec fn stats_match(r: ProfileStats, s: Seq<Skill>) -> bool {
    &&& r.power as int == stats_power(s)
    &&& r.defense as int == stats_defense(s)
    &&& r.title == stats_title(s)
    &&& r.abilities@ == abilities_seq(s)
    &&& r.skills@ == s
}

impl ProfileStats {
    /// The effective level of ability `name`: the level of the last ability
    /// entry carrying `name`, or `None` when the profile has none.
    pub fn ability(&self, name: SkillName) -> (r: Option<u64>)
        ensures
            r == ability_level(self.abilities@, name),
    {
        let mut i: usize = self.abilities.len();
        proof {
            assert(self.abilities@.take(i as int) =~= self.abilities@);
        }
        while i > 0
            invariant
                i <= self.abilities@.len(),
                ability_level(self.abilities@, name) == ability_level(
                    self.abilities@.take(i as int),
                    name,
                ),
            decreases i,
        {
            proof {
                assert(self.abilities@.take(i as int).drop_last() =~= self.abilities@.take(
                    i as int - 1,
                ));
            }
            i = i - 1;
            let pair = self.abilities[i];
            if pair.0 == name {
                proof {
                    assert(self.abilities@.take(i as int + 1).last() == self.abilities@[i as int]);
                }
                return Some(pair.1);
            }
        }
        proof {
            assert(self.abilities@.take(0) =~= Seq::<(SkillName, u64)>::empty());
        }
        None
    }
}

impl SkillName {
    /// Check if a skill is valid to grant based on the user's overall levels:
    /// `Absolute` needs a power level of at least x100,000.0, and the `God`
    /// title cannot be granted at all.
    pub fn is_valid(&self, stats: ProfileStats) -> (r: bool)
        ensures
            r == grant_allowed(*self, stats.power as int),
    {
        if (*self == SkillName::Absolute) && (stats.power < ABSOLUTE_POWER_FLOOR) {
            // we must have a power level of at least 100,000 to get absolute power
            false
        } else if *self == SkillName::God {
            // the God title cannot be granted at all
            false
        } else {
            true
        }
    }
}

impl Default for ProfileStats {
    /// The stats of an empty skill list: x1.0 power and defense, the
    /// `Normal` title, no abilities, no skills.
    fn default() -> (r: Self)
        ensures
            stats_match(r, Seq::<Skill>::empty()),
    {
        ProfileStats {
            power: MAG_ONE,
            defense: MAG_ONE,
            title: SkillName::Normal,
            abilities: Vec::new(),
            skills: Vec::new(),
        }
    }
}

} // verus!
