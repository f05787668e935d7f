//! Skill manager: wraps one skill list and exposes the mutation operations
//! (grant, revoke, set-title) with their validity rules, and the act-upon
//! authorization predicate.

use vstd::prelude::*;

use crate::model::{
    grant_allowed, Skill, SkillName, SkillSet, SkillType, StrawError, ABSOLUTE_POWER_FLOOR,
    MAG_ONE,
};
use crate::stats::{
    abilities_seq, default_title, defense_raw, first_title_index, has_title, is_title, mag_mul,
    power_raw, scale_mul, stats_defense, stats_match, stats_power, stats_title, title_entry,
    ProfileStats,
};

verus! {

/// Simple manager for profile skills.
#[derive(Clone)]
pub struct SkillManager(pub SkillSet);

/// The skill list after a title change: the first title entry is overwritten
/// in place when one exists, otherwise the new entry is inserted at the
/// front. Everything else keeps its position.
pub open spec fn set_title_spec(s: Seq<Skill>, skill: Skill) -> Seq<Skill> {
    if has_title(s) {
        s.update(first_title_index(s), skill)
    } else {
        s.insert(0, skill)
    }
}

/// The skill list after a revocation: every entry whose name is `name` is
/// removed; the rest keep their relative order.
pub open spec fn revoke_spec(s: Seq<Skill>, name: SkillName) -> Seq<Skill>
    decreases s.len(),
{
    if s.len() == 0 {
        Seq::empty()
    } else if s.last().0.1 == name {
        revoke_spec(s.drop_last(), name)
    } else {
        revoke_spec(s.drop_last(), name).push(s.last())
    }
}

/// Whether `me` may act upon `them`: either `me` out-powers `them`'s defense
/// while not being out-powered, or `me` holds the `God` title.
pub open spec fn act_spec(me: Seq<Skill>, them: Seq<Skill>) -> bool {
    (stats_power(me) > stats_defense(them) && stats_power(them) <= stats_power(me))
        || stats_title(me) == SkillName::God
}

/// The non-title entries of `s`, in order.
pub open spec fn non_title_entries(s: Seq<Skill>) -> Seq<Skill>
    decreases s.len(),
{
    if s.len() == 0 {
        Seq::empty()
    } else if is_title(s.last()) {
        non_title_entries(s.drop_last())
    } else {
        non_title_entries(s.drop_last()).push(s.last())
    }
}

/// How many title entries `s` holds.
pub open spec fn title_count(s: Seq<Skill>) -> int
    decreases s.len(),
{
    if s.len() == 0 {
        0
    } else if is_title(s.last()) {
        title_count(s.drop_last()) + 1
    } else {
        title_count(s.drop_last())
    }
}

/// Extending a list by one entry changes the effective title only when the
/// list had none and the new entry is a title.
proof fn lemma_title_push(s: Seq<Skill>, x: Skill)
    ensures
        has_title(s.push(x)) == (has_title(s) || is_title(x)),
        title_entry(s.push(x)) == (if has_title(s) {
            title_entry(s)
        } else if is_title(x) {
            x
        } else {
            default_title()
        }),
    decreases s.len(),
{
    if s.len() == 0 {
        assert(s.push(x).first() == x);
        assert(s.push(x).drop_first() =~= Seq::<Skill>::empty());
        assert(!has_title(Seq::<Skill>::empty()));
        assert(!has_title(s));
        assert(title_entry(Seq::<Skill>::empty()) == default_title());
    } else {
        assert(s.push(x).first() == s.first());
        assert(s.push(x).drop_first() =~= s.drop_first().push(x));
        lemma_title_push(s.drop_first(), x);
    }
}

/// A list without a title entry resolves to the default title.
proof fn lemma_no_title_default(s: Seq<Skill>)
    requires
        !has_title(s),
    ensures
        title_entry(s) == default_title(),
    decreases s.len(),
{
    if s.len() > 0 {
        lemma_no_title_default(s.drop_first());
    }
}

/// When no title stands before position `i` and a title stands at `i`, that
/// position is the first title of the whole list.
proof fn lemma_first_title_from_prefix(s: Seq<Skill>, i: int)
    requires
        0 <= i < s.len(),
        !has_title(s.take(i)),
        is_title(s[i]),
    ensures
        has_title(s),
        first_title_index(s) == i,
        title_entry(s) == s[i],
    decreases i,
{
    if i == 0 {
        assert(is_title(s.first()));
    } else {
        assert(s.take(i).first() == s.first());
        assert(s.take(i).len() == i);
        assert(!is_title(s.first()));
        assert(s.take(i).drop_first() =~= s.drop_first().take(i - 1));
        assert(s.drop_first()[i - 1] == s[i]);
        lemma_first_title_from_prefix(s.drop_first(), i - 1);
    }
}

/// Replaces the element of `v` at position `i`.
fn vec_set(v: &mut Vec<Skill>, i: usize, x: Skill)
    requires
        i < old(v)@.len(),
    ensures
        final(v)@ == old(v)@.update(i as int, x),
{
    let slot = &mut v[i];
    *slot = x;
}

impl SkillManager {
    /// Get profile statistics based on its skills.
    pub fn get_stats(&self) -> (r: ProfileStats)
        ensures
            stats_match(r, self.0@),
    {
        let ghost s = self.0@;
        let mut power: u64 = MAG_ONE;
        let mut defense: u64 = MAG_ONE;
        let mut abilities: Vec<(SkillName, u64)> = Vec::new();
        let mut skills: SkillSet = Vec::new();
        let mut tit: Option<Skill> = None;
        let mut i: usize = 0;
        let n = self.0.len();
        proof {
            assert(s.take(0) =~= Seq::<Skill>::empty());
        }
        while i < n
            invariant
                n == s.len(),
                i <= n,
                s == self.0@,
                power as int == power_raw(s.take(i as int)),
                defense as int == defense_raw(s.take(i as int)),
                abilities@ == abilities_seq(s.take(i as int)),
                skills@ == s.take(i as int),
                match tit {
                    Some(t) => has_title(s.take(i as int)) && t == title_entry(s.take(i as int)),
                    None => !has_title(s.take(i as int)),
                },
            decreases n - i,
        {
            let skill = self.0[i];
            let ((ty, name), mag) = skill;
            proof {
                assert(s.take(i as int + 1).drop_last() =~= s.take(i as int));
                assert(s.take(i as int + 1) =~= s.take(i as int).push(s[i as int]));
                assert(s.take(i as int + 1).last() == s[i as int]);
                lemma_title_push(s.take(i as int), s[i as int]);
            }
            match ty {
                SkillType::ModifierD => {
                    defense = mag_mul(defense, mag);
                },
                SkillType::ModifierP => {
                    power = mag_mul(power, mag);
                },
                SkillType::Ability => {
                    abilities.push((name, mag));
                },
                SkillType::Title => {
                    if tit.is_none() {
                        tit = Some(((ty, name), mag));
                    }
                },
            }
            skills.push(skill);
            i = i + 1;
        }
        proof {
            assert(s.take(n as int) =~= s);
        }
        // apply the effective title: the first title entry, or Normal at x1.0
        let (title_name, title_mag): (SkillName, u64) = match tit {
            Some(((_, name), mag)) => (name, mag),
            None => {
                proof {
                    lemma_no_title_default(s);
                }
                (SkillName::Normal, MAG_ONE)
            },
        };
        power = mag_mul(power, title_mag);
        defense = mag_mul(defense, title_mag);
        ProfileStats { power, defense, title: title_name, abilities, skills }
    }

    /// Update the profile title: overwrite the first title entry in place,
    /// or insert the new one at the front when no title is present.
    pub fn title(&mut self, skill: Skill) -> (r: Result<(), StrawError>)
        requires
            is_title(skill),
        ensures
            r is Ok,
            final(self).0@ == set_title_spec(old(self).0@, skill),
    {
        let ghost s = old(self).0@;
        let n = self.0.len();
        let mut i: usize = 0;
        proof {
            assert(s.take(0) =~= Seq::<Skill>::empty());
        }
        // find current title location
        while i < n
            invariant
                n == s.len(),
                i <= n,
                s == self.0@,
                s == old(self).0@,
                !has_title(s.take(i as int)),
            decreases n - i,
        {
            let ((ty, _), _) = self.0[i];
            proof {
                assert(s.take(i as int + 1) =~= s.take(i as int).push(s[i as int]));
                lemma_title_push(s.take(i as int), s[i as int]);
            }
            if let SkillType::Title = ty {
                proof {
                    lemma_first_title_from_prefix(s, i as int);
                }
                vec_set(&mut self.0, i, skill);
                return Ok(());
            }
            i = i + 1;
        }
        // since we didn't return earlier, we didn't previously have a title
        // skill; this means we can just insert the skill at 0
        proof {
            assert(s.take(n as int) =~= s);
        }
        self.0.insert(0, skill);
        Ok(())
    }

    /// Remove every skill with the given name. Succeeds even when nothing
    /// matched.
    pub fn remove(&mut self, name: SkillName) -> (r: Result<(), StrawError>)
        ensures
            r is Ok,
            final(self).0@ == revoke_spec(old(self).0@, name),
    {
        let ghost s = old(self).0@;
        let mut kept: Vec<Skill> = Vec::new();
        let n = self.0.len();
        let mut i: usize = 0;
        proof {
            assert(s.take(0) =~= Seq::<Skill>::empty());
        }
        while i < n
            invariant
                n == s.len(),
                i <= n,
                s == self.0@,
                kept@ == revoke_spec(s.take(i as int), name),
            decreases n - i,
        {
            let skill = self.0[i];
            proof {
                assert(s.take(i as int + 1).drop_last() =~= s.take(i as int));
                assert(s.take(i as int + 1).last() == s[i as int]);
            }
            if skill.0 .1 != name {
                kept.push(skill);
            }
            i = i + 1;
        }
        proof {
            assert(s.take(n as int) =~= s);
        }
        self.0 = kept;
        Ok(())
    }

    /// Push the given skill, after checking that the profile is allowed to
    /// have it (see [`grant_allowed`]). On failure the list is unchanged.
    pub fn push(&mut self, skill: Skill) -> (r: Result<(), StrawError>)
        ensures
            match r {
                Ok(_) => grant_allowed(skill.0.1, stats_power(old(self).0@)) && final(self).0@
                    == old(self).0@.push(skill),
                Err(e) => !grant_allowed(skill.0.1, stats_power(old(self).0@)) && e
                    == StrawError::ValueError && final(self).0@ == old(self).0@,
            },
    {
        // make sure skill is valid: this makes sure we aren't granted any
        // skills we shouldn't be able to have
        if !skill.0 .1.is_valid(self.get_stats()) {
            return Err(StrawError::ValueError);
        }
        self.0.push(skill);
        Ok(())
    }

    /// Check if the profile is allowed to act on another [`SkillManager`] by
    /// comparing their stats.
    pub fn act(&self, other: SkillManager) -> (r: bool)
        ensures
            r == act_spec(self.0@, other.0@),
    {
        let me = self.get_stats();
        let them = other.get_stats();
        ((me.power > them.defense) && (them.power <= me.power)) || (me.title == SkillName::God)
    }
}

/// The first title entry stands inside the list, and is what the list
/// resolves its title from.
proof fn lemma_first_title_bounds(s: Seq<Skill>)
    requires
        has_title(s),
    ensures
        0 <= first_title_index(s) < s.len(),
        is_title(s[first_title_index(s)]),
        title_entry(s) == s[first_title_index(s)],
    decreases s.len(),
{
    if !is_title(s.first()) {
        lemma_first_title_bounds(s.drop_first());
        assert(s.drop_first()[first_title_index(s.drop_first())] == s[first_title_index(s)]);
    }
}

/// Overwriting a title entry with another title entry leaves the modifier
/// folds, the ability entries, the non-title entries and the title count
/// unchanged.
proof fn lemma_title_update_neutral(s: Seq<Skill>, i: int, x: Skill)
    requires
        0 <= i < s.len(),
        is_title(s[i]),
        is_title(x),
    ensures
        power_raw(s.update(i, x)) == power_raw(s),
        defense_raw(s.update(i, x)) == defense_raw(s),
        abilities_seq(s.update(i, x)) == abilities_seq(s),
        non_title_entries(s.update(i, x)) == non_title_entries(s),
        title_count(s.update(i, x)) == title_count(s),
    decreases s.len(),
{
    let t = s.update(i, x);
    if i == s.len() - 1 {
        assert(t.drop_last() =~= s.drop_last());
        assert(t.last() == x);
        assert(s.last() == s[i]);
    } else {
        assert(t.drop_last() =~= s.drop_last().update(i, x));
        assert(t.last() == s.last());
        lemma_title_update_neutral(s.drop_last(), i, x);
    }
}

/// Inserting a title entry at the front leaves the modifier folds, the
/// ability entries and the non-title entries unchanged, and raises the title
/// count by one.
proof fn lemma_title_insert0(s: Seq<Skill>, x: Skill)
    requires
        is_title(x),
    ensures
        power_raw(s.insert(0, x)) == power_raw(s),
        defense_raw(s.insert(0, x)) == defense_raw(s),
        abilities_seq(s.insert(0, x)) == abilities_seq(s),
        non_title_entries(s.insert(0, x)) == non_title_entries(s),
        title_count(s.insert(0, x)) == title_count(s) + 1,
    decreases s.len(),
{
    let t = s.insert(0, x);
    if s.len() == 0 {
        assert(t.drop_last() =~= s);
        assert(t.last() == x);
    } else {
        assert(t.drop_last() =~= s.drop_last().insert(0, x));
        assert(t.last() == s.last());
        lemma_title_insert0(s.drop_last(), x);
    }
}

/// Overwriting the first title entry makes the new entry the effective
/// title, in the same position.
proof fn lemma_title_entry_update_first(s: Seq<Skill>, x: Skill)
    requires
        has_title(s),
        is_title(x),
    ensures
        has_title(s.update(first_title_index(s), x)),
        first_title_index(s.update(first_title_index(s), x)) == first_title_index(s),
        title_entry(s.update(first_title_index(s), x)) == x,
    decreases s.len(),
{
    lemma_first_title_bounds(s);
    let i = first_title_index(s);
    let t = s.update(i, x);
    if is_title(s.first()) {
        assert(t.first() == x);
    } else {
        lemma_first_title_bounds(s.drop_first());
        assert(t.first() == s.first());
        assert(t.drop_first() =~= s.drop_first().update(i - 1, x));
        lemma_title_entry_update_first(s.drop_first(), x);
    }
}

/// Resolution is deterministic: two snapshots derived from the same skill
/// list are identical.
pub proof fn lemma_stats_deterministic(a: ProfileStats, b: ProfileStats, s: Seq<Skill>)
    requires
        stats_match(a, s),
        stats_match(b, s),
    ensures
        a.power == b.power,
        a.defense == b.defense,
        a.title == b.title,
        a.abilities@ == b.abilities@,
        a.skills@ == b.skills@,
{
}

/// `Absolute` may be granted exactly at a power level of at least x100,000.0.
pub proof fn lemma_absolute_needs_power(power: int)
    ensures
        grant_allowed(SkillName::Absolute, power) <==> power >= ABSOLUTE_POWER_FLOOR,
{
}

/// The `God` title can never be granted, whatever the profile's stats.
pub proof fn lemma_god_never_granted(power: int)
    ensures
        !grant_allowed(SkillName::God, power),
{
}

/// After a title change the new title's magnitude is what scales power and
/// defense, the new title's name is the effective one, and the non-title
/// entries keep their relative order.
pub proof fn lemma_set_title_resolves(s: Seq<Skill>, skill: Skill)
    requires
        is_title(skill),
    ensures
        stats_power(set_title_spec(s, skill)) == scale_mul(power_raw(s), skill.1 as int),
        stats_defense(set_title_spec(s, skill)) == scale_mul(defense_raw(s), skill.1 as int),
        stats_title(set_title_spec(s, skill)) == skill.0.1,
        non_title_entries(set_title_spec(s, skill)) == non_title_entries(s),
{
    if has_title(s) {
        lemma_first_title_bounds(s);
        lemma_title_update_neutral(s, first_title_index(s), skill);
        lemma_title_entry_update_first(s, skill);
    } else {
        lemma_title_insert0(s, skill);
        let t = s.insert(0, skill);
        assert(t.first() == skill);
    }
}

/// A second title change in a row lands on the slot the first one filled:
/// the result is what a single change to the later title yields, and a title
/// entry is added only when the list had none.
pub proof fn lemma_set_title_twice(s: Seq<Skill>, t1: Skill, t2: Skill)
    requires
        is_title(t1),
        is_title(t2),
    ensures
        set_title_spec(set_title_spec(s, t1), t2) == set_title_spec(s, t2),
        has_title(s) ==> title_count(set_title_spec(s, t1)) == title_count(s),
        !has_title(s) ==> title_count(set_title_spec(s, t1)) == title_count(s) + 1,
{
    if has_title(s) {
        lemma_first_title_bounds(s);
        let i = first_title_index(s);
        lemma_title_entry_update_first(s, t1);
        lemma_title_update_neutral(s, i, t1);
        assert(s.update(i, t1).update(i, t2) =~= s.update(i, t2));
    } else {
        lemma_title_insert0(s, t1);
        let u = s.insert(0, t1);
        assert(u.first() == t1);
        assert(u.update(0, t2) =~= s.insert(0, t2));
    }
}

/// Revoking a name that no entry carries leaves the list unchanged.
pub proof fn lemma_revoke_no_match(s: Seq<Skill>, name: SkillName)
    requires
        forall|i: int| 0 <= i < s.len() ==> s[i].0.1 != name,
    ensures
        revoke_spec(s, name) == s,
    decreases s.len(),
{
    if s.len() > 0 {
        assert(s.last() == s[s.len() - 1]);
        lemma_revoke_no_match(s.drop_last(), name);
        assert(revoke_spec(s, name) =~= s);
    }
}

/// Revocation removes every entry carrying the name.
pub proof fn lemma_revoke_removes_all(s: Seq<Skill>, name: SkillName)
    ensures
        forall|i: int|
            0 <= i < revoke_spec(s, name).len() ==> revoke_spec(s, name)[i].0.1 != name,
    decreases s.len(),
{
    if s.len() > 0 {
        lemma_revoke_removes_all(s.drop_last(), name);
    }
}

/// A profile holding the `God` title may act on any target, whatever the
/// power and defense comparison says.
pub proof fn lemma_god_title_authorizes(me: Seq<Skill>, them: Seq<Skill>)
    requires
        stats_title(me) == SkillName::God,
    ensures
        act_spec(me, them),
{
}

} // verus!
