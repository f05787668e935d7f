//! Request cores: the decisions the skill-editing endpoints make once the
//! caller has been identified and both profiles are loaded. Editing another
//! profile's skills is allowed only to a caller holding the `God` title.

use vstd::prelude::*;

use crate::manager::{revoke_spec, set_title_spec, SkillManager};
use crate::model::{
    default_magnitude, grant_allowed, type_of, Skill, SkillName, SkillType, StrawError,
};
use crate::stats::{stats_power, stats_title};

verus! {

/// Grant `skill` on `target` on behalf of `actor`. The actor must hold the
/// `God` title, and the grant must pass the catalog validity check against
/// the target's current stats; on failure the target is unchanged.
pub fn grant_skill(actor: &SkillManager, target: &mut SkillManager, skill: Skill) -> (r: Result<
    (),
    StrawError,
>)
    ensures
        match r {
            Ok(_) => stats_title(actor.0@) == SkillName::God && grant_allowed(
                skill.0.1,
                stats_power(old(target).0@),
            ) && final(target).0@ == old(target).0@.push(skill),
            Err(e) => final(target).0@ == old(target).0@ && ((e == StrawError::NotAllowed
                && stats_title(actor.0@) != SkillName::God) || (e == StrawError::ValueError
                && stats_title(actor.0@) == SkillName::God && !grant_allowed(
                skill.0.1,
                stats_power(old(target).0@),
            ))),
        },
{
    // we must have the God title to edit other users
    let stats = actor.get_stats();
    if stats.title != SkillName::God {
        return Err(StrawError::NotAllowed);
    }
    target.push(skill)
}

/// Revoke every skill named `name` on `target` on behalf of `actor`. The
/// actor must hold the `God` title; revocation itself always succeeds, even
/// when nothing matched.
pub fn revoke_skill(actor: &SkillManager, target: &mut SkillManager, name: SkillName) -> (r:
    Result<(), StrawError>)
    ensures
        match r {
            Ok(_) => stats_title(actor.0@) == SkillName::God && final(target).0@ == revoke_spec(
                old(target).0@,
                name,
            ),
            Err(e) => e == StrawError::NotAllowed && stats_title(actor.0@) != SkillName::God
                && final(target).0@ == old(target).0@,
        },
{
    // we must have the God title to edit other users
    let stats = actor.get_stats();
    if stats.title != SkillName::God {
        return Err(StrawError::NotAllowed);
    }
    target.remove(name)
}

/// Seed `target` with the title named `title`, at its default magnitude, on
/// behalf of `actor`. The actor must hold the `God` title; no catalog
/// validity check applies, so this is the one path that hands out `God`.
pub fn grant_title(actor: &SkillManager, target: &mut SkillManager, title: SkillName) -> (r:
    Result<(), StrawError>)
    requires
        type_of(title) == SkillType::Title,
    ensures
        match r {
            Ok(_) => stats_title(actor.0@) == SkillName::God && final(target).0@ == set_title_spec(
                old(target).0@,
                ((SkillType::Title, title), default_magnitude(title)),
            ),
            Err(e) => e == StrawError::NotAllowed && stats_title(actor.0@) != SkillName::God
                && final(target).0@ == old(target).0@,
        },
{
    // we must have the God title to edit other users
    let stats = actor.get_stats();
    if stats.title != SkillName::God {
        return Err(StrawError::NotAllowed);
    }
    target.title(title.describe())
}

/// Query properties of the session callback: the uid is sent back to the
/// client as a token.
pub struct CallbackQueryProps {
    pub uid: String,
}

} // verus!
