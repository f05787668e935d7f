//! Data model: skill categories, the closed skill catalog, profile records
//! and the engine's error type.

use vstd::prelude::*;
use vstd::string::StringExecFns;

verus! {

/// How a skill's magnitude is combined into the derived stats.
#[derive(Clone, Copy, Debug, PartialEq, Eq, Structural)]
pub enum SkillType {
    /// Multiplies the `defense` level of a profile.
    ModifierD,
    /// Multiplies the `power` level of a profile.
    ModifierP,
    /// An action that can be cast by a profile.
    Ability,
    /// A profile role whose magnitude scales both power and defense;
    /// only the first title in a skill list is effective.
    Title,
}

/// The closed set of skill names. Each name is permanently bound to one
/// [`SkillType`] and one default magnitude (see [`SkillName::describe`]).
#[derive(Clone, Copy, Debug, PartialEq, Eq, Hash, Structural)]
pub enum SkillName {
    // modifiers
    /// `ModifierP` skill; x2.0 power.
    Master,
    /// `ModifierD` skill; x2.0 defense.
    Patron,
    /// `ModifierP` skill; x1.05 power.
    Trustworthy,
    /// `ModifierD` skill; x1.05 defense.
    Protected,
    // abilities
    /// `Ability` skill; the ability to do anything and everything; only
    /// grantable at a power level of at least 100,000.
    Absolute,
    // titles
    /// `Title` skill; x100,000.0; cannot be granted at all, it can only
    /// reach an account through direct seeding of its stored skill list.
    God,
    /// `Title` skill; x10,000.0.
    Administrator,
    /// `Title` skill; x1,000.0.
    Manager,
    /// `Title` skill; x1.0.
    Normal,
}

/// Only what's needed to identify a skill.
pub type SkillIdentifier = (SkillType, SkillName);

/// A basic skill. The magnitude is a fixed-point multiplier in hundredths
/// (`100` is x1.0). It is usually the name's default value, but it can be
/// set to something else when the skill is granted.
pub type Skill = (SkillIdentifier, u64);

/// An ordered list of skills. Order matters only for title resolution:
/// the first title entry is the effective one.
pub type SkillSet = Vec<Skill>;

/// The fixed-point representation of the multiplier x1.0.
pub const MAG_ONE: u64 = 100;

/// The power level needed to be granted [`SkillName::Absolute`]:
/// x100,000.0 in hundredths.
pub const ABSOLUTE_POWER_FLOOR: u64 = 10_000_000;

/// The category permanently bound to a skill name.
pub open spec fn type_of(name: SkillName) -> SkillType {
    match name {
        SkillName::Master => SkillType::ModifierP,
        SkillName::Patron => SkillType::ModifierD,
        SkillName::Trustworthy => SkillType::ModifierP,
        SkillName::Protected => SkillType::ModifierD,
        SkillName::Absolute => SkillType::Ability,
        SkillName::God => SkillType::Title,
        SkillName::Administrator => SkillType::Title,
        SkillName::Manager => SkillType::Title,
        SkillName::Normal => SkillType::Title,
    }
}

/// The default magnitude permanently bound to a skill name, in hundredths.
pub open spec fn default_magnitude(name: SkillName) -> u64 {
    match name {
        SkillName::Master => 200,
        SkillName::Patron => 200,
        SkillName::Trustworthy => 105,
        SkillName::Protected => 105,
        SkillName::Absolute => 100,
        SkillName::God => 10_000_000,
        SkillName::Administrator => 1_000_000,
        SkillName::Manager => 100_000,
        SkillName::Normal => 100,
    }
}

/// Whether `name` may be granted to a profile whose current power level is
/// `power` (fixed-point hundredths):
/// - `Absolute` only at a power level of at least x100,000.0;
/// - `God` never;
/// - every other name unconditionally.
pub open spec fn grant_allowed(name: SkillName, power: int) -> bool {
    if name == SkillName::Absolute {
        power >= ABSOLUTE_POWER_FLOOR
    } else {
        name != SkillName::God
    }
}

impl SkillName {
    /// Get a skill and its default values from just its name.
    pub fn describe(self) -> (r: Skill)
        ensures
            r == ((type_of(self), self), default_magnitude(self)),
    {
        match self {
            // modifiers
            SkillName::Master => ((SkillType::ModifierP, self), 200),
            SkillName::Patron => ((SkillType::ModifierD, self), 200),
            SkillName::Trustworthy => ((SkillType::ModifierP, self), 105),
            SkillName::Protected => ((SkillType::ModifierD, self), 105),
            // abilities
            SkillName::Absolute => ((SkillType::Ability, self), 100),
            // titles
            SkillName::God => ((SkillType::Title, self), 10_000_000),
            SkillName::Administrator => ((SkillType::Title, self), 1_000_000),
            SkillName::Manager => ((SkillType::Title, self), 100_000),
            SkillName::Normal => ((SkillType::Title, self), 100),
        }
    }
}

/// General API errors.
#[derive(Clone, Copy, Debug, PartialEq, Eq, Structural)]
pub enum StrawError {
    MustBeUnique,
    NotAllowed,
    ValueError,
    NotFound,
    Other,
}

/// The message belonging to each error kind.
pub open spec fn error_message(e: StrawError) -> Seq<char> {
    match e {
        StrawError::MustBeUnique => "One of the given values must be unique."@,
        StrawError::NotAllowed => "You are not allowed to access this resource."@,
        StrawError::ValueError => "One of the field values given is invalid."@,
        StrawError::NotFound => "No asset with this ID could be found."@,
        StrawError::Other => "An unspecified error has occured"@,
    }
}

impl StrawError {
    /// Human-readable message for the error.
    pub fn to_string(&self) -> (r: String)
        ensures
            r@ == error_message(*self),
    {
        match self {
            StrawError::MustBeUnique => String::from_str(
                "One of the given values must be unique.",
            ),
            StrawError::NotAllowed => String::from_str(
                "You are not allowed to access this resource.",
            ),
            StrawError::ValueError => String::from_str(
                "One of the field values given is invalid.",
            ),
            StrawError::NotFound => String::from_str("No asset with this ID could be found."),
            StrawError::Other => String::from_str("An unspecified error has occured"),
        }
    }
}

/// Basic user structure.
#[derive(Clone, Debug)]
pub struct Profile {
    pub id: String,
    pub username: String,
    pub metadata: ProfileMetadata,
    pub skills: SkillSet,
    pub joined: u128,
}

#[derive(Clone, Debug)]
pub struct ProfileMetadata {
    /// A secondary token that can be used to authenticate as the account.
    pub secondary_token: String,
}

// props
#[derive(Clone, Debug)]
pub struct ProfileCreate {
    pub username: String,
}

#[derive(Clone, Debug)]
pub struct ProfileLogin {
    pub id: String,
}

#[derive(Debug)]
pub struct GrantSkill {
    pub skill: Skill,
}

#[derive(Clone, Debug)]
pub struct RevokeSkill {
    pub skill: SkillName,
}

#[derive(Clone, Debug)]
pub struct GrantTitle {
    pub title: SkillName,
}

} // verus!
