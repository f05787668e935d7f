//! Skill-resolution and authorization engine.
//!
//! Accounts carry an ordered list of skills (power/defense modifiers, abilities,
//! and titles). The engine folds such a list into a derived profile of power,
//! defense, effective title and ability levels, and decides whether a grant,
//! revocation or title change is legal and whether one account may act upon
//! another. It performs no I/O; callers load and persist the skill lists.
//!
//! All multipliers are fixed-point numbers in hundredths: `100` stands for
//! x1.0, `105` for x1.05, `10_000_000` for x100000.0. Products saturate at
//! `u64::MAX`.

pub mod api;
pub mod database;
pub mod manager;
pub mod model;
pub mod stats;
