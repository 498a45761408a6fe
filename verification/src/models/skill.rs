//! Skill definitions.

use crate::models::card::CardCombatEncounter;
use crate::models::pack_id::PackId;
use crate::models::tag::{Hero, Tag};
use crate::models::tier::{Tier, TieredValue};
use crate::models::tooltip::base::Tooltip;
use std::sync::Arc;
use vstd::prelude::*;

verus! {

/// The definition of a skill.
#[derive(Debug, PartialEq, Eq)]
pub struct Skill {
    pub id: String,
    pub name: String,
    pub starting_tier: Tier,
    pub tiers: TieredValue<Arc<Vec<Tooltip>>>,
    pub tags: Arc<Vec<Tag>>,
    pub hidden_tags: Arc<Vec<Tag>>,
    pub custom_tags: Arc<Vec<Tag>>,
    pub heroes: Arc<Vec<Hero>>,
    pub unified_tooltips: Arc<Vec<String>>,
    pub pack_id: PackId,
    pub combat_encounters: Arc<Vec<CardCombatEncounter>>,
}

/// A skill definition at a given tier.
#[derive(Debug, PartialEq, Eq)]
pub struct TieredSkill {
    pub skill: Skill,
    pub tier: Tier,
}

} // verus!
