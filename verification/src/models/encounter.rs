//! Encounters: the boards a player can meet.

use crate::models::card::TieredCard;
use crate::models::enchant::Enchantment;
use crate::models::skill::TieredSkill;
use vstd::prelude::*;

verus! {

/// The day on which an encounter takes place.
#[derive(Clone, Copy, Debug, PartialEq, Eq, Structural)]
pub enum EncounterDay {
    Event,
    Numeric(usize),
}

/// A card of an encounter, with its enchantment if it has one.
#[derive(Debug, PartialEq, Eq)]
pub struct EncounterCard {
    pub card: TieredCard,
    pub enchantment: Option<Enchantment>,
}

/// An opponent board met during a run.
#[derive(Debug, PartialEq, Eq)]
pub struct Encounter {
    pub id: String,
    pub name: String,
    pub level: i64,
    pub health: usize,
    pub cards: Vec<EncounterCard>,
    pub skills: Vec<TieredSkill>,
    pub day: EncounterDay,
}

} // verus!
