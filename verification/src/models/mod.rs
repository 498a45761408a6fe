//! The data model of items: sizes, tiers, tags, tooltips and effects.

pub mod card;
pub mod data;
pub mod enchant;
pub mod encounter;
pub mod pack_id;
pub mod re;
pub mod size;
pub mod skill;
pub mod tag;
pub mod tier;
pub mod tooltip;

pub use card::{Card, CardCombatEncounter, TieredCard};
pub use data::Percentage;
pub use enchant::{CardEnchantment, Enchantment};
pub use encounter::{Encounter, EncounterCard, EncounterDay};
pub use pack_id::PackId;
pub use size::Size;
pub use skill::{Skill, TieredSkill};
pub use tag::{Hero, Tag};
pub use tier::{Tier, TieredValue};
pub use tooltip::{
    parse_numeric, CardDerivedProperty, CardTarget, Condition, Decimal, DerivedValue, Effect,
    EffectEvent, EffectValue, GlobalEvent, Modifier, ObtainedEffectItem, PlayerDerivedProperty,
    PlayerTarget, TargetCondition, Tooltip,
};
