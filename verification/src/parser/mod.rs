//! Turning the game's data files into source text for a card catalog.

pub mod cards;
pub mod encounters;
pub mod json;
pub mod skills;
pub mod tree;
pub mod wrappers;

pub use cards::{JsonCardFields, JsonEnchantment};
pub use encounters::{JsonEncounterCardFields, JsonEncounterFields, JsonEncounterSkillFields};
pub use json::{Json, JsonError, JsonValue};
pub use skills::JsonSkillFields;
pub use wrappers::{tag_strlist, ModuleName, StructName};
