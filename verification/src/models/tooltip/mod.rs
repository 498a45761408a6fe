//! Tooltips: the structured form of an item's rules text.

pub mod base;
pub mod card_target;
pub mod card_target_condition;
pub mod condition;
pub mod effect;
pub mod effect_event;
pub mod effect_reading;
pub mod effect_text;
pub mod effect_value;
pub mod event_reading;
pub mod global_event;
pub mod modifier;
pub mod numeric;
pub mod obtained_item;
pub mod player_target;
pub mod source_text;
pub mod tooltip_reading;

pub use base::{Tooltip, TooltipView};
pub use card_target::{CardTarget, CardTargetView};
pub use card_target_condition::{TargetCondition, TargetConditionView};
pub use condition::Condition;
pub use effect::{
    CardDerivedProperty, DerivedValue, DerivedValueView, Effect, EffectView,
    PlayerDerivedProperty,
};
pub use effect_event::{EffectEvent, EffectEventView};
pub use effect_value::EffectValue;
pub use global_event::GlobalEvent;
pub use modifier::Modifier;
pub use numeric::{parse_numeric, Decimal};
pub use obtained_item::{ObtainedEffectItem, ObtainedItemView};
pub use player_target::PlayerTarget;
