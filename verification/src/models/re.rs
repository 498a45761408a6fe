//! The expressions by which tooltips are read.

use vstd::prelude::*;

verus! {

pub const STATIC_WEAPON_DAMAGE: &'static str = r"^your weapons deal \+(\d+) damage\.$";

pub const HASTE_N_FOR_M: &'static str = r"^haste (\d+) items? for (\d+) second\(s\)\.$";

pub const SLOW_N_FOR_M: &'static str = r"^slow (\d+) items? for (\d+) second\(s\)\.$";

pub const FREEZE_N_FOR_M: &'static str =
    r"^freeze\s+(\d+)\s+item(?:s|\(s\))?\s+for\s+(\d+)\s+second(?:s|\(s\))?\.$";

pub const FREEZE_N_FOR_M_OF_SIZE: &'static str =
    r"^freeze\s+(\d+)\s+(small|medium|large)\s+item(?:s|\(s\))?\s+for\s+(\d+)\s+second(?:s|\(s\))?\.$";

pub const EFFECT_GET_ITEMS_REGEX: &'static str = r"^get\s+(a|\d+)\s+([\p{L} ]+)\.?$";

pub const EFFECT_GET_TAG_CONDITIONAL_ITEMS_REGEX: &'static str =
    r"^get a ([\p{L} ]+). if you have a ([\p{L} ]+), get a second ([\p{L} ]+)\.?";

pub const EFFECT_GET_TRIPLE_SINGULAR_ITEMS_REGEX: &'static str =
    r"^get a ([\p{L} ]+), ([\p{L} ]+) and ([\p{L} ]+)\.?$";

pub const EFFECT_GAIN_PERMANENT_MAX_HP: &'static str = r"^permanently gain (\d+) max health\.?$";

pub const EFFECT_SPEND_GOLD_FOR_EFFECT: &'static str = r"^spend (\d+) gold to ([\p{L} ]+)\.?$";

pub const EFFECT_THIS_GAINS_MAX_AMMO: &'static str = r"^this gains (\d+) max ammo\.?$";

pub const EFFECT_POISON_SELF: &'static str = r"^poison yourself (\d+)\.?$";

pub const EFFECT_UPGRADE_RANDOM_PIGGLE: &'static str = r"^upgrade a random piggle\.?$";

pub const EFFECT_GAIN_GOLD: &'static str = r"^gain (\d+) gold\.?$";

pub const EFFECT_BURN_FROM_DAMAGE: &'static str = r"burn equal to (\d+)% of this item's damage.";

pub const EFFECT_HEAL_FROM_DAMAGE: &'static str = r"heal equal to (\d+)% of this item's damage.";

pub const EFFECT_HEAL_FROM_DAMAGE_FULL: &'static str = r"heal equal to this item's damage.";

pub const EFFECT_SHIELD_FROM_DAMAGE: &'static str =
    r"shield equal to (\d+)% of this item's damage.";

pub const EFFECT_SHIELD_FROM_DAMAGE_FULL: &'static str = r"shield equal to this item's damage.";

pub const EFFECT_POISON_FROM_DAMAGE: &'static str =
    r"poison equal to (\d+)% of this item's damage.";

pub const EFFECT_DEAL_DAMAGE: &'static str = r"^deal (\d+) damage\.?$";

pub const EFFECT_BURN: &'static str = r"^burn (\d+)\.?$";

pub const EFFECT_POISON: &'static str = r"^poison (\d+)\.?$";

pub const EFFECT_HEAL: &'static str = r"^heal (\d+)\.?$";

pub const EFFECT_SHIELD: &'static str = r"^shield (\d+)\.?$";

pub const EFFECT_REGEN: &'static str = r"^gain (\d+) regen for the fight\.?$";

} // verus!
