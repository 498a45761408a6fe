//! Reading effects from the words of a tooltip.

use crate::models::re::{
    EFFECT_BURN_FROM_DAMAGE, EFFECT_GAIN_GOLD, EFFECT_GAIN_PERMANENT_MAX_HP,
    EFFECT_GET_ITEMS_REGEX, EFFECT_GET_TAG_CONDITIONAL_ITEMS_REGEX,
    EFFECT_GET_TRIPLE_SINGULAR_ITEMS_REGEX, EFFECT_HEAL_FROM_DAMAGE,
    EFFECT_HEAL_FROM_DAMAGE_FULL, EFFECT_POISON_FROM_DAMAGE, EFFECT_POISON_SELF,
    EFFECT_SHIELD_FROM_DAMAGE, EFFECT_SHIELD_FROM_DAMAGE_FULL, EFFECT_SPEND_GOLD_FOR_EFFECT,
    EFFECT_THIS_GAINS_MAX_AMMO, EFFECT_UPGRADE_RANDOM_PIGGLE,
};
use crate::models::tag::Tag;
use crate::models::tier::Tier;
use crate::models::tooltip::card_target::{CardTarget, CardTargetView};
use crate::models::tooltip::card_target_condition::{TargetCondition, TargetConditionView};
use crate::models::tooltip::condition::Condition;
use crate::models::tooltip::effect::{
    CardDerivedProperty, DerivedValue, DerivedValueView, Effect, EffectView,
};
use crate::models::tooltip::effect_value::EffectValue;
use crate::models::tooltip::numeric::{
    capture_u32, captured_u32, group_u32, parse_u32,
};
use crate::models::tooltip::obtained_item::{ObtainedEffectItem, ObtainedItemView};
use crate::models::tooltip::player_target::PlayerTarget;
use crate::pattern::{captures, group, group_text, is_match, regex_groups};
use crate::text::{owned, same_text, title_case, to_title_case, trim, trimmed};
use std::sync::Arc;
use vstd::prelude::*;

verus! {

/// The target that stands for the card itself.
pub open spec fn own_target() -> CardTargetView {
    CardTargetView(1, TargetConditionView::IsSelf)
}

/// A value derived from the card's own damage.
pub open spec fn of_own_damage(percent: u32) -> DerivedValueView {
    DerivedValueView::FromCard(own_target(), CardDerivedProperty::Damage, percent)
}

/// A value derived from the card's own value.
pub open spec fn of_own_value(percent: u32) -> DerivedValueView {
    DerivedValueView::FromCard(own_target(), CardDerivedProperty::Value, percent)
}

/// An obtained item.
pub open spec fn obtained(name: Seq<char>, count: u32, condition: Option<Condition>) -> ObtainedItemView {
    ObtainedItemView { name, count, condition }
}

/// The effect of a phrase that hands out items, if the phrase is one:
/// `use this.`; `get <a or a number> <name>`; `get a <name>, <name> and
/// <name>`; `get a <name>. if you have a <tag>, get a second <name>`.
pub open spec fn items_effect(text: Seq<char>) -> Option<EffectView> {
    let counted = regex_groups(EFFECT_GET_ITEMS_REGEX@, text);
    let triple = regex_groups(EFFECT_GET_TRIPLE_SINGULAR_ITEMS_REGEX@, text);
    let second = regex_groups(EFFECT_GET_TAG_CONDITIONAL_ITEMS_REGEX@, text);
    if text == "use this."@ {
        Some(EffectView::Use(own_target()))
    } else if group_text(counted, 1) is Some && group_text(counted, 2) is Some {
        let name = title_case(title_case(group_text(counted, 2)->0));
        if group_text(counted, 1)->0 == "a"@ {
            Some(EffectView::ObtainItem(seq![obtained(name, 1, None)]))
        } else {
            match group_u32(counted, 1) {
                Some(count) => Some(EffectView::ObtainItem(seq![obtained(name, count, None)])),
                None => Some(EffectView::Raw(text)),
            }
        }
    } else if group_text(triple, 1) is Some && group_text(triple, 2) is Some && group_text(
        triple,
        3,
    ) is Some {
        Some(
            EffectView::ObtainItem(
                seq![
                    obtained(title_case(group_text(triple, 1)->0), 1, None),
                    obtained(title_case(group_text(triple, 2)->0), 1, None),
                    obtained(title_case(group_text(triple, 3)->0), 1, None),
                ],
            ),
        )
    } else if group_text(second, 1) is Some && group_text(second, 2) is Some && group_text(
        second,
        3,
    ) is Some && Tag::named(group_text(second, 2)->0) is Some {
        Some(
            EffectView::ObtainItem(
                seq![
                    obtained(title_case(group_text(second, 1)->0), 1, None),
                    obtained(
                        title_case(group_text(second, 3)->0),
                        1,
                        Some(Condition::HasCardOfTag(Tag::named(group_text(second, 2)->0)->0)),
                    ),
                ],
            ),
        )
    } else {
        None
    }
}

/// The effect of a phrase that derives its amount from the damage of the
/// item, if the phrase is one: poison, shield, heal or burn `equal to <n>%
/// of this item's damage`, and shield or heal `equal to this item's damage`.
pub open spec fn scaled_effect(text: Seq<char>) -> Option<EffectView> {
    if captured_u32(EFFECT_POISON_FROM_DAMAGE@, text) is Some {
        Some(
            EffectView::Poison(
                PlayerTarget::Opponent,
                of_own_damage(captured_u32(EFFECT_POISON_FROM_DAMAGE@, text)->0),
            ),
        )
    } else if captured_u32(EFFECT_SHIELD_FROM_DAMAGE@, text) is Some {
        Some(
            EffectView::Shield(
                PlayerTarget::Player,
                of_own_damage(captured_u32(EFFECT_SHIELD_FROM_DAMAGE@, text)->0),
            ),
        )
    } else if regex_groups(EFFECT_SHIELD_FROM_DAMAGE_FULL@, text) is Some {
        Some(EffectView::Shield(PlayerTarget::Player, of_own_damage(100)))
    } else if captured_u32(EFFECT_HEAL_FROM_DAMAGE@, text) is Some {
        Some(
            EffectView::Heal(
                PlayerTarget::Player,
                of_own_damage(captured_u32(EFFECT_HEAL_FROM_DAMAGE@, text)->0),
            ),
        )
    } else if regex_groups(EFFECT_HEAL_FROM_DAMAGE_FULL@, text) is Some {
        Some(EffectView::Heal(PlayerTarget::Player, of_own_damage(100)))
    } else if captured_u32(EFFECT_BURN_FROM_DAMAGE@, text) is Some {
        Some(
            EffectView::Burn(
                PlayerTarget::Opponent,
                of_own_damage(captured_u32(EFFECT_BURN_FROM_DAMAGE@, text)->0),
            ),
        )
    } else {
        None
    }
}

/// The effect of one of the remaining phrases, if the phrase is one: `gain
/// <n> gold`, `this gains <n> max ammo`, `upgrade a random piggle`, damage
/// equal to the item's value or to its double, `destroy an item for the
/// fight.`, and the experience of the wanted poster.
pub open spec fn fixed_effect(text: Seq<char>) -> Option<EffectView> {
    if captured_u32(EFFECT_GAIN_GOLD@, text) is Some {
        Some(
            EffectView::GainGold(
                PlayerTarget::Player,
                DerivedValueView::Constant(captured_u32(EFFECT_GAIN_GOLD@, text)->0),
            ),
        )
    } else if captured_u32(EFFECT_THIS_GAINS_MAX_AMMO@, text) is Some {
        Some(
            EffectView::IncreaseMaxAmmo(
                own_target(),
                EffectValue::Flat(captured_u32(EFFECT_THIS_GAINS_MAX_AMMO@, text)->0),
            ),
        )
    } else if regex_groups(EFFECT_UPGRADE_RANDOM_PIGGLE@, text) is Some {
        Some(
            EffectView::Upgrade(
                Tier::Bronze,
                CardTargetView(1, TargetConditionView::NameIncludes("piggle"@)),
            ),
        )
    } else if text == "deal damage equal to double this item's value."@ {
        Some(EffectView::DealDamage(PlayerTarget::Opponent, of_own_value(200)))
    } else if text == "deal damage equal to this item's value."@ {
        Some(EffectView::DealDamage(PlayerTarget::Opponent, of_own_value(100)))
    } else if text == "destroy an item for the fight."@ {
        Some(
            EffectView::Destroy(
                CardTargetView(1, TargetConditionView::HasOwner(PlayerTarget::Opponent)),
            ),
        )
    } else if text == "gain 1 xp. if you had wanted poster in play, gain 1 additional xp."@ {
        Some(wanted_poster_view())
    } else {
        None
    }
}

/// The effect that a phrase without white space at its ends stands for. The
/// phrases are tried in a fixed order; a phrase that is none of them is
/// kept as raw text. In `spend <n> gold to <phrase>` the inner phrase is
/// read in the same way.
pub open spec fn effect_of(text: Seq<char>) -> EffectView
    decreases text.len(),
{
    let spend = regex_groups(EFFECT_SPEND_GOLD_FOR_EFFECT@, text);
    if items_effect(text) is Some {
        items_effect(text)->0
    } else if captured_u32(EFFECT_POISON_SELF@, text) is Some {
        EffectView::Poison(
            PlayerTarget::Player,
            DerivedValueView::Constant(captured_u32(EFFECT_POISON_SELF@, text)->0),
        )
    } else if captured_u32(EFFECT_GAIN_PERMANENT_MAX_HP@, text) is Some {
        EffectView::PermanentMaxHealthIncrease(
            DerivedValueView::Constant(captured_u32(EFFECT_GAIN_PERMANENT_MAX_HP@, text)->0),
        )
    } else if group_u32(spend, 1) is Some && group_text(spend, 2) is Some {
        let inner = trimmed(group_text(spend, 2)->0);
        EffectView::SpendGoldForEffect(
            group_u32(spend, 1)->0,
            Box::new(
                if inner.len() < text.len() {
                    effect_of(inner)
                } else {
                    EffectView::Raw(inner)
                },
            ),
        )
    } else if scaled_effect(text) is Some {
        scaled_effect(text)->0
    } else if fixed_effect(text) is Some {
        fixed_effect(text)->0
    } else {
        EffectView::Raw(text)
    }
}

/// The effect with the card itself as target.
fn own_card() -> (target: CardTarget)
    ensures
        target@ == own_target(),
{
    CardTarget(1, TargetCondition::IsSelf)
}

/// A value derived from the card's own damage.
fn own_damage(percent: u32) -> (value: DerivedValue<u32>)
    ensures
        value@ == of_own_damage(percent),
{
    DerivedValue::FromCard(own_card(), CardDerivedProperty::Damage, percent)
}

/// A value derived from the card's own value.
fn own_value(percent: u32) -> (value: DerivedValue<u32>)
    ensures
        value@ == of_own_value(percent),
{
    DerivedValue::FromCard(own_card(), CardDerivedProperty::Value, percent)
}

/// The effect that hands out the given items.
fn obtain(items: Vec<ObtainedEffectItem>) -> (effect: Effect)
    ensures
        effect@ == EffectView::ObtainItem(Seq::new(items@.len(), |i: int| items@[i]@)),
{
    Effect::ObtainItem(Arc::new(items))
}

/// The experience that the wanted poster gives: one point, and one more
/// where the poster was in play.
pub open spec fn wanted_poster_view() -> EffectView {
    EffectView::MultiEffect(
        seq![
            EffectView::GainXp(PlayerTarget::Player, 1),
            EffectView::ConditionalMatchItem(
                CardTargetView(1, TargetConditionView::NameIncludes("wanted poster"@)),
                Box::new(EffectView::GainXp(PlayerTarget::Player, 1)),
            ),
        ],
    )
}

/// The experience that the wanted poster gives.
fn wanted_poster_experience() -> (effect: Effect)
    ensures
        effect@ == wanted_poster_view(),
{
    let mut effects: Vec<Effect> = Vec::new();
    effects.push(Effect::GainXp(PlayerTarget::Player, 1));
    effects.push(
        Effect::ConditionalMatchItem(
            CardTarget(1, TargetCondition::NameIncludes(owned("wanted poster"))),
            Box::new(Effect::GainXp(PlayerTarget::Player, 1)),
        ),
    );
    let effect = Effect::MultiEffect(Arc::new(effects));
    proof {
        reveal_with_fuel(Effect::said, 4);
        assert(effect@->MultiEffect_0 =~= wanted_poster_view()->MultiEffect_0);
    }
    effect
}

impl Effect {
    /// Reads a phrase that hands out items.
    fn read_items(text: &str) -> (effect: Option<Effect>)
        ensures
            match effect {
                Some(read) => items_effect(text@) == Some(read@),
                None => items_effect(text@) is None,
            },
    {
        if same_text(text, "use this.") {
            return Some(Effect::Use(own_card()));
        }
        let counted = captures(EFFECT_GET_ITEMS_REGEX, text);
        match (group(&counted, 1), group(&counted, 2)) {
            (Some(count_text), Some(name_text)) => {
                let count = if same_text(count_text, "a") {
                    1
                } else {
                    match parse_u32(count_text) {
                        Some(count) => count,
                        None => {
                            return Some(Effect::Raw(owned(text)));
                        },
                    }
                };
                let name = to_title_case(name_text);
                let mut items: Vec<ObtainedEffectItem> = Vec::new();
                items.push(ObtainedEffectItem::new(name.as_str(), count));
                let effect = obtain(items);
                assert(effect@->ObtainItem_0 =~= seq![
                    obtained(title_case(title_case(name_text@)), count, None),
                ]);
                return Some(effect);
            },
            _ => {},
        }
        let triple = captures(EFFECT_GET_TRIPLE_SINGULAR_ITEMS_REGEX, text);
        match (group(&triple, 1), group(&triple, 2), group(&triple, 3)) {
            (Some(first), Some(second), Some(third)) => {
                let mut items: Vec<ObtainedEffectItem> = Vec::new();
                items.push(ObtainedEffectItem::new(first, 1));
                items.push(ObtainedEffectItem::new(second, 1));
                items.push(ObtainedEffectItem::new(third, 1));
                let effect = obtain(items);
                assert(effect@->ObtainItem_0 =~= seq![
                    obtained(title_case(first@), 1, None),
                    obtained(title_case(second@), 1, None),
                    obtained(title_case(third@), 1, None),
                ]);
                return Some(effect);
            },
            _ => {},
        }
        let conditional = captures(EFFECT_GET_TAG_CONDITIONAL_ITEMS_REGEX, text);
        match (group(&conditional, 1), group(&conditional, 2), group(&conditional, 3)) {
            (Some(first), Some(tag_text), Some(second)) => {
                match Tag::from_str(tag_text) {
                    Some(tag) => {
                        let mut items: Vec<ObtainedEffectItem> = Vec::new();
                        items.push(ObtainedEffectItem::new(first, 1));
                        items.push(
                            ObtainedEffectItem::new_conditional(
                                second,
                                1,
                                Condition::HasCardOfTag(tag),
                            ),
                        );
                        let effect = obtain(items);
                        assert(effect@->ObtainItem_0 =~= seq![
                            obtained(title_case(first@), 1, None),
                            obtained(
                                title_case(second@),
                                1,
                                Some(Condition::HasCardOfTag(tag)),
                            ),
                        ]);
                        return Some(effect);
                    },
                    None => {},
                }
            },
            _ => {},
        }
        None
    }

    /// Reads a phrase that derives its amount from the damage of the item.
    fn read_scaled(text: &str) -> (effect: Option<Effect>)
        ensures
            match effect {
                Some(read) => scaled_effect(text@) == Some(read@),
                None => scaled_effect(text@) is None,
            },
    {
        match capture_u32(EFFECT_POISON_FROM_DAMAGE, text) {
            Some(percent) => {
                return Some(Effect::Poison(PlayerTarget::Opponent, own_damage(percent)));
            },
            None => {},
        }
        match capture_u32(EFFECT_SHIELD_FROM_DAMAGE, text) {
            Some(percent) => {
                return Some(Effect::Shield(PlayerTarget::Player, own_damage(percent)));
            },
            None => {},
        }
        if is_match(EFFECT_SHIELD_FROM_DAMAGE_FULL, text) {
            return Some(Effect::Shield(PlayerTarget::Player, own_damage(100)));
        }
        match capture_u32(EFFECT_HEAL_FROM_DAMAGE, text) {
            Some(percent) => {
                return Some(Effect::Heal(PlayerTarget::Player, own_damage(percent)));
            },
            None => {},
        }
        if is_match(EFFECT_HEAL_FROM_DAMAGE_FULL, text) {
            return Some(Effect::Heal(PlayerTarget::Player, own_damage(100)));
        }
        match capture_u32(EFFECT_BURN_FROM_DAMAGE, text) {
            Some(percent) => {
                return Some(Effect::Burn(PlayerTarget::Opponent, own_damage(percent)));
            },
            None => {},
        }
        None
    }

    /// Reads one of the remaining phrases.
    fn read_fixed(text: &str) -> (effect: Option<Effect>)
        ensures
            match effect {
                Some(read) => fixed_effect(text@) == Some(read@),
                None => fixed_effect(text@) is None,
            },
    {
        match capture_u32(EFFECT_GAIN_GOLD, text) {
            Some(gold) => {
                return Some(Effect::GainGold(PlayerTarget::Player, DerivedValue::Constant(gold)));
            },
            None => {},
        }
        match capture_u32(EFFECT_THIS_GAINS_MAX_AMMO, text) {
            Some(amount) => {
                return Some(Effect::IncreaseMaxAmmo(own_card(), EffectValue::Flat(amount)));
            },
            None => {},
        }
        if is_match(EFFECT_UPGRADE_RANDOM_PIGGLE, text) {
            return Some(
                Effect::Upgrade(
                    Tier::Bronze,
                    CardTarget(1, TargetCondition::NameIncludes(owned("piggle"))),
                ),
            );
        }
        if same_text(text, "deal damage equal to double this item's value.") {
            return Some(Effect::DealDamage(PlayerTarget::Opponent, own_value(200)));
        }
        if same_text(text, "deal damage equal to this item's value.") {
            return Some(Effect::DealDamage(PlayerTarget::Opponent, own_value(100)));
        }
        if same_text(text, "destroy an item for the fight.") {
            return Some(
                Effect::Destroy(CardTarget(1, TargetCondition::HasOwner(PlayerTarget::Opponent))),
            );
        }
        if same_text(text, "gain 1 xp. if you had wanted poster in play, gain 1 additional xp.") {
            return Some(wanted_poster_experience());
        }
        None
    }

    /// Reads the effect that a phrase without white space at its ends
    /// stands for.
    pub fn from_phrase(text: &str) -> (effect: Effect)
        ensures
            effect@ == effect_of(text@),
        decreases text@.len(),
    {
        match Self::read_items(text) {
            Some(effect) => {
                return effect;
            },
            None => {},
        }
        match capture_u32(EFFECT_POISON_SELF, text) {
            Some(poison) => {
                return Effect::Poison(PlayerTarget::Player, DerivedValue::Constant(poison));
            },
            None => {},
        }
        match capture_u32(EFFECT_GAIN_PERMANENT_MAX_HP, text) {
            Some(health) => {
                return Effect::PermanentMaxHealthIncrease(DerivedValue::Constant(health));
            },
            None => {},
        }
        let spend = captures(EFFECT_SPEND_GOLD_FOR_EFFECT, text);
        match (group(&spend, 1), group(&spend, 2)) {
            (Some(gold_text), Some(inner_text)) => {
                match parse_u32(gold_text) {
                    Some(gold) => {
                        let inner = trim(inner_text);
                        let effect = if inner.unicode_len() < text.unicode_len() {
                            Self::from_phrase(inner)
                        } else {
                            Effect::Raw(owned(inner))
                        };
                        return Effect::SpendGoldForEffect(gold, Box::new(effect));
                    },
                    None => {},
                }
            },
            _ => {},
        }
        match Self::read_scaled(text) {
            Some(effect) => {
                return effect;
            },
            None => {},
        }
        match Self::read_fixed(text) {
            Some(effect) => {
                return effect;
            },
            None => {},
        }
        Effect::Raw(owned(text))
    }

    /// Reads an effect from the words of a tooltip, in lower case. White
    /// space at the ends of the words is dropped; words that are not
    /// understood are kept as a raw effect.
    pub fn from_tooltip_str(tooltip: &str) -> (effect: Effect)
        ensures
            effect@ == effect_of(trimmed(tooltip@)),
    {
        Self::from_phrase(trim(tooltip))
    }
}

} // verus!
