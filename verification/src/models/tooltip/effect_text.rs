//! Effects, effect events and tooltips as source text.

use crate::models::enchant::CardEnchantment;
use crate::models::tooltip::base::Tooltip;
use crate::models::tooltip::effect::Effect;
use crate::models::tooltip::effect_event::EffectEvent;
use crate::models::tooltip::source_text::{items_text, items_to_source};
use crate::text::{decimal, decimal_text, owned, quote, quoted};
use std::sync::Arc;
use vstd::prelude::*;

verus! {

/// The first `n` effects of a list as source text, set apart by commas.
pub open spec fn effects_text(effects: Seq<Effect>, n: int) -> Seq<char>
    decreases effects, n,
{
    if n <= 0 || n > effects.len() {
        Seq::empty()
    } else if n == 1 {
        effects[0].source_text()
    } else {
        effects_text(effects, n - 1) + ","@ + effects[n - 1].source_text()
    }
}

/// Writes a list of effects as source text.
pub fn effects_to_source(effects: &Vec<Effect>) -> (text: String)
    ensures
        text@ == effects_text(effects@, effects@.len() as int),
    decreases effects, 1int,
{
    let mut text = String::new();
    let mut i: usize = 0;
    while i < effects.len()
        invariant
            i <= effects@.len(),
            text@ == effects_text(effects@, i as int),
        decreases effects@.len() - i,
    {
        if i > 0 {
            text.append(",");
        }
        text.append(effects[i].to_source().as_str());
        assert(text@ =~= effects_text(effects@, i as int + 1));
        i = i + 1;
    }
    text
}

impl Effect {
    /// The effect as source text.
    pub open spec fn source_text(self) -> Seq<char>
        decreases self, 0int,
    {
        match self {
            Effect::Raw(text) => "Effect::Raw("@ + quoted(text@) + ".to_string())"@,
            Effect::Use(target) => "Effect::Use("@ + target.source_text() + ")"@,
            Effect::GainShield(target, value) => "Effect::GainShield("@ + target.source_text() + ", "@ + value.source_text() + ")"@,
            Effect::CooldownReduction(target, value) => "Effect::CooldownReduction("@ + target.source_text() + ", "@ + value.source_text() + ")"@,
            Effect::IncreaseDamage(target, value) => "Effect::IncreaseDamage("@ + target.source_text() + ", "@ + value.source_text() + ")"@,
            Effect::Freeze(target, millis) => "Effect::Freeze("@ + target.source_text() + ", "@ + decimal_text(millis as nat) + ")"@,
            Effect::Slow(target, millis) => "Effect::Slow("@ + target.source_text() + ", "@ + decimal_text(millis as nat) + ")"@,
            Effect::Haste(target, millis) => "Effect::Haste("@ + target.source_text() + ", "@ + decimal_text(millis as nat) + ")"@,
            Effect::Reload(target, amount) => "Effect::Reload("@ + target.source_text() + ", "@ + decimal_text(amount as nat) + ")"@,
            Effect::DamageImmunity(millis) => "Effect::DamageImmunity("@ + decimal_text(millis as nat) + ")"@,
            Effect::Charge(target, millis) => "Effect::Charge("@ + target.source_text() + ", "@ + decimal_text(millis as nat) + ")"@,
            Effect::Destroy(target) => "Effect::Destroy("@ + target.source_text() + ")"@,
            Effect::Burn(player, value) => "Effect::Burn("@ + player.source_text() + ", "@ + value.source_text() + ")"@,
            Effect::Heal(player, value) => "Effect::Heal("@ + player.source_text() + ", "@ + value.source_text() + ")"@,
            Effect::Shield(player, value) => "Effect::Shield("@ + player.source_text() + ", "@ + value.source_text() + ")"@,
            Effect::Regen(player, value) => "Effect::Regen("@ + player.source_text() + ", "@ + value.source_text() + ")"@,
            Effect::Poison(player, value) => "Effect::Poison("@ + player.source_text() + ", "@ + value.source_text() + ")"@,
            Effect::GainGold(player, value) => "Effect::GainGold("@ + player.source_text() + ", "@ + value.source_text() + ")"@,
            Effect::DealDamage(player, value) => "Effect::DealDamage("@ + player.source_text() + ", "@ + value.source_text() + ")"@,
            Effect::UseCard(target) => "Effect::UseCard("@ + target.source_text() + ")"@,
            Effect::Upgrade(tier, target) => "Effect::Upgrade("@ + "Tier::"@ + tier.name_text() + ", "@ + target.source_text() + ")"@,
            Effect::PermanentMaxHealthIncrease(value) => "Effect::PermanentMaxHealthIncrease("@ + value.source_text() + ")"@,
            Effect::IncreaseMaxAmmo(target, value) => "Effect::IncreaseMaxAmmo("@ + target.source_text() + ", "@ + value.source_text() + ")"@,
            Effect::ObtainItem(items) => "Effect::ObtainItem(Arc::new(vec!["@ + items_text(items@, items@.len() as int) + "]))"@,
            Effect::SpendGoldForEffect(gold, inner) => "Effect::SpendGoldForEffect("@ + decimal_text(gold as nat) + ", Box::new("@ + inner.source_text() + "))"@,
            Effect::GainXp(player, amount) => "Effect::GainXp("@ + player.source_text() + ", "@ + decimal_text(amount as nat) + ")"@,
            Effect::ConditionalMatchItem(target, inner) => "Effect::ConditionalMatchItem("@ + target.source_text() + ", Box::new("@ + inner.source_text() + "))"@,
            Effect::MultiEffect(effects) => "Effect::MultiEffect(Arc::new(vec!["@ + effects_text(effects@, effects@.len() as int) + "]))"@,
        }
    }

    /// Writes the effect as source text: an expression that evaluates to it.
    pub fn to_source(&self) -> (text: String)
        ensures
            text@ == self.source_text(),
        decreases self, 0int,
    {
        match self {
            Effect::Raw(text) => owned("Effect::Raw(").concat(quote(text.as_str()).as_str()).concat(".to_string())"),
            Effect::Use(target) => owned("Effect::Use(").concat(target.to_source().as_str()).concat(")"),
            Effect::GainShield(target, value) => owned("Effect::GainShield(").concat(target.to_source().as_str()).concat(", ").concat(value.to_source().as_str()).concat(")"),
            Effect::CooldownReduction(target, value) => owned("Effect::CooldownReduction(").concat(target.to_source().as_str()).concat(", ").concat(value.to_source().as_str()).concat(")"),
            Effect::IncreaseDamage(target, value) => owned("Effect::IncreaseDamage(").concat(target.to_source().as_str()).concat(", ").concat(value.to_source().as_str()).concat(")"),
            Effect::Freeze(target, millis) => owned("Effect::Freeze(").concat(target.to_source().as_str()).concat(", ").concat(decimal(*millis as u128).as_str()).concat(")"),
            Effect::Slow(target, millis) => owned("Effect::Slow(").concat(target.to_source().as_str()).concat(", ").concat(decimal(*millis as u128).as_str()).concat(")"),
            Effect::Haste(target, millis) => owned("Effect::Haste(").concat(target.to_source().as_str()).concat(", ").concat(decimal(*millis as u128).as_str()).concat(")"),
            Effect::Reload(target, amount) => owned("Effect::Reload(").concat(target.to_source().as_str()).concat(", ").concat(decimal(*amount as u128).as_str()).concat(")"),
            Effect::DamageImmunity(millis) => owned("Effect::DamageImmunity(").concat(decimal(*millis as u128).as_str()).concat(")"),
            Effect::Charge(target, millis) => owned("Effect::Charge(").concat(target.to_source().as_str()).concat(", ").concat(decimal(*millis as u128).as_str()).concat(")"),
            Effect::Destroy(target) => owned("Effect::Destroy(").concat(target.to_source().as_str()).concat(")"),
            Effect::Burn(player, value) => owned("Effect::Burn(").concat(player.to_source().as_str()).concat(", ").concat(value.to_source().as_str()).concat(")"),
            Effect::Heal(player, value) => owned("Effect::Heal(").concat(player.to_source().as_str()).concat(", ").concat(value.to_source().as_str()).concat(")"),
            Effect::Shield(player, value) => owned("Effect::Shield(").concat(player.to_source().as_str()).concat(", ").concat(value.to_source().as_str()).concat(")"),
            Effect::Regen(player, value) => owned("Effect::Regen(").concat(player.to_source().as_str()).concat(", ").concat(value.to_source().as_str()).concat(")"),
            Effect::Poison(player, value) => owned("Effect::Poison(").concat(player.to_source().as_str()).concat(", ").concat(value.to_source().as_str()).concat(")"),
            Effect::GainGold(player, value) => owned("Effect::GainGold(").concat(player.to_source().as_str()).concat(", ").concat(value.to_source().as_str()).concat(")"),
            Effect::DealDamage(player, value) => owned("Effect::DealDamage(").concat(player.to_source().as_str()).concat(", ").concat(value.to_source().as_str()).concat(")"),
            Effect::UseCard(target) => owned("Effect::UseCard(").concat(target.to_source().as_str()).concat(")"),
            Effect::Upgrade(tier, target) => owned("Effect::Upgrade(").concat("Tier::").concat(tier.name()).concat(", ").concat(target.to_source().as_str()).concat(")"),
            Effect::PermanentMaxHealthIncrease(value) => owned("Effect::PermanentMaxHealthIncrease(").concat(value.to_source().as_str()).concat(")"),
            Effect::IncreaseMaxAmmo(target, value) => owned("Effect::IncreaseMaxAmmo(").concat(target.to_source().as_str()).concat(", ").concat(value.to_source().as_str()).concat(")"),
            Effect::ObtainItem(items) => owned("Effect::ObtainItem(Arc::new(vec![").concat(items_to_source(items).as_str()).concat("]))"),
            Effect::SpendGoldForEffect(gold, inner) => owned("Effect::SpendGoldForEffect(").concat(decimal(*gold as u128).as_str()).concat(", Box::new(").concat(inner.to_source().as_str()).concat("))"),
            Effect::GainXp(player, amount) => owned("Effect::GainXp(").concat(player.to_source().as_str()).concat(", ").concat(decimal(*amount as u128).as_str()).concat(")"),
            Effect::ConditionalMatchItem(target, inner) => owned("Effect::ConditionalMatchItem(").concat(target.to_source().as_str()).concat(", Box::new(").concat(inner.to_source().as_str()).concat("))"),
            Effect::MultiEffect(effects) => owned("Effect::MultiEffect(Arc::new(vec![").concat(effects_to_source(effects).as_str()).concat("]))"),
        }
    }
}

impl EffectEvent {
    /// The effect event as source text.
    pub open spec fn source_text(self) -> Seq<char>
    {
        match self {
            EffectEvent::OnCooldown(effect) => "EffectEvent::OnCooldown("@ + effect.source_text() + ")"@,
            EffectEvent::OnCardTransformed(effect) => "EffectEvent::OnCardTransformed("@ + effect.source_text() + ")"@,
            EffectEvent::OnDayStart(effect) => "EffectEvent::OnDayStart("@ + effect.source_text() + ")"@,
            EffectEvent::OnWinVersusHero(effect) => "EffectEvent::OnWinVersusHero("@ + effect.source_text() + ")"@,
            EffectEvent::OnFightStart(effect) => "EffectEvent::OnFightStart("@ + effect.source_text() + ")"@,
            EffectEvent::OnCardSold(effect) => "EffectEvent::OnCardSold("@ + effect.source_text() + ")"@,
            EffectEvent::OnCardUsed(condition, effect) => "EffectEvent::OnCardUsed("@ + condition.source_text() + ", "@ + effect.source_text() + ")"@,
            EffectEvent::OnCrit(condition, effect) => "EffectEvent::OnCrit("@ + condition.source_text() + ", "@ + effect.source_text() + ")"@,
            EffectEvent::OnFirstTime(event, effect) => "EffectEvent::OnFirstTime("@ + event.source_text() + ", "@ + effect.source_text() + ")"@,
            EffectEvent::Raw(text) => "EffectEvent::Raw("@ + quoted(text@) + ".to_string())"@,
        }
    }

    /// Writes the value as source text: an expression that evaluates to it.
    pub fn to_source(&self) -> (text: String)
        ensures
            text@ == self.source_text(),
    {
        match self {
            EffectEvent::OnCooldown(effect) => owned("EffectEvent::OnCooldown(").concat(effect.to_source().as_str()).concat(")"),
            EffectEvent::OnCardTransformed(effect) => owned("EffectEvent::OnCardTransformed(").concat(effect.to_source().as_str()).concat(")"),
            EffectEvent::OnDayStart(effect) => owned("EffectEvent::OnDayStart(").concat(effect.to_source().as_str()).concat(")"),
            EffectEvent::OnWinVersusHero(effect) => owned("EffectEvent::OnWinVersusHero(").concat(effect.to_source().as_str()).concat(")"),
            EffectEvent::OnFightStart(effect) => owned("EffectEvent::OnFightStart(").concat(effect.to_source().as_str()).concat(")"),
            EffectEvent::OnCardSold(effect) => owned("EffectEvent::OnCardSold(").concat(effect.to_source().as_str()).concat(")"),
            EffectEvent::OnCardUsed(condition, effect) => owned("EffectEvent::OnCardUsed(").concat(condition.to_source().as_str()).concat(", ").concat(effect.to_source().as_str()).concat(")"),
            EffectEvent::OnCrit(condition, effect) => owned("EffectEvent::OnCrit(").concat(condition.to_source().as_str()).concat(", ").concat(effect.to_source().as_str()).concat(")"),
            EffectEvent::OnFirstTime(event, effect) => owned("EffectEvent::OnFirstTime(").concat(event.to_source().as_str()).concat(", ").concat(effect.to_source().as_str()).concat(")"),
            EffectEvent::Raw(text) => owned("EffectEvent::Raw(").concat(quote(text.as_str()).as_str()).concat(".to_string())"),
        }
    }
}

impl Tooltip {
    /// The tooltip as source text.
    pub open spec fn source_text(self) -> Seq<char>
        decreases self, 0int,
    {
        match self {
            Tooltip::Conditional(condition, tooltip) => "Tooltip::Conditional("@ + condition.source_text() + ", Box::new("@ + tooltip.source_text() + "))"@,
            Tooltip::When(event) => "Tooltip::When("@ + event.source_text() + ")"@,
            Tooltip::StaticModifier(modifier) => "Tooltip::StaticModifier("@ + modifier.source_text() + ")"@,
            Tooltip::ConditionalModifier(condition, modifier) => "Tooltip::ConditionalModifier("@ + condition.source_text() + ", "@ + modifier.source_text() + ")"@,
            Tooltip::SellsForGold => "Tooltip::SellsForGold"@,
            Tooltip::Raw(text) => "Tooltip::Raw("@ + quoted(text@) + ".to_string())"@,
        }
    }

    /// Writes the value as source text: an expression that evaluates to it.
    pub fn to_source(&self) -> (text: String)
        ensures
            text@ == self.source_text(),
        decreases self,
    {
        match self {
            Tooltip::Conditional(condition, tooltip) => owned("Tooltip::Conditional(").concat(condition.to_source().as_str()).concat(", Box::new(").concat(tooltip.to_source().as_str()).concat("))"),
            Tooltip::When(event) => owned("Tooltip::When(").concat(event.to_source().as_str()).concat(")"),
            Tooltip::StaticModifier(modifier) => owned("Tooltip::StaticModifier(").concat(modifier.to_source().as_str()).concat(")"),
            Tooltip::ConditionalModifier(condition, modifier) => owned("Tooltip::ConditionalModifier(").concat(condition.to_source().as_str()).concat(", ").concat(modifier.to_source().as_str()).concat(")"),
            Tooltip::SellsForGold => owned("Tooltip::SellsForGold"),
            Tooltip::Raw(text) => owned("Tooltip::Raw(").concat(quote(text.as_str()).as_str()).concat(".to_string())"),
        }
    }
}

/// The first `n` tooltips of a list as source text, set apart by a comma
/// and a space.
pub open spec fn tooltips_text(tooltips: Seq<Tooltip>, n: int) -> Seq<char>
    decreases n,
{
    if n <= 0 {
        Seq::empty()
    } else if n == 1 {
        tooltips[0].source_text()
    } else {
        tooltips_text(tooltips, n - 1) + ", "@ + tooltips[n - 1].source_text()
    }
}

/// Writes a list of tooltips as source text.
pub fn tooltips_to_source(tooltips: &Vec<Tooltip>) -> (text: String)
    ensures
        text@ == tooltips_text(tooltips@, tooltips@.len() as int),
{
    let mut text = String::new();
    let mut i: usize = 0;
    while i < tooltips.len()
        invariant
            i <= tooltips@.len(),
            text@ == tooltips_text(tooltips@, i as int),
        decreases tooltips@.len() - i,
    {
        if i > 0 {
            text.append(", ");
        }
        text.append(tooltips[i].to_source().as_str());
        assert(text@ =~= tooltips_text(tooltips@, i as int + 1));
        i = i + 1;
    }
    text
}

impl CardEnchantment {
    /// The enchantment as source text.
    pub open spec fn source_text(self) -> Seq<char> {
        "CardEnchantment::"@ + self.kind().name_text() + "(Arc::new(vec!["@ + tooltips_text(
            self.added()@,
            self.added()@.len() as int,
        ) + "]))"@
    }

    /// Writes the enchantment as source text: an expression that evaluates
    /// to it.
    pub fn to_source(&self) -> (text: String)
        ensures
            text@ == self.source_text(),
    {
        let kind = self.enchantment();
        let tooltips = self.tooltips();
        owned("CardEnchantment::").concat(kind.name()).concat("(Arc::new(vec![").concat(
            tooltips_to_source(&tooltips).as_str(),
        ).concat("]))")
    }
}

} // verus!
