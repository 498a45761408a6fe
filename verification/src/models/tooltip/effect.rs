//! Effects: what an item does when it fires.

use crate::models::tier::Tier;
use crate::models::tooltip::card_target::{CardTarget, CardTargetView};
use crate::models::tooltip::effect_value::EffectValue;
use crate::models::tooltip::obtained_item::{ObtainedEffectItem, ObtainedItemView};
use crate::models::tooltip::player_target::PlayerTarget;
use crate::shared::share;
use crate::text::owned;
use std::sync::Arc;
use vstd::prelude::*;

verus! {

/// A property of a card from which a value can be derived.
#[derive(Clone, Copy, Debug, PartialEq, Eq, Structural)]
pub enum CardDerivedProperty {
    Value,
    Damage,
}

/// A property of a player from which a value can be derived.
#[derive(Clone, Copy, Debug, PartialEq, Eq, Structural)]
pub enum PlayerDerivedProperty {
    MaximumHealth,
    CurrentHealth,
}

/// A value that is either given or resolved, when the event is applied, from
/// the cards or players it refers to. The last field of the derived forms is
/// the multiplier in percent: 100 takes the property as it is.
#[derive(Debug, PartialEq, Eq)]
pub enum DerivedValue<T> {
    Constant(T),
    FromCard(CardTarget, CardDerivedProperty, u32),
    FromPlayer(CardTarget, PlayerDerivedProperty, u32),
}

/// What a derived value says.
pub enum DerivedValueView {
    Constant(u32),
    FromCard(CardTargetView, CardDerivedProperty, u32),
    FromPlayer(CardTargetView, PlayerDerivedProperty, u32),
}

impl View for DerivedValue<u32> {
    type V = DerivedValueView;

    open spec fn view(&self) -> DerivedValueView {
        match *self {
            DerivedValue::Constant(amount) => DerivedValueView::Constant(amount),
            DerivedValue::FromCard(target, property, percent) => DerivedValueView::FromCard(
                target@,
                property,
                percent,
            ),
            DerivedValue::FromPlayer(target, property, percent) => DerivedValueView::FromPlayer(
                target@,
                property,
                percent,
            ),
        }
    }
}

impl<T: Copy> Clone for DerivedValue<T> {
    fn clone(&self) -> (copy: Self)
        ensures
            copy == *self,
    {
        match self {
            DerivedValue::Constant(value) => DerivedValue::Constant(*value),
            DerivedValue::FromCard(target, property, percent) => DerivedValue::FromCard(
                target.clone(),
                *property,
                *percent,
            ),
            DerivedValue::FromPlayer(target, property, percent) => DerivedValue::FromPlayer(
                target.clone(),
                *property,
                *percent,
            ),
        }
    }
}

/// What an item does. Durations are in milliseconds.
#[derive(Debug, PartialEq, Eq)]
pub enum Effect {
    Raw(String),
    Use(CardTarget),
    GainShield(CardTarget, EffectValue<u64>),
    CooldownReduction(CardTarget, EffectValue<u64>),
    IncreaseDamage(CardTarget, EffectValue<u32>),
    Freeze(CardTarget, u64),
    Slow(CardTarget, u64),
    Haste(CardTarget, u64),
    Reload(CardTarget, u32),
    DamageImmunity(u64),
    Charge(CardTarget, u64),
    Destroy(CardTarget),
    Burn(PlayerTarget, DerivedValue<u32>),
    Heal(PlayerTarget, DerivedValue<u32>),
    Shield(PlayerTarget, DerivedValue<u32>),
    Regen(PlayerTarget, DerivedValue<u32>),
    Poison(PlayerTarget, DerivedValue<u32>),
    GainGold(PlayerTarget, DerivedValue<u32>),
    DealDamage(PlayerTarget, DerivedValue<u32>),
    UseCard(CardTarget),
    Upgrade(Tier, CardTarget),
    PermanentMaxHealthIncrease(DerivedValue<u32>),
    IncreaseMaxAmmo(CardTarget, EffectValue<u32>),
    ObtainItem(Arc<Vec<ObtainedEffectItem>>),
    SpendGoldForEffect(u32, Box<Effect>),
    GainXp(PlayerTarget, u32),
    ConditionalMatchItem(CardTarget, Box<Effect>),
    MultiEffect(Arc<Vec<Effect>>),
}

/// What an effect says, with its texts and lists as sequences.
pub enum EffectView {
    Raw(Seq<char>),
    Use(CardTargetView),
    GainShield(CardTargetView, EffectValue<u64>),
    CooldownReduction(CardTargetView, EffectValue<u64>),
    IncreaseDamage(CardTargetView, EffectValue<u32>),
    Freeze(CardTargetView, u64),
    Slow(CardTargetView, u64),
    Haste(CardTargetView, u64),
    Reload(CardTargetView, u32),
    DamageImmunity(u64),
    Charge(CardTargetView, u64),
    Destroy(CardTargetView),
    Burn(PlayerTarget, DerivedValueView),
    Heal(PlayerTarget, DerivedValueView),
    Shield(PlayerTarget, DerivedValueView),
    Regen(PlayerTarget, DerivedValueView),
    Poison(PlayerTarget, DerivedValueView),
    GainGold(PlayerTarget, DerivedValueView),
    DealDamage(PlayerTarget, DerivedValueView),
    UseCard(CardTargetView),
    Upgrade(Tier, CardTargetView),
    PermanentMaxHealthIncrease(DerivedValueView),
    IncreaseMaxAmmo(CardTargetView, EffectValue<u32>),
    ObtainItem(Seq<ObtainedItemView>),
    SpendGoldForEffect(u32, Box<EffectView>),
    GainXp(PlayerTarget, u32),
    ConditionalMatchItem(CardTargetView, Box<EffectView>),
    MultiEffect(Seq<EffectView>),
}

impl View for Effect {
    type V = EffectView;

    open spec fn view(&self) -> EffectView {
        self.said()
    }
}

impl Clone for Effect {
    fn clone(&self) -> (copy: Self)
        ensures
            copy == *self,
        decreases self,
    {
        match self {
            Effect::Raw(text) => Effect::Raw(text.clone()),
            Effect::Use(target) => Effect::Use(target.clone()),
            Effect::GainShield(target, value) => Effect::GainShield(target.clone(), *value),
            Effect::CooldownReduction(target, value) => Effect::CooldownReduction(
                target.clone(),
                *value,
            ),
            Effect::IncreaseDamage(target, value) => Effect::IncreaseDamage(target.clone(), *value),
            Effect::Freeze(target, millis) => Effect::Freeze(target.clone(), *millis),
            Effect::Slow(target, millis) => Effect::Slow(target.clone(), *millis),
            Effect::Haste(target, millis) => Effect::Haste(target.clone(), *millis),
            Effect::Reload(target, amount) => Effect::Reload(target.clone(), *amount),
            Effect::DamageImmunity(millis) => Effect::DamageImmunity(*millis),
            Effect::Charge(target, millis) => Effect::Charge(target.clone(), *millis),
            Effect::Destroy(target) => Effect::Destroy(target.clone()),
            Effect::Burn(player, value) => Effect::Burn(*player, value.clone()),
            Effect::Heal(player, value) => Effect::Heal(*player, value.clone()),
            Effect::Shield(player, value) => Effect::Shield(*player, value.clone()),
            Effect::Regen(player, value) => Effect::Regen(*player, value.clone()),
            Effect::Poison(player, value) => Effect::Poison(*player, value.clone()),
            Effect::GainGold(player, value) => Effect::GainGold(*player, value.clone()),
            Effect::DealDamage(player, value) => Effect::DealDamage(*player, value.clone()),
            Effect::UseCard(target) => Effect::UseCard(target.clone()),
            Effect::Upgrade(tier, target) => Effect::Upgrade(*tier, target.clone()),
            Effect::PermanentMaxHealthIncrease(value) => Effect::PermanentMaxHealthIncrease(
                value.clone(),
            ),
            Effect::IncreaseMaxAmmo(target, value) => Effect::IncreaseMaxAmmo(
                target.clone(),
                *value,
            ),
            Effect::ObtainItem(items) => Effect::ObtainItem(share(items)),
            Effect::SpendGoldForEffect(gold, effect) => Effect::SpendGoldForEffect(
                *gold,
                Box::new((&**effect).clone()),
            ),
            Effect::GainXp(player, amount) => Effect::GainXp(*player, *amount),
            Effect::ConditionalMatchItem(target, effect) => Effect::ConditionalMatchItem(
                target.clone(),
                Box::new((&**effect).clone()),
            ),
            Effect::MultiEffect(effects) => Effect::MultiEffect(share(effects)),
        }
    }
}

impl Effect {
    /// What the effect says.
    pub open spec fn said(self) -> EffectView
        decreases self,
    {
        match self {
            Effect::Raw(a) => EffectView::Raw(a@),
            Effect::Use(a) => EffectView::Use(a@),
            Effect::GainShield(a, b) => EffectView::GainShield(a@, b),
            Effect::CooldownReduction(a, b) => EffectView::CooldownReduction(a@, b),
            Effect::IncreaseDamage(a, b) => EffectView::IncreaseDamage(a@, b),
            Effect::Freeze(a, b) => EffectView::Freeze(a@, b),
            Effect::Slow(a, b) => EffectView::Slow(a@, b),
            Effect::Haste(a, b) => EffectView::Haste(a@, b),
            Effect::Reload(a, b) => EffectView::Reload(a@, b),
            Effect::DamageImmunity(a) => EffectView::DamageImmunity(a),
            Effect::Charge(a, b) => EffectView::Charge(a@, b),
            Effect::Destroy(a) => EffectView::Destroy(a@),
            Effect::Burn(a, b) => EffectView::Burn(a, b@),
            Effect::Heal(a, b) => EffectView::Heal(a, b@),
            Effect::Shield(a, b) => EffectView::Shield(a, b@),
            Effect::Regen(a, b) => EffectView::Regen(a, b@),
            Effect::Poison(a, b) => EffectView::Poison(a, b@),
            Effect::GainGold(a, b) => EffectView::GainGold(a, b@),
            Effect::DealDamage(a, b) => EffectView::DealDamage(a, b@),
            Effect::UseCard(a) => EffectView::UseCard(a@),
            Effect::Upgrade(a, b) => EffectView::Upgrade(a, b@),
            Effect::PermanentMaxHealthIncrease(a) => EffectView::PermanentMaxHealthIncrease(a@),
            Effect::IncreaseMaxAmmo(a, b) => EffectView::IncreaseMaxAmmo(a@, b),
            Effect::ObtainItem(a) => EffectView::ObtainItem(Seq::new(a@.len(), |i: int| a@[i]@)),
            Effect::SpendGoldForEffect(a, b) => EffectView::SpendGoldForEffect(a, Box::new(b.said())),
            Effect::GainXp(a, b) => EffectView::GainXp(a, b),
            Effect::ConditionalMatchItem(a, b) => EffectView::ConditionalMatchItem(a@, Box::new(b.said())),
            Effect::MultiEffect(a) => EffectView::MultiEffect(Seq::new(
                    a@.len(),
                    |i: int|
                        if 0 <= i < a@.len() {
                            a@[i].said()
                        } else {
                            EffectView::Raw(Seq::empty())
                        },
                )),
        }
    }

    /// The text by which an effect is reported where it cannot be applied:
    /// the text of a raw effect, else the name of the kind of effect.
    pub open spec fn label_text(self) -> Seq<char> {
        match self {
            Effect::Raw(text) => text@,
            Effect::Use(_) => "Use"@,
            Effect::GainShield(_, _) => "GainShield"@,
            Effect::CooldownReduction(_, _) => "CooldownReduction"@,
            Effect::IncreaseDamage(_, _) => "IncreaseDamage"@,
            Effect::Freeze(_, _) => "Freeze"@,
            Effect::Slow(_, _) => "Slow"@,
            Effect::Haste(_, _) => "Haste"@,
            Effect::Reload(_, _) => "Reload"@,
            Effect::DamageImmunity(_) => "DamageImmunity"@,
            Effect::Charge(_, _) => "Charge"@,
            Effect::Destroy(_) => "Destroy"@,
            Effect::Burn(_, _) => "Burn"@,
            Effect::Heal(_, _) => "Heal"@,
            Effect::Shield(_, _) => "Shield"@,
            Effect::Regen(_, _) => "Regen"@,
            Effect::Poison(_, _) => "Poison"@,
            Effect::GainGold(_, _) => "GainGold"@,
            Effect::DealDamage(_, _) => "DealDamage"@,
            Effect::UseCard(_) => "UseCard"@,
            Effect::Upgrade(_, _) => "Upgrade"@,
            Effect::PermanentMaxHealthIncrease(_) => "PermanentMaxHealthIncrease"@,
            Effect::IncreaseMaxAmmo(_, _) => "IncreaseMaxAmmo"@,
            Effect::ObtainItem(_) => "ObtainItem"@,
            Effect::SpendGoldForEffect(_, _) => "SpendGoldForEffect"@,
            Effect::GainXp(_, _) => "GainXp"@,
            Effect::ConditionalMatchItem(_, _) => "ConditionalMatchItem"@,
            Effect::MultiEffect(_) => "MultiEffect"@,
        }
    }

    /// The text by which the effect is reported where it cannot be applied.
    pub fn label(&self) -> (label: String)
        ensures
            label@ == self.label_text(),
    {
        match self {
            Effect::Raw(text) => text.clone(),
            Effect::Use(_) => owned("Use"),
            Effect::GainShield(_, _) => owned("GainShield"),
            Effect::CooldownReduction(_, _) => owned("CooldownReduction"),
            Effect::IncreaseDamage(_, _) => owned("IncreaseDamage"),
            Effect::Freeze(_, _) => owned("Freeze"),
            Effect::Slow(_, _) => owned("Slow"),
            Effect::Haste(_, _) => owned("Haste"),
            Effect::Reload(_, _) => owned("Reload"),
            Effect::DamageImmunity(_) => owned("DamageImmunity"),
            Effect::Charge(_, _) => owned("Charge"),
            Effect::Destroy(_) => owned("Destroy"),
            Effect::Burn(_, _) => owned("Burn"),
            Effect::Heal(_, _) => owned("Heal"),
            Effect::Shield(_, _) => owned("Shield"),
            Effect::Regen(_, _) => owned("Regen"),
            Effect::Poison(_, _) => owned("Poison"),
            Effect::GainGold(_, _) => owned("GainGold"),
            Effect::DealDamage(_, _) => owned("DealDamage"),
            Effect::UseCard(_) => owned("UseCard"),
            Effect::Upgrade(_, _) => owned("Upgrade"),
            Effect::PermanentMaxHealthIncrease(_) => owned("PermanentMaxHealthIncrease"),
            Effect::IncreaseMaxAmmo(_, _) => owned("IncreaseMaxAmmo"),
            Effect::ObtainItem(_) => owned("ObtainItem"),
            Effect::SpendGoldForEffect(_, _) => owned("SpendGoldForEffect"),
            Effect::GainXp(_, _) => owned("GainXp"),
            Effect::ConditionalMatchItem(_, _) => owned("ConditionalMatchItem"),
            Effect::MultiEffect(_) => owned("MultiEffect"),
        }
    }
}

} // verus!
