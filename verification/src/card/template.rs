//! Declarative description of a card, and how a card is built from it.

use crate::card::base_card::{Card, CardView};
use crate::card::id::GlobalCardId;
use crate::card::modification::{copy_tooltips, CardModification};
use crate::catalog::{found, Catalog};
use crate::models::card::Card as CardDefinition;
use crate::models::tier::Tier;
use crate::models::tooltip::base::Tooltip;
use crate::models::tooltip::effect::Effect;
use crate::models::tooltip::effect_event::EffectEvent;
use crate::models::tooltip::modifier::Modifier;
use crate::models::tooltip::player_target::PlayerTarget;
use crate::shared::share;
use crate::tick::{millis_to_ticks, GameTicks};
use std::sync::Arc;
use vstd::prelude::*;

verus! {

/// A card of a template: the name under which the catalog knows it, the tier
/// it is played at, and what was changed on it.
#[derive(Debug, PartialEq, Eq)]
pub struct CardTemplate {
    pub name: String,
    pub tier: Tier,
    pub modifications: Arc<Vec<CardModification>>,
}

impl Clone for CardTemplate {
    fn clone(&self) -> (copy: Self)
        ensures
            copy == *self,
    {
        CardTemplate {
            name: self.name.clone(),
            tier: self.tier,
            modifications: share(&self.modifications),
        }
    }
}

/// Why a card could not be built.
#[derive(Debug, PartialEq, Eq)]
pub enum CardError {
    /// The catalog has no card of this name.
    UnknownCard(String),
    /// The card has no tooltip at this tier.
    NoTooltips(String, Tier),
}

/// The tooltips that the modifications add to a card, in the order of the
/// modifications.
pub open spec fn modification_tooltips(modifications: Seq<CardModification>, card: CardDefinition) -> Seq<
    Tooltip,
>
    decreases modifications.len(),
{
    if modifications.len() == 0 {
        Seq::empty()
    } else {
        modification_tooltips(modifications.drop_last(), card)
            + modifications.last().derived_tooltips(card)
    }
}

/// The effects among the tooltips that fire on cooldown, in order.
pub open spec fn cooldown_effects_of(tooltips: Seq<Tooltip>) -> Seq<Effect>
    decreases tooltips.len(),
{
    if tooltips.len() == 0 {
        Seq::empty()
    } else {
        match tooltips.last() {
            Tooltip::When(EffectEvent::OnCooldown(effect)) => cooldown_effects_of(
                tooltips.drop_last(),
            ).push(effect),
            _ => cooldown_effects_of(tooltips.drop_last()),
        }
    }
}

/// The cooldown in milliseconds that the first cooldown modifier among the
/// tooltips gives; zero where there is none.
pub open spec fn cooldown_millis_of(tooltips: Seq<Tooltip>) -> u64
    decreases tooltips.len(),
{
    if tooltips.len() == 0 {
        0
    } else {
        match tooltips.first() {
            Tooltip::StaticModifier(Modifier::Cooldown(millis)) => millis,
            _ => cooldown_millis_of(tooltips.drop_first()),
        }
    }
}

impl CardTemplate {
    /// The tooltips in force on a card built from this template: those of
    /// the definition at the tier of the template, then those that the
    /// modifications add.
    pub open spec fn active_tooltips(self, card: CardDefinition) -> Seq<Tooltip> {
        self.tier.selected(card.tiers)@ + modification_tooltips(self.modifications@, card)
    }

    /// Why no card can be built from this template, if none can.
    pub open spec fn failure(self, catalog: Seq<CardDefinition>) -> Option<CardError> {
        match found(catalog, self.name@) {
            None => Some(CardError::UnknownCard(self.name)),
            Some(card) => if self.tier.selected(card.tiers)@.len() == 0 {
                Some(CardError::NoTooltips(self.name, self.tier))
            } else {
                None
            },
        }
    }

    /// The card built from this template and the definition `card`: at rest,
    /// under no status, with the cooldown and the cooldown effects that its
    /// tooltips give.
    pub open spec fn built(
        self,
        card: CardDefinition,
        position: u8,
        owner: PlayerTarget,
        id: GlobalCardId,
    ) -> CardView {
        CardView {
            id_for_simulation: id,
            inner: card,
            tier: self.tier,
            cooldown_effects: cooldown_effects_of(self.active_tooltips(card)),
            cooldown_counter: 0,
            freeze_ticks: GameTicks(0),
            slow_ticks: GameTicks(0),
            haste_ticks: GameTicks(0),
            position,
            owner,
            cooldown: GameTicks(
                millis_to_ticks(cooldown_millis_of(self.active_tooltips(card)) as int) as u64,
            ),
            modification_tooltips: modification_tooltips(self.modifications@, card),
        }
    }

    /// The tooltips that the modifications of the template add to a card.
    fn added_tooltips(&self, card: &CardDefinition) -> (tooltips: Vec<Tooltip>)
        ensures
            tooltips@ == modification_tooltips(self.modifications@, *card),
    {
        let mut tooltips: Vec<Tooltip> = Vec::new();
        let mut i: usize = 0;
        while i < self.modifications.len()
            invariant
                i <= self.modifications@.len(),
                tooltips@ == modification_tooltips(self.modifications@.take(i as int), *card),
            decreases self.modifications@.len() - i,
        {
            assert(self.modifications@.take(i as int + 1).drop_last()
                =~= self.modifications@.take(i as int));
            let mut derived = self.modifications[i].derive_tooltips(card);
            tooltips.append(&mut derived);
            i = i + 1;
        }
        assert(self.modifications@.take(i as int) =~= self.modifications@);
        tooltips
    }

    /// Builds the card of this template on the board: at `position`, owned
    /// by `owner`, under the identifier `id`. Fails where the catalog does
    /// not know the card, and where the card has no tooltip at the tier of
    /// the template.
    pub fn create_card_on_board(
        &self,
        catalog: &Catalog,
        position: u8,
        owner: PlayerTarget,
        id: GlobalCardId,
    ) -> (card: Result<Card, CardError>)
        ensures
            match self.failure(catalog@) {
                Some(error) => card == Err::<Card, CardError>(error),
                None => card matches Ok(built) && built@ == self.built(
                    found(catalog@, self.name@)->0,
                    position,
                    owner,
                    id,
                ),
            },
    {
        let definition = match catalog.get(self.name.as_str()) {
            Some(definition) => definition,
            None => {
                return Err(CardError::UnknownCard(self.name.clone()));
            },
        };
        let tier_tooltips: &Arc<Vec<Tooltip>> = self.tier.select(&definition.tiers);
        if tier_tooltips.len() == 0 {
            return Err(CardError::NoTooltips(self.name.clone(), self.tier));
        }
        let added = self.added_tooltips(definition);
        let mut tooltips = copy_tooltips(tier_tooltips);
        let mut added_again = copy_tooltips(&added);
        tooltips.append(&mut added_again);
        assert(tooltips@ =~= self.active_tooltips(*definition));
        let mut cooldown_effects: Vec<Effect> = Vec::new();
        let mut i: usize = 0;
        while i < tooltips.len()
            invariant
                i <= tooltips@.len(),
                cooldown_effects@ == cooldown_effects_of(tooltips@.take(i as int)),
            decreases tooltips@.len() - i,
        {
            assert(tooltips@.take(i as int + 1).drop_last() =~= tooltips@.take(i as int));
            match &tooltips[i] {
                Tooltip::When(EffectEvent::OnCooldown(effect)) => {
                    cooldown_effects.push(effect.clone());
                },
                _ => {},
            }
            i = i + 1;
        }
        assert(tooltips@.take(i as int) =~= tooltips@);
        let mut cooldown_millis: u64 = 0;
        let mut j: usize = 0;
        assert(tooltips@.skip(0) =~= tooltips@);
        while j < tooltips.len()
            invariant_except_break
                j <= tooltips@.len(),
                cooldown_millis == 0,
                cooldown_millis_of(tooltips@) == cooldown_millis_of(tooltips@.skip(j as int)),
            ensures
                cooldown_millis == cooldown_millis_of(tooltips@),
            decreases tooltips@.len() - j,
        {
            assert(tooltips@.skip(j as int).drop_first() =~= tooltips@.skip(j as int + 1));
            assert(tooltips@.skip(j as int).first() == tooltips@[j as int]);
            match &tooltips[j] {
                Tooltip::StaticModifier(Modifier::Cooldown(millis)) => {
                    cooldown_millis = *millis;
                    break ;
                },
                _ => {},
            }
            j = j + 1;
        }
        Ok(
            Card {
                id_for_simulation: id,
                inner: definition.clone(),
                tier: self.tier,
                cooldown_effects: Arc::new(cooldown_effects),
                cooldown_counter: 0,
                freeze_ticks: GameTicks(0),
                slow_ticks: GameTicks(0),
                haste_ticks: GameTicks(0),
                position,
                owner,
                cooldown: GameTicks::from_millis(cooldown_millis),
                modification_tooltips: Arc::new(added),
            },
        )
    }
}

} // verus!
