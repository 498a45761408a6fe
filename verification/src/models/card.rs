//! Card definitions: what the catalog knows of an item.

use crate::models::enchant::CardEnchantment;
use crate::models::pack_id::PackId;
use crate::models::size::Size;
use crate::models::tag::{Hero, Tag};
use crate::models::tier::{Tier, TieredValue};
use crate::models::tooltip::base::Tooltip;
use crate::shared::share;
use std::sync::Arc;
use vstd::prelude::*;

verus! {

/// A fight in which a card appears.
#[derive(Debug, PartialEq, Eq)]
pub struct CardCombatEncounter {
    pub id: String,
    pub name: String,
}

/// The definition of an item. It is immutable; the cards of a simulation
/// share its lists.
#[derive(Debug, PartialEq, Eq)]
pub struct Card {
    pub id: String,
    pub name: String,
    pub starting_tier: Tier,
    pub tiers: TieredValue<Arc<Vec<Tooltip>>>,
    pub tags: Arc<Vec<Tag>>,
    pub hidden_tags: Arc<Vec<Tag>>,
    pub custom_tags: Arc<Vec<Tag>>,
    pub size: Size,
    pub heroes: Arc<Vec<Hero>>,
    pub enchantments: Arc<Vec<CardEnchantment>>,
    pub unified_tooltips: Arc<Vec<String>>,
    pub pack_id: PackId,
    pub combat_encounters: Arc<Vec<CardCombatEncounter>>,
}

/// A card definition at a given tier.
#[derive(Debug, PartialEq, Eq)]
pub struct TieredCard {
    pub card: Card,
    pub tier: Tier,
}

impl Clone for Card {
    fn clone(&self) -> (copy: Self)
        ensures
            copy == *self,
    {
        Card {
            id: self.id.clone(),
            name: self.name.clone(),
            starting_tier: self.starting_tier,
            tiers: TieredValue {
                bronze: share(&self.tiers.bronze),
                silver: share(&self.tiers.silver),
                gold: share(&self.tiers.gold),
                diamond: share(&self.tiers.diamond),
                legendary: share(&self.tiers.legendary),
            },
            tags: share(&self.tags),
            hidden_tags: share(&self.hidden_tags),
            custom_tags: share(&self.custom_tags),
            size: self.size,
            heroes: share(&self.heroes),
            enchantments: share(&self.enchantments),
            unified_tooltips: share(&self.unified_tooltips),
            pack_id: self.pack_id,
            combat_encounters: share(&self.combat_encounters),
        }
    }
}

impl Clone for TieredCard {
    fn clone(&self) -> (copy: Self)
        ensures
            copy == *self,
    {
        TieredCard { card: self.card.clone(), tier: self.tier }
    }
}

impl Card {
    /// Whether the card has tooltips at `tier`.
    pub open spec fn has_tier(self, tier: Tier) -> bool {
        tier.selected(self.tiers)@.len() > 0
    }

    /// Whether the card has tooltips at some tier.
    pub open spec fn has_some_tier(self) -> bool {
        self.has_tier(Tier::Bronze) || self.has_tier(Tier::Silver) || self.has_tier(Tier::Gold)
            || self.has_tier(Tier::Diamond) || self.has_tier(Tier::Legendary)
    }

    /// The rank of a tier, bronze being the lowest.
    pub open spec fn rank(tier: Tier) -> int {
        match tier {
            Tier::Bronze => 0,
            Tier::Silver => 1,
            Tier::Gold => 2,
            Tier::Diamond => 3,
            Tier::Legendary => 4,
        }
    }

    /// The tier of rank `rank`; legendary above the scale.
    pub open spec fn tier_of_rank(rank: int) -> Tier {
        if rank <= 0 {
            Tier::Bronze
        } else if rank == 1 {
            Tier::Silver
        } else if rank == 2 {
            Tier::Gold
        } else if rank == 3 {
            Tier::Diamond
        } else {
            Tier::Legendary
        }
    }

    /// The lowest tier at which the card has tooltips.
    pub fn min_tier(&self) -> (tier: Tier)
        requires
            self.has_some_tier(),
        ensures
            self.has_tier(tier),
            forall|other: Tier| self.has_tier(other) ==> Self::rank(tier) <= Self::rank(other),
    {
        if self.tiers.bronze.len() > 0 {
            return Tier::Bronze;
        }
        if self.tiers.silver.len() > 0 {
            return Tier::Silver;
        }
        if self.tiers.gold.len() > 0 {
            return Tier::Gold;
        }
        if self.tiers.diamond.len() > 0 {
            return Tier::Diamond;
        }
        Tier::Legendary
    }

    /// The highest tier at which the card has tooltips.
    pub fn max_tier(&self) -> (tier: Tier)
        requires
            self.has_some_tier(),
        ensures
            self.has_tier(tier),
            forall|other: Tier| self.has_tier(other) ==> Self::rank(other) <= Self::rank(tier),
    {
        if self.tiers.legendary.len() > 0 {
            return Tier::Legendary;
        }
        if self.tiers.diamond.len() > 0 {
            return Tier::Diamond;
        }
        if self.tiers.gold.len() > 0 {
            return Tier::Gold;
        }
        if self.tiers.silver.len() > 0 {
            return Tier::Silver;
        }
        Tier::Bronze
    }

    /// The tiers of rank below `bound` at which the card has tooltips, lowest first.
    pub open spec fn tiers_below(self, bound: int) -> Seq<Tier>
        decreases bound,
    {
        if bound <= 0 {
            Seq::empty()
        } else if self.has_tier(Self::tier_of_rank(bound - 1)) {
            self.tiers_below(bound - 1).push(Self::tier_of_rank(bound - 1))
        } else {
            self.tiers_below(bound - 1)
        }
    }

    /// The tiers at which the card has tooltips, lowest first.
    pub fn available_tiers(&self) -> (tiers: Vec<Tier>)
        ensures
            tiers@ == self.tiers_below(5),
    {
        let mut tier_range: Vec<Tier> = Vec::with_capacity(5);
        proof {
            reveal_with_fuel(Card::tiers_below, 6);
        }
        if self.tiers.bronze.len() > 0 {
            tier_range.push(Tier::Bronze);
        }
        if self.tiers.silver.len() > 0 {
            tier_range.push(Tier::Silver);
        }
        if self.tiers.gold.len() > 0 {
            tier_range.push(Tier::Gold);
        }
        if self.tiers.diamond.len() > 0 {
            tier_range.push(Tier::Diamond);
        }
        if self.tiers.legendary.len() > 0 {
            tier_range.push(Tier::Legendary);
        }
        tier_range
    }
}

} // verus!
