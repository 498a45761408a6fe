//! Declarative description of a player.

use crate::card::id::GlobalCardId;
use crate::card::template::CardTemplate;
use crate::player::base_player::{Player, PlayerView};
use crate::player::health::PlayerHealth;
use crate::shared::share;
use std::sync::Arc;
use vstd::prelude::*;

verus! {

/// What a player starts a fight with.
#[derive(Debug, PartialEq, Eq)]
pub struct PlayerTemplate {
    pub health: u64,
    pub regen: i64,
    pub card_templates: Arc<Vec<CardTemplate>>,
    /// Reserved: skills take no part in the fight yet.
    pub skill_templates: Arc<Vec<CardTemplate>>,
}

impl Clone for PlayerTemplate {
    fn clone(&self) -> (copy: Self)
        ensures
            copy == *self,
    {
        PlayerTemplate {
            health: self.health,
            regen: self.regen,
            card_templates: share(&self.card_templates),
            skill_templates: share(&self.skill_templates),
        }
    }
}

impl PlayerTemplate {
    /// Whether the starting health can be held as current health.
    pub open spec fn health_fits(self) -> bool {
        self.health <= i64::MAX
    }

    /// The player at the start of the fight: full health, no stacks but the
    /// regeneration of the template, and the given cards.
    pub open spec fn fresh_player(self, card_ids: Seq<GlobalCardId>) -> PlayerView {
        PlayerView {
            health: PlayerHealth(self.health as i64, self.health),
            shield_stacks: 0,
            poison_stacks: 0,
            burn_stacks: 0,
            regeneration_stacks: self.regen,
            card_ids,
            dot_counter: 0,
        }
    }

    /// Creates the player. Fails exactly when the health exceeds `i64::MAX`.
    pub fn create_player(&self, card_ids: Vec<GlobalCardId>) -> (player: Option<Player>)
        ensures
            self.health_fits() <==> player is Some,
            player matches Some(p) ==> p@ == self.fresh_player(card_ids@),
    {
        if self.health > i64::MAX as u64 {
            return None;
        }
        Some(
            Player {
                health: PlayerHealth(self.health as i64, self.health),
                shield_stacks: 0,
                poison_stacks: 0,
                burn_stacks: 0,
                regeneration_stacks: self.regen,
                card_ids,
                dot_counter: 0,
            },
        )
    }
}

} // verus!
