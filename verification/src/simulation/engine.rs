//! The simulation and the functions that run it.

use crate::arith::{clamp_u32, clamp_u64};
use crate::board::{
    board_entries, board_entry_at, board_index_of, board_len, entry_views, position_of_finds,
    position_of_views,
};
use crate::card::base_card::{Card, CardView};
use crate::card::id::GlobalCardId;
use crate::dispatch::{report_views, DispatchableEvent};
use crate::models::tooltip::card_target_condition::TargetCondition;
use crate::models::tooltip::effect::{CardDerivedProperty, DerivedValue, Effect};
use crate::models::tooltip::player_target::PlayerTarget;
use crate::player::base_player::Player;
use crate::simulation::model::{percent_of, SimulationView};
use crate::statics::MAX_DERIVE_DEPTH;
use indexmap::IndexMap;
use vstd::prelude::*;

verus! {

/// A fight between two boards.
pub struct Simulation {
    pub player: Player,
    pub opponent: Player,
    /// The cards of both players, the player's first, each under the number
    /// of its identifier. Cards act in the order of this map.
    pub cards: IndexMap<u64, Card>,
    /// The number of ticks done.
    pub ticks: u64,
    /// The reports collected for the outside, where they are wanted.
    pub event_sink: Option<Vec<DispatchableEvent>>,
}

impl View for Simulation {
    type V = SimulationView;

    open spec fn view(&self) -> SimulationView {
        SimulationView {
            player: self.player@,
            opponent: self.opponent@,
            cards: entry_views(board_entries(self.cards)),
            ticks: self.ticks,
            sink: match self.event_sink {
                Some(log) => Some(report_views(log@)),
                None => None,
            },
        }
    }
}

/// Why a value could not be derived.
#[derive(Clone, Copy, Debug, PartialEq, Eq, Structural)]
pub enum DeriveError {
    /// A constant is given, not derived.
    ConstantValue,
}

/// `a + b`, held within the range of `u64`.
fn add_u64(a: u64, b: u64) -> (sum: u64)
    ensures
        sum == clamp_u64(a + b),
{
    if a > u64::MAX - b {
        u64::MAX
    } else {
        a + b
    }
}

/// `percent` percent of `total`, rounded, held within the range of `u32`.
fn scaled_by_percent(percent: u32, total: u64) -> (amount: u32)
    ensures
        amount == clamp_u32(percent_of(percent as int, total as int)),
{
    assert(percent * total <= 0xffff_ffff * 0xffff_ffff_ffff_ffff) by (nonlinear_arith)
        requires
            percent <= 0xffff_ffff,
            total <= 0xffff_ffff_ffff_ffff,
    ;
    let wide: u128 = (percent as u128 * total as u128 + 50) / 100;
    if wide > u32::MAX as u128 {
        u32::MAX
    } else {
        wide as u32
    }
}

impl Simulation {
    /// The cards of one player, in board order.
    pub fn get_cards_by_owner(&self, owner: PlayerTarget) -> (ids: &Vec<GlobalCardId>)
        ensures
            ids@ == match owner {
                PlayerTarget::Player => self.player.card_ids@,
                PlayerTarget::Opponent => self.opponent.card_ids@,
            },
    {
        match owner {
            PlayerTarget::Player => &self.player.card_ids,
            PlayerTarget::Opponent => &self.opponent.card_ids,
        }
    }

    /// The card stored under an identifier.
    pub fn get_card(&self, id: &GlobalCardId) -> (card: Option<&Card>)
        ensures
            match card {
                Some(found) => self@.card_by_id(*id) == Some(found@),
                None => self@.card_by_id(*id) is None,
            },
    {
        proof {
            position_of_finds(board_entries(self.cards), id.0);
            position_of_views(board_entries(self.cards), id.0);
        }
        match board_index_of(&self.cards, id.0) {
            Some(index) => Some(board_entry_at(&self.cards, index).1),
            None => None,
        }
    }

    /// The cards that satisfy `condition` from the point of view of the card
    /// `source_id`, in board order. Where `source_id` is not on the board,
    /// there are none.
    pub fn get_cards_by_target(&self, source_id: &GlobalCardId, condition: &TargetCondition) -> (ids:
        Vec<GlobalCardId>)
        ensures
            ids@ == self@.targets(*source_id, *condition),
    {
        let mut ids: Vec<GlobalCardId> = Vec::new();
        let source_card = match self.get_card(source_id) {
            Some(card) => card,
            None => {
                return ids;
            },
        };
        let ghost cards = entry_views(board_entries(self.cards));
        let ghost keep = |entry: (u64, CardView)| source_card@.matching(*condition, Some(entry.1));
        let ghost name = |entry: (u64, CardView)| GlobalCardId(entry.0);
        let count = board_len(&self.cards);
        let mut i: usize = 0;
        proof {
            reveal(Seq::filter);
            assert(cards.take(0).filter(keep).map_values(name) =~= ids@);
        }
        while i < count
            invariant
                i <= count,
                count == cards.len(),
                cards == entry_views(board_entries(self.cards)),
                keep == |entry: (u64, CardView)| source_card@.matching(*condition, Some(entry.1)),
                name == |entry: (u64, CardView)| GlobalCardId(entry.0),
                ids@ == cards.take(i as int).filter(keep).map_values(name),
            decreases count - i,
        {
            let (key, candidate) = board_entry_at(&self.cards, i);
            proof {
                broadcast use Seq::lemma_filter_push;

                assert(cards.take(i as int + 1) =~= cards.take(i as int).push(cards[i as int]));
            }
            if source_card.matches(condition, Some(candidate)) {
                ids.push(GlobalCardId(key));
                assert(ids@ =~= cards.take(i as int + 1).filter(keep).map_values(name));
            } else {
                assert(ids@ =~= cards.take(i as int + 1).filter(keep).map_values(name));
            }
            i = i + 1;
        }
        assert(cards.take(i as int) =~= cards);
        ids
    }

    /// The damage of one effect, looking `depth` levels into derived amounts.
    fn effect_damage(&self, effect: &Effect, source: &GlobalCardId, depth: u8) -> (damage: u32)
        ensures
            damage == self@.effect_damage(*effect, *source, depth as nat),
        decreases depth, 0nat, 0nat,
    {
        match effect {
            Effect::DealDamage(_, DerivedValue::Constant(amount)) => *amount,
            Effect::DealDamage(_, inner) => {
                if depth > 0 {
                    self.resolve(inner, source, depth - 1)
                } else {
                    0
                }
            },
            _ => 0,
        }
    }

    /// The sum of the damage of the effects of a card.
    fn effects_damage(&self, effects: &Vec<Effect>, source: &GlobalCardId, depth: u8) -> (damage:
        u64)
        ensures
            damage == self@.effects_damage(effects@, *source, depth as nat),
        decreases depth, 1nat, 0nat,
    {
        let mut total: u64 = 0;
        let mut i: usize = 0;
        while i < effects.len()
            invariant
                i <= effects@.len(),
                total == self@.effects_damage(effects@.take(i as int), *source, depth as nat),
            decreases effects@.len() - i,
        {
            assert(effects@.take(i as int + 1).drop_last() =~= effects@.take(i as int));
            let damage = self.effect_damage(&effects[i], source, depth);
            total = add_u64(total, damage as u64);
            i = i + 1;
        }
        assert(effects@.take(i as int) =~= effects@);
        total
    }

    /// The sum of the damage of the cooldown effects of the cards `ids`.
    fn damage_sum(&self, ids: &Vec<GlobalCardId>, source: &GlobalCardId, depth: u8) -> (damage: u64)
        ensures
            damage == self@.damage_sum(ids@, *source, depth as nat),
        decreases depth, 2nat, 0nat,
    {
        let mut total: u64 = 0;
        let mut i: usize = 0;
        while i < ids.len()
            invariant
                i <= ids@.len(),
                total == self@.damage_sum(ids@.take(i as int), *source, depth as nat),
            decreases ids@.len() - i,
        {
            assert(ids@.take(i as int + 1).drop_last() =~= ids@.take(i as int));
            match self.get_card(&ids[i]) {
                Some(card) => {
                    let damage = self.effects_damage(&card.cooldown_effects, source, depth);
                    total = add_u64(total, damage);
                },
                None => {},
            }
            i = i + 1;
        }
        assert(ids@.take(i as int) =~= ids@);
        total
    }

    /// The sum of the plain values of the cards `ids`.
    fn value_sum(&self, ids: &Vec<GlobalCardId>) -> (value: u64)
        ensures
            value == self@.value_sum(ids@),
    {
        let mut total: u64 = 0;
        let mut i: usize = 0;
        while i < ids.len()
            invariant
                i <= ids@.len(),
                total == self@.value_sum(ids@.take(i as int)),
            decreases ids@.len() - i,
        {
            assert(ids@.take(i as int + 1).drop_last() =~= ids@.take(i as int));
            match self.get_card(&ids[i]) {
                Some(card) => {
                    let value = card.tier.scale_cost(card.inner.size.base_cost());
                    total = add_u64(total, value as u64);
                },
                None => {},
            }
            i = i + 1;
        }
        assert(ids@.take(i as int) =~= ids@);
        total
    }

    /// The value that `value` resolves to for an event of the card `source`,
    /// looking `depth` levels into derived damage.
    pub fn resolve(&self, value: &DerivedValue<u32>, source: &GlobalCardId, depth: u8) -> (amount:
        u32)
        ensures
            amount == self@.derived(*value, *source, depth as nat),
        decreases depth, 3nat, 0nat,
    {
        match value {
            DerivedValue::Constant(amount) => *amount,
            DerivedValue::FromCard(target, CardDerivedProperty::Value, percent) => {
                let ids = self.get_cards_by_target(source, target.target_condition());
                scaled_by_percent(*percent, self.value_sum(&ids))
            },
            DerivedValue::FromCard(target, CardDerivedProperty::Damage, percent) => {
                let ids = self.get_cards_by_target(source, target.target_condition());
                scaled_by_percent(*percent, self.damage_sum(&ids, source, depth))
            },
            DerivedValue::FromPlayer(_, _, _) => 0,
        }
    }

    /// Derives a value from the cards it refers to, for an event of the card
    /// `source_id`. A constant is not derived: it is refused. A value derived
    /// from cards is the given percentage of the sum of the property over
    /// all cards that satisfy the target's condition. A value derived from a
    /// player is zero.
    pub fn derive_value(&self, value: &DerivedValue<u32>, source_id: &GlobalCardId) -> (derived:
        Result<u32, DeriveError>)
        ensures
            value is Constant <==> derived is Err,
            derived matches Err(error) ==> error == DeriveError::ConstantValue,
            derived matches Ok(amount) ==> amount == self@.amount(*value, *source_id),
    {
        match value {
            DerivedValue::Constant(_) => Err(DeriveError::ConstantValue),
            _ => Ok(self.resolve(value, source_id, MAX_DERIVE_DEPTH)),
        }
    }
}

} // verus!