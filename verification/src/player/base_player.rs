//! The player state machine.

use crate::arith::{add_i64, clamp_i64, sub_i64};
use crate::card::id::GlobalCardId;
use crate::player::health::PlayerHealth;
use crate::statics::TICKS_PER_SECOND;
use crate::text::{decimal, decimal_text, owned, signed_decimal, signed_text};
use vstd::prelude::*;

verus! {

/// One side of the fight.
#[derive(Debug, PartialEq, Eq)]
pub struct Player {
    pub health: PlayerHealth,
    pub shield_stacks: i64,
    pub poison_stacks: i64,
    pub burn_stacks: i64,
    pub regeneration_stacks: i64,
    /// The cards this player owns, in board order.
    pub card_ids: Vec<GlobalCardId>,
    /// Ticks elapsed, modulo `TICKS_PER_SECOND`.
    pub dot_counter: u64,
}

/// What a player is: the fields of `Player`, with the list of cards as a
/// sequence.
pub struct PlayerView {
    pub health: PlayerHealth,
    pub shield_stacks: i64,
    pub poison_stacks: i64,
    pub burn_stacks: i64,
    pub regeneration_stacks: i64,
    pub card_ids: Seq<GlobalCardId>,
    pub dot_counter: u64,
}

impl View for Player {
    type V = PlayerView;

    open spec fn view(&self) -> PlayerView {
        PlayerView {
            health: self.health,
            shield_stacks: self.shield_stacks,
            poison_stacks: self.poison_stacks,
            burn_stacks: self.burn_stacks,
            regeneration_stacks: self.regeneration_stacks,
            card_ids: self.card_ids@,
            dot_counter: self.dot_counter,
        }
    }
}

impl Clone for Player {
    fn clone(&self) -> (copy: Self)
        ensures
            copy@ == self@,
    {
        let card_ids = self.card_ids.clone();
        assert(card_ids@ =~= self.card_ids@);
        Player {
            health: self.health,
            shield_stacks: self.shield_stacks,
            poison_stacks: self.poison_stacks,
            burn_stacks: self.burn_stacks,
            regeneration_stacks: self.regeneration_stacks,
            card_ids,
            dot_counter: self.dot_counter,
        }
    }
}

/// `0.05 * amount`, rounded to the nearest integer (halves upwards): what a
/// heal of `amount` cleanses of burn and of poison.
pub open spec fn cleanse_of(amount: int) -> int {
    (amount + 10) / 20
}

/// `0.5 * stacks`, rounded to the nearest integer (halves away from zero).
pub open spec fn half_rounded(stacks: int) -> int {
    if stacks >= 0 {
        (stacks + 1) / 2
    } else {
        -((-stacks + 1) / 2)
    }
}

/// The smaller of two integers.
pub open spec fn min_int(a: int, b: int) -> int {
    if a <= b {
        a
    } else {
        b
    }
}

/// The larger of two integers.
pub open spec fn max_int(a: int, b: int) -> int {
    if a >= b {
        a
    } else {
        b
    }
}

impl PlayerView {
    /// What the shield absorbs of `amount` incoming damage.
    pub open spec fn absorbed(self, amount: int) -> int {
        if self.shield_stacks > 0 {
            min_int(self.shield_stacks as int, amount)
        } else {
            0
        }
    }

    /// The player after taking `amount` damage: the shield absorbs what it
    /// can, the rest is taken from the health.
    pub open spec fn damaged(self, amount: int) -> PlayerView {
        let absorbed = self.absorbed(amount);
        let remaining = amount - absorbed;
        PlayerView {
            shield_stacks: (self.shield_stacks - absorbed) as i64,
            health: if remaining > 0 {
                self.health.lowered(remaining)
            } else {
                self.health
            },
            ..self
        }
    }

    /// The player after a heal of `amount`: health rises up to the maximum,
    /// and burn and poison are cleansed by `cleanse_of(amount)`, not below zero.
    pub open spec fn healed(self, amount: int) -> PlayerView {
        PlayerView {
            health: self.health.raised(amount),
            poison_stacks: max_int(0, clamp_i64(self.poison_stacks - cleanse_of(amount))) as i64,
            burn_stacks: max_int(0, clamp_i64(self.burn_stacks - cleanse_of(amount))) as i64,
            ..self
        }
    }

    /// The player with `amount` more shield.
    pub open spec fn shielded(self, amount: int) -> PlayerView {
        PlayerView { shield_stacks: clamp_i64(self.shield_stacks + amount) as i64, ..self }
    }

    /// The player with `amount` more burn.
    pub open spec fn burned(self, amount: int) -> PlayerView {
        PlayerView { burn_stacks: clamp_i64(self.burn_stacks + amount) as i64, ..self }
    }

    /// The player with `amount` more poison.
    pub open spec fn poisoned(self, amount: int) -> PlayerView {
        PlayerView { poison_stacks: clamp_i64(self.poison_stacks + amount) as i64, ..self }
    }

    /// The player with `amount` more regeneration.
    pub open spec fn regenerated(self, amount: int) -> PlayerView {
        PlayerView { regeneration_stacks: clamp_i64(self.regeneration_stacks + amount) as i64, ..self }
    }

    /// The damage of one burn tick: the burn stacks, halved while a shield stands.
    pub open spec fn burn_damage(self) -> int {
        if self.shield_stacks == 0 {
            self.burn_stacks as int
        } else {
            half_rounded(self.burn_stacks as int)
        }
    }

    /// The player after one burn tick. Without burn nothing changes. Else the
    /// shield absorbs what it can of the burn damage, the rest is taken from
    /// the health, and one burn stack goes.
    pub open spec fn burn_ticked(self) -> PlayerView {
        if self.burn_stacks == 0 {
            self
        } else {
            let damage = self.burn_damage();
            if self.shield_stacks > 0 {
                let absorbed = min_int(damage, self.shield_stacks as int);
                PlayerView {
                    shield_stacks: clamp_i64(self.shield_stacks - absorbed) as i64,
                    health: self.health.lowered(damage - absorbed),
                    burn_stacks: clamp_i64(self.burn_stacks - 1) as i64,
                    ..self
                }
            } else {
                PlayerView {
                    health: self.health.lowered(damage),
                    burn_stacks: clamp_i64(self.burn_stacks - 1) as i64,
                    ..self
                }
            }
        }
    }

    /// The player after the once-per-second step: two burn ticks, then
    /// regeneration less poison on the health.
    pub open spec fn second_elapsed(self) -> PlayerView {
        let burnt = self.burn_ticked().burn_ticked();
        PlayerView {
            health: burnt.health.raised(burnt.regeneration_stacks - burnt.poison_stacks),
            ..burnt
        }
    }

    /// The player after one tick of the clock.
    pub open spec fn ticked(self) -> PlayerView {
        let stepped = if self.dot_counter % TICKS_PER_SECOND == 0 {
            self.second_elapsed()
        } else {
            self
        };
        PlayerView {
            dot_counter: ((self.dot_counter % TICKS_PER_SECOND + 1) % (TICKS_PER_SECOND as int)) as u64,
            ..stepped
        }
    }

    /// Whether the player is defeated.
    pub open spec fn is_dead(self) -> bool {
        self.health.is_dead()
    }
}

impl PlayerView {
    /// The player in words: health, then the four kinds of stacks, then
    /// the number of cards.
    pub open spec fn described(self) -> Seq<char> {
        "Player("@ + self.health.described() + ", burn: "@ + signed_text(self.burn_stacks as int)
            + ", poison: "@ + signed_text(self.poison_stacks as int) + ", regen: "@
            + signed_text(self.regeneration_stacks as int) + ", shield: "@ + signed_text(
            self.shield_stacks as int,
        ) + ", cards: "@ + decimal_text(self.card_ids.len()) + ")"@
    }
}

impl Player {
    /// The player in words.
    pub fn describe(&self) -> (text: String)
        ensures
            text@ == self@.described(),
    {
        let mut text = owned("Player(");
        text.append(self.health.describe().as_str());
        text.append(", burn: ");
        text.append(signed_decimal(self.burn_stacks as i128).as_str());
        text.append(", poison: ");
        text.append(signed_decimal(self.poison_stacks as i128).as_str());
        text.append(", regen: ");
        text.append(signed_decimal(self.regeneration_stacks as i128).as_str());
        text.append(", shield: ");
        text.append(signed_decimal(self.shield_stacks as i128).as_str());
        text.append(", cards: ");
        text.append(decimal(self.card_ids.len() as u128).as_str());
        text.append(")");
        assert(text@ =~= self@.described());
        text
    }

    /// Adds burn stacks.
    pub fn burn(&mut self, amount: u32)
        ensures
            final(self)@ == old(self)@.burned(amount as int),
    {
        self.burn_stacks = add_i64(self.burn_stacks, amount as i64);
    }

    /// Applies `amount` damage: the shield absorbs `min(shield, amount)`, the
    /// rest is taken from the health.
    pub fn take_damage(&mut self, amount: u32)
        ensures
            final(self)@ == old(self)@.damaged(amount as int),
            old(self).shield_stacks >= amount ==> final(self).health == old(self).health,
    {
        let mut remaining: i64 = amount as i64;
        if self.shield_stacks > 0 {
            let deduct = if self.shield_stacks < remaining {
                self.shield_stacks
            } else {
                remaining
            };
            self.shield_stacks = self.shield_stacks - deduct;
            remaining = remaining - deduct;
        }
        if remaining > 0 {
            self.health.decrease(remaining);
        }
    }

    /// Adds poison stacks.
    pub fn poison(&mut self, amount: u32)
        ensures
            final(self)@ == old(self)@.poisoned(amount as int),
    {
        self.poison_stacks = add_i64(self.poison_stacks, amount as i64);
    }

    /// Heals by `amount`, up to the maximum health, and cleanses burn and
    /// poison by 5 % of the amount healed.
    pub fn heal(&mut self, amount: u32)
        ensures
            final(self)@ == old(self)@.healed(amount as int),
    {
        let cleanse: i64 = ((amount as u64 + 10) / 20) as i64;
        let poison = sub_i64(self.poison_stacks, cleanse);
        let burn = sub_i64(self.burn_stacks, cleanse);
        self.poison_stacks = if poison < 0 { 0 } else { poison };
        self.burn_stacks = if burn < 0 { 0 } else { burn };
        self.health.increase_until_max(amount as i64);
    }

    /// Adds shield stacks.
    pub fn shield(&mut self, amount: u32)
        ensures
            final(self)@ == old(self)@.shielded(amount as int),
    {
        self.shield_stacks = add_i64(self.shield_stacks, amount as i64);
    }

    /// Adds regeneration stacks.
    pub fn regen(&mut self, amount: u32)
        ensures
            final(self)@ == old(self)@.regenerated(amount as int),
    {
        self.regeneration_stacks = add_i64(self.regeneration_stacks, amount as i64);
    }

    /// One burn tick.
    pub fn burn_tick(&mut self)
        ensures
            final(self)@ == old(self)@.burn_ticked(),
            old(self).burn_stacks == 0 ==> final(self)@ == old(self)@,
    {
        if self.burn_stacks == 0 {
            return ;
        }
        let damage: i64 = if self.shield_stacks == 0 {
            self.burn_stacks
        } else if self.burn_stacks >= 0 {
            ((self.burn_stacks as i128 + 1) / 2) as i64
        } else {
            (-((-(self.burn_stacks as i128) + 1) / 2)) as i64
        };
        if self.shield_stacks > 0 {
            let absorb = if damage < self.shield_stacks {
                damage
            } else {
                self.shield_stacks
            };
            self.shield_stacks = sub_i64(self.shield_stacks, absorb);
            let leftover = sub_i64(damage, absorb);
            self.health.decrease(leftover);
        } else {
            self.health.decrease(damage);
        }
        self.burn_stacks = sub_i64(self.burn_stacks, 1);
    }

    /// One tick of the clock. Once per simulated second burn ticks twice and
    /// regeneration less poison is added to the health.
    pub fn tick(&mut self)
        ensures
            final(self)@ == old(self)@.ticked(),
    {
        let phase = self.dot_counter % TICKS_PER_SECOND;
        if phase == 0 {
            self.burn_tick();
            self.burn_tick();
            let net: i128 = self.regeneration_stacks as i128 - self.poison_stacks as i128;
            let current: i128 = self.health.0 as i128 + net;
            let limit = self.health.limit();
            let held: i64 = if current > i64::MAX as i128 {
                i64::MAX
            } else if current < i64::MIN as i128 {
                i64::MIN
            } else {
                current as i64
            };
            self.health.0 = if held > limit { limit } else { held };
        }
        self.dot_counter = (phase + 1) % TICKS_PER_SECOND;
    }
}

/// Healing by `amount` leaves `max(0, burn - round(0.05 * amount))` burn and
/// `max(0, poison - round(0.05 * amount))` poison.
pub proof fn heal_cleanses(player: PlayerView, amount: u32)
    ensures
        player.healed(amount as int).burn_stacks == max_int(
            0,
            player.burn_stacks - cleanse_of(amount as int),
        ),
        player.healed(amount as int).poison_stacks == max_int(
            0,
            player.poison_stacks - cleanse_of(amount as int),
        ),
        20 * cleanse_of(amount as int) - 10 <= amount < 20 * cleanse_of(amount as int) + 10,
{
}

impl PlayerView {
    /// Whether the current health is within the maximum.
    pub open spec fn within_maximum(self) -> bool {
        self.health.0 <= self.health.cap()
    }
}

/// No operation on a player raises the health above its maximum, and none
/// changes the maximum or the cards: a player within the maximum stays
/// within it through damage, heal, shield, burn, poison, regeneration, a
/// burn tick and a tick of the clock.
pub proof fn health_stays_within_the_maximum(player: PlayerView, amount: u32)
    requires
        player.within_maximum(),
    ensures
        player.damaged(amount as int).within_maximum(),
        player.healed(amount as int).within_maximum(),
        player.shielded(amount as int).within_maximum(),
        player.burned(amount as int).within_maximum(),
        player.poisoned(amount as int).within_maximum(),
        player.regenerated(amount as int).within_maximum(),
        player.burn_ticked().within_maximum(),
        player.ticked().within_maximum(),
        player.ticked().health.1 == player.health.1,
        player.ticked().card_ids == player.card_ids,
{
    let once = player.burn_ticked();
    assert(once.within_maximum());
    assert(once.burn_ticked().within_maximum());
}

/// A shield of at least `amount` absorbs `amount` damage whole: the health
/// stays as it was and the shield loses `amount`.
pub proof fn shield_absorbs_damage(player: PlayerView, amount: u32)
    requires
        player.shield_stacks >= amount,
    ensures
        player.damaged(amount as int).health == player.health,
        player.damaged(amount as int).shield_stacks == player.shield_stacks - amount,
{
}

/// Without burn stacks a burn tick changes nothing, the shield included.
pub proof fn burn_tick_without_burn_is_idle(player: PlayerView)
    requires
        player.burn_stacks == 0,
    ensures
        player.burn_ticked() == player,
        player.burn_ticked().shield_stacks == player.shield_stacks,
{
}

} // verus!
