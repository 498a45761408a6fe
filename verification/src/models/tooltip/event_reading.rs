//! Reading effect events from the words of a tooltip.

use crate::models::re::{
    EFFECT_BURN, EFFECT_DEAL_DAMAGE, EFFECT_HEAL, EFFECT_POISON, EFFECT_REGEN, EFFECT_SHIELD,
};
use crate::models::tooltip::card_target::{CardTarget, CardTargetView};
use crate::models::tooltip::card_target_condition::{TargetCondition, TargetConditionView};
use crate::models::tooltip::effect::{DerivedValue, DerivedValueView, Effect, EffectView};
use crate::models::tooltip::effect_event::{EffectEvent, EffectEventView};
use crate::models::tooltip::effect_reading::effect_of;
use crate::models::tooltip::numeric::{capture_u32, captured_u32};
use crate::models::tooltip::player_target::PlayerTarget;
use crate::text::{owned, same_text, trim, trimmed};
use vstd::prelude::*;

verus! {

/// Every other card of the player.
pub open spec fn all_other_own_cards() -> CardTargetView {
    CardTargetView(
        usize::MAX,
        TargetConditionView::And(
            Box::new(TargetConditionView::Not(Box::new(TargetConditionView::IsSelf))),
            Box::new(TargetConditionView::HasOwner(PlayerTarget::Player)),
        ),
    )
}

/// The effect event that a phrase without white space at its ends stands
/// for: `burn <n>`, `poison <n>`, `gain <n> regen for the fight`, `shield
/// <n>`, `heal <n>` and `deal <n> damage` fire on cooldown, the first two
/// and the last on the opponent, the others on the player; so does `use all
/// your other items.`; any other phrase is kept as raw text.
pub open spec fn event_of(text: Seq<char>) -> EffectEventView {
    if captured_u32(EFFECT_BURN@, text) is Some {
        EffectEventView::OnCooldown(
            EffectView::Burn(
                PlayerTarget::Opponent,
                DerivedValueView::Constant(captured_u32(EFFECT_BURN@, text)->0),
            ),
        )
    } else if captured_u32(EFFECT_POISON@, text) is Some {
        EffectEventView::OnCooldown(
            EffectView::Poison(
                PlayerTarget::Opponent,
                DerivedValueView::Constant(captured_u32(EFFECT_POISON@, text)->0),
            ),
        )
    } else if captured_u32(EFFECT_REGEN@, text) is Some {
        EffectEventView::OnCooldown(
            EffectView::Regen(
                PlayerTarget::Player,
                DerivedValueView::Constant(captured_u32(EFFECT_REGEN@, text)->0),
            ),
        )
    } else if captured_u32(EFFECT_SHIELD@, text) is Some {
        EffectEventView::OnCooldown(
            EffectView::Shield(
                PlayerTarget::Player,
                DerivedValueView::Constant(captured_u32(EFFECT_SHIELD@, text)->0),
            ),
        )
    } else if captured_u32(EFFECT_HEAL@, text) is Some {
        EffectEventView::OnCooldown(
            EffectView::Heal(
                PlayerTarget::Player,
                DerivedValueView::Constant(captured_u32(EFFECT_HEAL@, text)->0),
            ),
        )
    } else if captured_u32(EFFECT_DEAL_DAMAGE@, text) is Some {
        EffectEventView::OnCooldown(
            EffectView::DealDamage(
                PlayerTarget::Opponent,
                DerivedValueView::Constant(captured_u32(EFFECT_DEAL_DAMAGE@, text)->0),
            ),
        )
    } else if text == "use all your other items."@ {
        EffectEventView::OnCooldown(EffectView::Use(all_other_own_cards()))
    } else {
        EffectEventView::Raw(text)
    }
}

/// The words of a list, each followed by a space.
pub open spec fn spaced(words: Seq<String>) -> Seq<char>
    decreases words.len(),
{
    if words.len() == 0 {
        Seq::empty()
    } else {
        spaced(words.drop_last()) + words.last()@ + " "@
    }
}

/// Joins words, each followed by a space.
pub fn join_spaced(words: &Vec<String>) -> (joined: String)
    ensures
        joined@ == spaced(words@),
{
    let mut joined = String::new();
    let mut i: usize = 0;
    while i < words.len()
        invariant
            i <= words@.len(),
            joined@ == spaced(words@.take(i as int)),
        decreases words@.len() - i,
    {
        assert(words@.take(i as int + 1).drop_last() =~= words@.take(i as int));
        joined.append(words[i].as_str());
        joined.append(" ");
        i = i + 1;
    }
    assert(words@.take(i as int) =~= words@);
    joined
}

impl EffectEvent {
    /// Reads the effect event that a phrase without white space at its ends
    /// stands for.
    pub fn from_phrase(text: &str) -> (event: EffectEvent)
        ensures
            event@ == event_of(text@),
    {
        match capture_u32(EFFECT_BURN, text) {
            Some(burn) => {
                return EffectEvent::OnCooldown(
                    Effect::Burn(PlayerTarget::Opponent, DerivedValue::Constant(burn)),
                );
            },
            None => {},
        }
        match capture_u32(EFFECT_POISON, text) {
            Some(poison) => {
                return EffectEvent::OnCooldown(
                    Effect::Poison(PlayerTarget::Opponent, DerivedValue::Constant(poison)),
                );
            },
            None => {},
        }
        match capture_u32(EFFECT_REGEN, text) {
            Some(regen) => {
                return EffectEvent::OnCooldown(
                    Effect::Regen(PlayerTarget::Player, DerivedValue::Constant(regen)),
                );
            },
            None => {},
        }
        match capture_u32(EFFECT_SHIELD, text) {
            Some(shield) => {
                return EffectEvent::OnCooldown(
                    Effect::Shield(PlayerTarget::Player, DerivedValue::Constant(shield)),
                );
            },
            None => {},
        }
        match capture_u32(EFFECT_HEAL, text) {
            Some(heal) => {
                return EffectEvent::OnCooldown(
                    Effect::Heal(PlayerTarget::Player, DerivedValue::Constant(heal)),
                );
            },
            None => {},
        }
        match capture_u32(EFFECT_DEAL_DAMAGE, text) {
            Some(damage) => {
                return EffectEvent::OnCooldown(
                    Effect::DealDamage(PlayerTarget::Opponent, DerivedValue::Constant(damage)),
                );
            },
            None => {},
        }
        if same_text(text, "use all your other items.") {
            let others = TargetCondition::IsSelf.negated().and(
                TargetCondition::HasOwner(PlayerTarget::Player),
            );
            return EffectEvent::OnCooldown(Effect::Use(CardTarget(usize::MAX, others)));
        }
        EffectEvent::Raw(owned(text))
    }

    /// Reads an effect event from the words of a tooltip, in lower case.
    /// White space at the ends of the words is dropped; words that are not
    /// understood are kept as a raw event.
    pub fn from_tooltip_str(tooltip: &str) -> (event: EffectEvent)
        ensures
            event@ == event_of(trimmed(tooltip@)),
    {
        Self::from_phrase(trim(tooltip))
    }

    /// Reads an effect from words: the words are joined, each followed by a
    /// space, and read as one tooltip.
    pub fn from_iter(tooltip: &Vec<String>) -> (effect: Effect)
        ensures
            effect@ == effect_of(trimmed(spaced(tooltip@))),
    {
        let joined = join_spaced(tooltip);
        Effect::from_tooltip_str(joined.as_str())
    }
}

impl Effect {
    /// Reads an effect from words: the words are joined, each followed by a
    /// space, and read as one tooltip.
    pub fn from_iter(tooltip: &Vec<String>) -> (effect: Effect)
        ensures
            effect@ == effect_of(trimmed(spaced(tooltip@))),
    {
        let joined = join_spaced(tooltip);
        Effect::from_tooltip_str(joined.as_str())
    }
}

} // verus!
