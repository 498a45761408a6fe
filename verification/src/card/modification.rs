//! Changes made to a card before the fight.

use crate::models::card::Card as CardDefinition;
use crate::models::data::Percentage;
use crate::models::enchant::{CardEnchantment, Enchantment};
use crate::models::tooltip::base::Tooltip;
use crate::models::tooltip::modifier::Modifier;
use vstd::prelude::*;

verus! {

/// One change made to a card of a template.
#[derive(Clone, Copy, Debug, PartialEq, Eq, Structural)]
pub enum CardModification {
    Enchanted(Enchantment),
    Value(u32),
    Burn(u32),
    Poison(u32),
    Shield(u32),
    Heal(u32),
    Damage(u32),
    Cooldown(Percentage),
    Crit(Percentage),
}

/// The tooltips of the first enchantment of kind `kind` among
/// `enchantments`; none where there is no such enchantment.
pub open spec fn enchantment_tooltips(enchantments: Seq<CardEnchantment>, kind: Enchantment) -> Seq<
    Tooltip,
>
    decreases enchantments.len(),
{
    if enchantments.len() == 0 {
        Seq::empty()
    } else if enchantments.first().kind() == kind {
        enchantments.first().added()@
    } else {
        enchantment_tooltips(enchantments.drop_first(), kind)
    }
}

/// A copy of a list of tooltips.
pub fn copy_tooltips(tooltips: &Vec<Tooltip>) -> (copy: Vec<Tooltip>)
    ensures
        copy@ == tooltips@,
{
    let mut copy: Vec<Tooltip> = Vec::new();
    let mut i: usize = 0;
    while i < tooltips.len()
        invariant
            i <= tooltips@.len(),
            copy@ == tooltips@.take(i as int),
        decreases tooltips@.len() - i,
    {
        copy.push(tooltips[i].clone());
        assert(copy@ =~= tooltips@.take(i as int + 1));
        i = i + 1;
    }
    assert(tooltips@.take(i as int) =~= tooltips@);
    copy
}

impl CardModification {
    /// The tooltips that the modification adds to a card: those of the
    /// enchantment, as the definition of the card gives them; one static
    /// modifier for a change of value; none for the modifications that the
    /// engine does not model.
    pub open spec fn derived_tooltips(self, card: CardDefinition) -> Seq<Tooltip> {
        match self {
            CardModification::Enchanted(kind) => enchantment_tooltips(card.enchantments@, kind),
            CardModification::Value(value) => seq![
                Tooltip::StaticModifier(Modifier::IncreasedValue(value)),
            ],
            _ => Seq::empty(),
        }
    }

    /// The tooltips that the modification adds to a card.
    pub fn derive_tooltips(&self, card: &CardDefinition) -> (tooltips: Vec<Tooltip>)
        ensures
            tooltips@ == self.derived_tooltips(*card),
    {
        match self {
            CardModification::Enchanted(kind) => {
                let enchantments = &card.enchantments;
                let mut i: usize = 0;
                assert(enchantments@.skip(0) =~= enchantments@);
                while i < enchantments.len()
                    invariant
                        i <= enchantments@.len(),
                        *self == CardModification::Enchanted(*kind),
                        enchantments@ == card.enchantments@,
                        enchantment_tooltips(enchantments@, *kind) == enchantment_tooltips(
                            enchantments@.skip(i as int),
                            *kind,
                        ),
                    decreases enchantments@.len() - i,
                {
                    assert(enchantments@.skip(i as int).drop_first() =~= enchantments@.skip(
                        i as int + 1,
                    ));
                    assert(enchantments@.skip(i as int).first() == enchantments@[i as int]);
                    if enchantments[i].is_enchantment(kind) {
                        let shared = enchantments[i].tooltips();
                        let copy = copy_tooltips(&shared);
                        assert(enchantments@.skip(i as int).len() > 0);
                        assert(enchantment_tooltips(enchantments@.skip(i as int), *kind)
                            == enchantments@[i as int].added()@);
                        return copy;
                    }
                    i = i + 1;
                }
                assert(enchantments@.skip(i as int).len() == 0);
                Vec::new()
            },
            CardModification::Value(value) => {
                let mut tooltips: Vec<Tooltip> = Vec::new();
                tooltips.push(Tooltip::StaticModifier(Modifier::IncreasedValue(*value)));
                assert(tooltips@ =~= self.derived_tooltips(*card));
                tooltips
            },
            _ => Vec::new(),
        }
    }
}

} // verus!
