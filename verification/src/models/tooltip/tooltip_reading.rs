//! Reading tooltips from the rules text of an item.

use crate::models::data::Percentage;
use crate::models::re::{
    FREEZE_N_FOR_M, FREEZE_N_FOR_M_OF_SIZE, HASTE_N_FOR_M, SLOW_N_FOR_M, STATIC_WEAPON_DAMAGE,
};
use crate::models::size::Size;
use crate::models::tag::Tag;
use crate::models::tooltip::base::{Tooltip, TooltipView};
use crate::models::tooltip::card_target::{CardTarget, CardTargetView};
use crate::models::tooltip::card_target_condition::{TargetCondition, TargetConditionView};
use crate::models::tooltip::effect::{
    CardDerivedProperty, DerivedValue, DerivedValueView, Effect, EffectView,
};
use crate::models::tooltip::effect_event::{EffectEvent, EffectEventView};
use crate::models::tooltip::effect_reading::effect_of;
use crate::models::tooltip::effect_value::EffectValue;
use crate::models::tooltip::event_reading::event_of;
use crate::models::tooltip::global_event::GlobalEvent;
use crate::models::tooltip::modifier::Modifier;
use crate::models::tooltip::numeric::{
    capture_u32, captured_u32, decimal_of, numeric_of, parse_numeric, Decimal,
};
use crate::models::tooltip::player_target::PlayerTarget;
use crate::pattern::{captures, group, group_text, regex_groups};
use crate::text::{
    ends_with, has_prefix, has_suffix, lowercase, owned, same_text, starts_with, strip_prefix,
    to_lowercase, trim, trimmed,
};
use vstd::prelude::*;

verus! {

/// The whole number that a text holds first, if it holds one.
pub open spec fn first_u32(text: Seq<char>) -> Option<u32> {
    match numeric_of(text) {
        Some(number) => number.whole_u32(),
        None => None,
    }
}

/// Every card of one side.
pub open spec fn all_cards_of(side: PlayerTarget) -> CardTargetView {
    CardTargetView(usize::MAX, TargetConditionView::HasOwner(side))
}

/// Every weapon of the player.
pub open spec fn all_own_weapons() -> CardTargetView {
    CardTargetView(
        usize::MAX,
        TargetConditionView::And(
            Box::new(TargetConditionView::HasOwner(PlayerTarget::Player)),
            Box::new(TargetConditionView::HasTag(Tag::Weapon)),
        ),
    )
}

/// The tooltip of a text that starts with a known word and holds a number,
/// if the text is one. Where the number is missing or does not fit, the
/// text is kept as raw text.
pub open spec fn numbered_tooltip(text: Seq<char>) -> Option<TooltipView> {
    let raw = TooltipView::Raw(text);
    if has_prefix(text, "cooldown"@) {
        Some(
            match numeric_of(text) {
                Some(number) => TooltipView::StaticModifier(Modifier::Cooldown(number.millis())),
                None => raw,
            },
        )
    } else if has_prefix(text, "ammo"@) {
        Some(
            match first_u32(text) {
                Some(amount) => TooltipView::StaticModifier(Modifier::Ammo(amount)),
                None => raw,
            },
        )
    } else if has_prefix(text, "multicast"@) || has_prefix(text, "use"@) {
        Some(
            match first_u32(text) {
                Some(amount) => TooltipView::StaticModifier(Modifier::Multicast(amount)),
                None => raw,
            },
        )
    } else if has_prefix(text, "crit chance"@) {
        Some(
            match numeric_of(text) {
                Some(number) => TooltipView::StaticModifier(
                    Modifier::CritChance(Percentage(number.basis_points())),
                ),
                None => raw,
            },
        )
    } else if has_prefix(text, "slow all enemy items for"@) {
        Some(
            match numeric_of(text) {
                Some(number) => TooltipView::When(
                    EffectEventView::OnCooldown(
                        EffectView::Slow(all_cards_of(PlayerTarget::Opponent), number.millis()),
                    ),
                ),
                None => raw,
            },
        )
    } else if has_prefix(text, "you take"@) && has_suffix(text, "% less damage."@) {
        Some(
            match first_u32(text) {
                Some(percent) => TooltipView::StaticModifier(
                    Modifier::LessDamageTaken(EffectValue::Percentage(percent)),
                ),
                None => raw,
            },
        )
    } else if has_prefix(text, "you take no damage for"@) {
        Some(
            match numeric_of(text) {
                Some(number) => TooltipView::When(
                    EffectEventView::OnCooldown(EffectView::DamageImmunity(number.millis())),
                ),
                None => raw,
            },
        )
    } else {
        None
    }
}

/// The effect of the words that follow the occasion in a tooltip.
pub open spec fn following_effect(rest: Seq<char>) -> EffectView {
    effect_of(trimmed(rest))
}

/// The tooltip of a text that starts with `at the start of`: an effect at
/// the start of each day or of each fight; any other such text is kept as
/// raw text.
pub open spec fn start_tooltip(text: Seq<char>) -> TooltipView {
    if has_prefix(text, "at the start of each day,"@) {
        TooltipView::When(
            EffectEventView::OnDayStart(
                following_effect(trimmed(text.skip("at the start of each day,"@.len() as int))),
            ),
        )
    } else if has_prefix(text, "at the start of each fight,"@) {
        TooltipView::When(
            EffectEventView::OnFightStart(
                following_effect(trimmed(text.skip("at the start of each fight,"@.len() as int))),
            ),
        )
    } else {
        TooltipView::Raw(text)
    }
}

/// The items of the player that shield or heal.
pub open spec fn own_shield_or_heal() -> TargetConditionView {
    TargetConditionView::And(
        Box::new(TargetConditionView::HasOwner(PlayerTarget::Player)),
        Box::new(
            TargetConditionView::Or(
                Box::new(TargetConditionView::HasTag(Tag::Heal)),
                Box::new(TargetConditionView::HasTag(Tag::Shield)),
            ),
        ),
    )
}

/// The effect event of a text that starts with `when`, if the occasion is
/// known.
pub open spec fn when_event(text: Seq<char>) -> Option<EffectEventView> {
    let own = TargetConditionView::HasOwner(PlayerTarget::Player);
    if has_prefix(text, "when you use an adjacent item,"@) {
        Some(
            EffectEventView::OnCardUsed(
                TargetConditionView::Adjacent,
                following_effect(text.skip("when you use an adjacent item,"@.len() as int)),
            ),
        )
    } else if has_prefix(text, "when you use an item,"@) {
        Some(
            EffectEventView::OnCardUsed(
                own,
                following_effect(text.skip("when you use an item,"@.len() as int)),
            ),
        )
    } else if has_prefix(text, "when you sell this"@) {
        Some(
            EffectEventView::OnCardSold(
                following_effect(text.skip("when you sell this"@.len() as int)),
            ),
        )
    } else if has_prefix(text, "when you use shield or heal,"@) {
        Some(
            EffectEventView::OnCardUsed(
                own_shield_or_heal(),
                following_effect(text.skip("when you use shield or heal,"@.len() as int)),
            ),
        )
    } else if has_prefix(text, "when you crit,"@) {
        Some(
            EffectEventView::OnCrit(
                own,
                following_effect(text.skip("when you crit,"@.len() as int)),
            ),
        )
    } else if has_prefix(text, "when your enemy uses an item,"@) {
        Some(
            EffectEventView::OnCardUsed(
                TargetConditionView::HasOwner(PlayerTarget::Opponent),
                following_effect(text.skip("when your enemy uses an item,"@.len() as int)),
            ),
        )
    } else if has_prefix(text, "when you win a fight against a hero,"@) {
        Some(
            EffectEventView::OnWinVersusHero(
                following_effect(text.skip("when you win a fight against a hero,"@.len() as int)),
            ),
        )
    } else if has_prefix(text, "when you use a weapon,"@) {
        Some(
            EffectEventView::OnCardUsed(
                own,
                following_effect(text.skip("when you use a weapon,"@.len() as int)),
            ),
        )
    } else {
        None
    }
}

/// The tooltip of a text that starts with `when`; with an occasion that is
/// not known the text is kept as raw text.
pub open spec fn when_tooltip(text: Seq<char>) -> TooltipView {
    match when_event(text) {
        Some(event) => TooltipView::When(event),
        None => TooltipView::Raw(text),
    }
}

/// The tooltip of a text that starts with `the first time`.
pub open spec fn first_time_tooltip(text: Seq<char>) -> TooltipView {
    if has_prefix(text, "the first time you fall below half health each fight, "@) {
        TooltipView::When(
            EffectEventView::OnFirstTime(
                GlobalEvent::PlayerFallsBelowHpPercentage(50),
                following_effect(
                    text.skip(
                        "the first time you fall below half health each fight, "@.len() as int,
                    ),
                ),
            ),
        )
    } else {
        TooltipView::Raw(text)
    }
}

/// The tooltip of a text that is one of the fixed sentences, if it is one.
pub open spec fn sentence_tooltip(text: Seq<char>) -> Option<TooltipView> {
    if text == "this has double damage."@ {
        Some(TooltipView::StaticModifier(Modifier::WeaponDamage(EffectValue::Percentage(100))))
    } else if text == "this cannot be frozen, slowed or destroyed."@ {
        Some(TooltipView::StaticModifier(Modifier::Radiant))
    } else if text == "+50% crit chance"@ {
        Some(TooltipView::StaticModifier(Modifier::CritChance(Percentage(5000))))
    } else if text == "this has +1 multicast."@ {
        Some(TooltipView::StaticModifier(Modifier::Multicast(1)))
    } else if text == "shield equal to the value of the adjacent items."@ {
        Some(
            TooltipView::When(
                EffectEventView::OnCooldown(
                    EffectView::Shield(
                        PlayerTarget::Player,
                        DerivedValueView::FromCard(
                            CardTargetView(2, TargetConditionView::Adjacent),
                            CardDerivedProperty::Value,
                            100,
                        ),
                    ),
                ),
            ),
        )
    } else {
        None
    }
}

/// The count and the duration in milliseconds that the groups `count` and
/// `seconds` of a match write, if both write a number.
pub open spec fn count_and_millis(
    groups: Option<Seq<Option<Seq<char>>>>,
    count: int,
    seconds: int,
) -> Option<(usize, u64)> {
    match (group_text(groups, count), group_text(groups, seconds)) {
        (Some(count_text), Some(seconds_text)) => match (
            decimal_of(count_text),
            decimal_of(seconds_text),
        ) {
            (Some(n), Some(m)) => match n.whole_usize() {
                Some(cards) => Some((cards, m.millis())),
                None => None,
            },
            _ => None,
        },
        _ => None,
    }
}

/// A tooltip that puts a status on cards on cooldown.
pub open spec fn on_cooldown(effect: EffectView) -> TooltipView {
    TooltipView::When(EffectEventView::OnCooldown(effect))
}

/// The cards of the opponent of a size that have a cooldown.
pub open spec fn enemy_cards_of_size(size: Size) -> TargetConditionView {
    TargetConditionView::And(
        Box::new(
            TargetConditionView::And(
                Box::new(TargetConditionView::HasOwner(PlayerTarget::Opponent)),
                Box::new(TargetConditionView::HasSize(size)),
            ),
        ),
        Box::new(TargetConditionView::HasCooldown),
    )
}

/// The tooltip of a text that puts a status on a number of items for a
/// number of seconds, or adds damage to the weapons, if the text is one.
pub open spec fn status_tooltip(text: Seq<char>) -> Option<TooltipView> {
    let haste = count_and_millis(regex_groups(HASTE_N_FOR_M@, text), 1, 2);
    let slow = count_and_millis(regex_groups(SLOW_N_FOR_M@, text), 1, 2);
    let freeze = count_and_millis(regex_groups(FREEZE_N_FOR_M@, text), 1, 2);
    let sized = regex_groups(FREEZE_N_FOR_M_OF_SIZE@, text);
    let freeze_sized = count_and_millis(sized, 1, 3);
    if haste is Some {
        Some(
            on_cooldown(
                EffectView::Haste(
                    CardTargetView(
                        (haste->0).0,
                        TargetConditionView::HasOwner(PlayerTarget::Player),
                    ),
                    (haste->0).1,
                ),
            ),
        )
    } else if slow is Some {
        Some(
            on_cooldown(
                EffectView::Slow(
                    CardTargetView(
                        (slow->0).0,
                        TargetConditionView::HasOwner(PlayerTarget::Opponent),
                    ),
                    (slow->0).1,
                ),
            ),
        )
    } else if freeze is Some {
        Some(
            on_cooldown(
                EffectView::Freeze(
                    CardTargetView(
                        (freeze->0).0,
                        TargetConditionView::HasOwner(PlayerTarget::Opponent),
                    ),
                    (freeze->0).1,
                ),
            ),
        )
    } else if freeze_sized is Some && group_text(sized, 2) is Some && Size::named(
        lowercase(group_text(sized, 2)->0),
    ) is Some {
        Some(
            on_cooldown(
                EffectView::Freeze(
                    CardTargetView(
                        (freeze_sized->0).0,
                        enemy_cards_of_size(Size::named(lowercase(group_text(sized, 2)->0))->0),
                    ),
                    (freeze_sized->0).1,
                ),
            ),
        )
    } else if captured_u32(STATIC_WEAPON_DAMAGE@, text) is Some {
        Some(
            TooltipView::StaticModifier(
                Modifier::WeaponDamage(
                    EffectValue::Flat(captured_u32(STATIC_WEAPON_DAMAGE@, text)->0),
                ),
            ),
        )
    } else {
        None
    }
}

/// The tooltip of a text that is read as an effect: an effect event where
/// the text is one, else an effect on cooldown where it is one, else raw
/// text.
pub open spec fn effect_tooltip(text: Seq<char>) -> TooltipView {
    match event_of(trimmed(text)) {
        EffectEventView::Raw(_) => match effect_of(trimmed(text)) {
            EffectView::Raw(_) => TooltipView::Raw(text),
            effect => TooltipView::When(EffectEventView::OnCooldown(effect)),
        },
        event => TooltipView::When(event),
    }
}

/// The tooltip that a line of rules text in lower case stands for. The
/// kinds of line are tried in a fixed order; a line that is none of them is
/// kept as raw text.
pub open spec fn tooltip_of(text: Seq<char>) -> TooltipView {
    if numbered_tooltip(text) is Some {
        numbered_tooltip(text)->0
    } else if has_prefix(text, "at the start of"@) {
        start_tooltip(text)
    } else if text == "sells for gold."@ {
        TooltipView::SellsForGold
    } else if text == "this deals double crit damage."@ {
        TooltipView::StaticModifier(Modifier::DoubleCritDamage)
    } else if has_prefix(text, "your other weapons gain"@) && has_suffix(
        text,
        "damage for the fight."@,
    ) {
        match first_u32(text) {
            Some(amount) => on_cooldown(
                EffectView::IncreaseDamage(all_own_weapons(), EffectValue::Flat(amount)),
            ),
            None => TooltipView::Raw(text),
        }
    } else if has_prefix(text, "when"@) {
        when_tooltip(text)
    } else if has_prefix(text, "the first time"@) {
        first_time_tooltip(text)
    } else if sentence_tooltip(text) is Some {
        sentence_tooltip(text)->0
    } else if status_tooltip(text) is Some {
        status_tooltip(text)->0
    } else {
        effect_tooltip(text)
    }
}

/// Reads the count and the duration of a status from the groups of a match.
fn read_count_and_millis(groups: &Option<Vec<Option<String>>>, count: usize, seconds: usize) -> (read:
    Option<(usize, u64)>)
    ensures
        read == count_and_millis(
            match groups {
                Some(list) => Some(crate::pattern::group_views(list@)),
                None => None,
            },
            count as int,
            seconds as int,
        ),
{
    match (group(groups, count), group(groups, seconds)) {
        (Some(count_text), Some(seconds_text)) => {
            match (Decimal::parse(count_text), Decimal::parse(seconds_text)) {
                (Some(n), Some(m)) => match n.as_usize() {
                    Some(cards) => Some((cards, m.as_millis())),
                    None => None,
                },
                _ => None,
            }
        },
        _ => None,
    }
}

/// Reads the whole number that a text holds first.
fn read_first_u32(text: &str) -> (value: Option<u32>)
    ensures
        value == first_u32(text@),
{
    match parse_numeric(text) {
        Some(number) => number.as_u32(),
        None => None,
    }
}

/// Reads the effect of the words that follow the occasion in a tooltip.
fn read_following(rest: &str) -> (effect: Effect)
    ensures
        effect@ == following_effect(rest@),
{
    Effect::from_tooltip_str(rest)
}

impl Tooltip {
    /// Reads a text that starts with a known word and holds a number.
    fn read_numbered(text: &str) -> (tooltip: Option<Tooltip>)
        ensures
            match tooltip {
                Some(read) => numbered_tooltip(text@) == Some(read@),
                None => numbered_tooltip(text@) is None,
            },
    {
        if starts_with(text, "cooldown") {
            return Some(
                match parse_numeric(text) {
                    Some(number) => Tooltip::StaticModifier(Modifier::Cooldown(number.as_millis())),
                    None => Tooltip::Raw(owned(text)),
                },
            );
        }
        if starts_with(text, "ammo") {
            return Some(
                match read_first_u32(text) {
                    Some(amount) => Tooltip::StaticModifier(Modifier::Ammo(amount)),
                    None => Tooltip::Raw(owned(text)),
                },
            );
        }
        if starts_with(text, "multicast") || starts_with(text, "use") {
            return Some(
                match read_first_u32(text) {
                    Some(amount) => Tooltip::StaticModifier(Modifier::Multicast(amount)),
                    None => Tooltip::Raw(owned(text)),
                },
            );
        }
        if starts_with(text, "crit chance") {
            return Some(
                match parse_numeric(text) {
                    Some(number) => Tooltip::StaticModifier(
                        Modifier::CritChance(Percentage(number.as_basis_points())),
                    ),
                    None => Tooltip::Raw(owned(text)),
                },
            );
        }
        if starts_with(text, "slow all enemy items for") {
            return Some(
                match parse_numeric(text) {
                    Some(number) => Tooltip::When(
                        EffectEvent::OnCooldown(
                            Effect::Slow(
                                CardTarget(
                                    usize::MAX,
                                    TargetCondition::HasOwner(PlayerTarget::Opponent),
                                ),
                                number.as_millis(),
                            ),
                        ),
                    ),
                    None => Tooltip::Raw(owned(text)),
                },
            );
        }
        if starts_with(text, "you take") && ends_with(text, "% less damage.") {
            return Some(
                match read_first_u32(text) {
                    Some(percent) => Tooltip::StaticModifier(
                        Modifier::LessDamageTaken(EffectValue::Percentage(percent)),
                    ),
                    None => Tooltip::Raw(owned(text)),
                },
            );
        }
        if starts_with(text, "you take no damage for") {
            return Some(
                match parse_numeric(text) {
                    Some(number) => Tooltip::When(
                        EffectEvent::OnCooldown(Effect::DamageImmunity(number.as_millis())),
                    ),
                    None => Tooltip::Raw(owned(text)),
                },
            );
        }
        None
    }

    /// Reads a text that starts with `at the start of`.
    fn from_at_the_start(text: &str) -> (tooltip: Tooltip)
        ensures
            tooltip@ == start_tooltip(text@),
    {
        match strip_prefix(text, "at the start of each day,") {
            Some(rest) => {
                return Tooltip::When(EffectEvent::OnDayStart(read_following(trim(rest))));
            },
            None => {},
        }
        match strip_prefix(text, "at the start of each fight,") {
            Some(rest) => {
                return Tooltip::When(EffectEvent::OnFightStart(read_following(trim(rest))));
            },
            None => {},
        }
        Tooltip::Raw(owned(text))
    }

    /// Reads the effect event of a text that starts with `when`.
    fn read_when(text: &str) -> (event: Option<EffectEvent>)
        ensures
            match event {
                Some(read) => when_event(text@) == Some(read@),
                None => when_event(text@) is None,
            },
    {
        match strip_prefix(text, "when you use an adjacent item,") {
            Some(rest) => {
                return Some(
                    EffectEvent::OnCardUsed(TargetCondition::Adjacent, read_following(rest)),
                );
            },
            None => {},
        }
        match strip_prefix(text, "when you use an item,") {
            Some(rest) => {
                return Some(
                    EffectEvent::OnCardUsed(
                        TargetCondition::HasOwner(PlayerTarget::Player),
                        read_following(rest),
                    ),
                );
            },
            None => {},
        }
        match strip_prefix(text, "when you sell this") {
            Some(rest) => {
                return Some(EffectEvent::OnCardSold(read_following(rest)));
            },
            None => {},
        }
        match strip_prefix(text, "when you use shield or heal,") {
            Some(rest) => {
                let condition = TargetCondition::HasOwner(PlayerTarget::Player).and(
                    TargetCondition::HasTag(Tag::Heal).or(TargetCondition::HasTag(Tag::Shield)),
                );
                return Some(EffectEvent::OnCardUsed(condition, read_following(rest)));
            },
            None => {},
        }
        match strip_prefix(text, "when you crit,") {
            Some(rest) => {
                return Some(
                    EffectEvent::OnCrit(
                        TargetCondition::HasOwner(PlayerTarget::Player),
                        read_following(rest),
                    ),
                );
            },
            None => {},
        }
        match strip_prefix(text, "when your enemy uses an item,") {
            Some(rest) => {
                return Some(
                    EffectEvent::OnCardUsed(
                        TargetCondition::HasOwner(PlayerTarget::Opponent),
                        read_following(rest),
                    ),
                );
            },
            None => {},
        }
        match strip_prefix(text, "when you win a fight against a hero,") {
            Some(rest) => {
                return Some(EffectEvent::OnWinVersusHero(read_following(rest)));
            },
            None => {},
        }
        match strip_prefix(text, "when you use a weapon,") {
            Some(rest) => {
                return Some(
                    EffectEvent::OnCardUsed(
                        TargetCondition::HasOwner(PlayerTarget::Player),
                        read_following(rest),
                    ),
                );
            },
            None => {},
        }
        None
    }

    /// Reads a text that starts with `when`.
    fn from_when(text: &str) -> (tooltip: Tooltip)
        ensures
            tooltip@ == when_tooltip(text@),
    {
        match Self::read_when(text) {
            Some(event) => Tooltip::When(event),
            None => Tooltip::Raw(owned(text)),
        }
    }

    /// Reads a text that starts with `the first time`.
    fn from_first_time(text: &str) -> (tooltip: Tooltip)
        ensures
            tooltip@ == first_time_tooltip(text@),
    {
        match strip_prefix(text, "the first time you fall below half health each fight, ") {
            Some(rest) => Tooltip::When(
                EffectEvent::OnFirstTime(
                    GlobalEvent::PlayerFallsBelowHpPercentage(50),
                    read_following(rest),
                ),
            ),
            None => Tooltip::Raw(owned(text)),
        }
    }

    /// Reads a text that is one of the fixed sentences.
    fn read_sentence(text: &str) -> (tooltip: Option<Tooltip>)
        ensures
            match tooltip {
                Some(read) => sentence_tooltip(text@) == Some(read@),
                None => sentence_tooltip(text@) is None,
            },
    {
        if same_text(text, "this has double damage.") {
            return Some(
                Tooltip::StaticModifier(Modifier::WeaponDamage(EffectValue::Percentage(100))),
            );
        }
        if same_text(text, "this cannot be frozen, slowed or destroyed.") {
            return Some(Tooltip::StaticModifier(Modifier::Radiant));
        }
        if same_text(text, "+50% crit chance") {
            return Some(Tooltip::StaticModifier(Modifier::CritChance(Percentage(5000))));
        }
        if same_text(text, "this has +1 multicast.") {
            return Some(Tooltip::StaticModifier(Modifier::Multicast(1)));
        }
        if same_text(text, "shield equal to the value of the adjacent items.") {
            return Some(
                Tooltip::When(
                    EffectEvent::OnCooldown(
                        Effect::Shield(
                            PlayerTarget::Player,
                            DerivedValue::FromCard(
                                CardTarget(2, TargetCondition::Adjacent),
                                CardDerivedProperty::Value,
                                100,
                            ),
                        ),
                    ),
                ),
            );
        }
        None
    }

    /// Reads a text that puts a status on a number of items for a number of
    /// seconds, or adds damage to the weapons.
    fn read_status(text: &str) -> (tooltip: Option<Tooltip>)
        ensures
            match tooltip {
                Some(read) => status_tooltip(text@) == Some(read@),
                None => status_tooltip(text@) is None,
            },
    {
        let haste = captures(HASTE_N_FOR_M, text);
        match read_count_and_millis(&haste, 1, 2) {
            Some((cards, millis)) => {
                return Some(
                    Tooltip::When(
                        EffectEvent::OnCooldown(
                            Effect::Haste(
                                CardTarget(cards, TargetCondition::HasOwner(PlayerTarget::Player)),
                                millis,
                            ),
                        ),
                    ),
                );
            },
            None => {},
        }
        let slow = captures(SLOW_N_FOR_M, text);
        match read_count_and_millis(&slow, 1, 2) {
            Some((cards, millis)) => {
                return Some(
                    Tooltip::When(
                        EffectEvent::OnCooldown(
                            Effect::Slow(
                                CardTarget(cards, TargetCondition::HasOwner(PlayerTarget::Opponent)),
                                millis,
                            ),
                        ),
                    ),
                );
            },
            None => {},
        }
        let freeze = captures(FREEZE_N_FOR_M, text);
        match read_count_and_millis(&freeze, 1, 2) {
            Some((cards, millis)) => {
                return Some(
                    Tooltip::When(
                        EffectEvent::OnCooldown(
                            Effect::Freeze(
                                CardTarget(cards, TargetCondition::HasOwner(PlayerTarget::Opponent)),
                                millis,
                            ),
                        ),
                    ),
                );
            },
            None => {},
        }
        let sized = captures(FREEZE_N_FOR_M_OF_SIZE, text);
        match (read_count_and_millis(&sized, 1, 3), group(&sized, 2)) {
            (Some((cards, millis)), Some(size_text)) => {
                match Size::try_from(size_text) {
                    Some(size) => {
                        let condition = TargetCondition::HasOwner(PlayerTarget::Opponent).and(
                            TargetCondition::HasSize(size),
                        ).and(TargetCondition::HasCooldown);
                        return Some(
                            Tooltip::When(
                                EffectEvent::OnCooldown(
                                    Effect::Freeze(CardTarget(cards, condition), millis),
                                ),
                            ),
                        );
                    },
                    None => {},
                }
            },
            _ => {},
        }
        match capture_u32(STATIC_WEAPON_DAMAGE, text) {
            Some(damage) => {
                return Some(
                    Tooltip::StaticModifier(Modifier::WeaponDamage(EffectValue::Flat(damage))),
                );
            },
            None => {},
        }
        None
    }

    /// Reads a text as an effect event or as an effect on cooldown.
    fn from_effect(text: &str) -> (tooltip: Tooltip)
        ensures
            tooltip@ == effect_tooltip(text@),
    {
        match EffectEvent::from_tooltip_str(text) {
            EffectEvent::Raw(_) => match Effect::from_tooltip_str(text) {
                Effect::Raw(_) => Tooltip::Raw(owned(text)),
                effect => Tooltip::When(EffectEvent::OnCooldown(effect)),
            },
            event => Tooltip::When(event),
        }
    }

    /// Reads the tooltip that a line of rules text in lower case stands for.
    pub fn from_lowercase(text: &str) -> (tooltip: Tooltip)
        ensures
            tooltip@ == tooltip_of(text@),
    {
        match Self::read_numbered(text) {
            Some(tooltip) => {
                return tooltip;
            },
            None => {},
        }
        if starts_with(text, "at the start of") {
            return Self::from_at_the_start(text);
        }
        if same_text(text, "sells for gold.") {
            return Tooltip::SellsForGold;
        }
        if same_text(text, "this deals double crit damage.") {
            return Tooltip::StaticModifier(Modifier::DoubleCritDamage);
        }
        if starts_with(text, "your other weapons gain") && ends_with(text, "damage for the fight.") {
            return match read_first_u32(text) {
                Some(amount) => {
                    let weapons = TargetCondition::HasOwner(PlayerTarget::Player).and(
                        TargetCondition::HasTag(Tag::Weapon),
                    );
                    Tooltip::When(
                        EffectEvent::OnCooldown(
                            Effect::IncreaseDamage(
                                CardTarget(usize::MAX, weapons),
                                EffectValue::Flat(amount),
                            ),
                        ),
                    )
                },
                None => Tooltip::Raw(owned(text)),
            };
        }
        if starts_with(text, "when") {
            return Self::from_when(text);
        }
        if starts_with(text, "the first time") {
            return Self::from_first_time(text);
        }
        match Self::read_sentence(text) {
            Some(tooltip) => {
                return tooltip;
            },
            None => {},
        }
        match Self::read_status(text) {
            Some(tooltip) => {
                return tooltip;
            },
            None => {},
        }
        Self::from_effect(text)
    }

    /// Reads a tooltip from a line of rules text. The line is put in lower
    /// case and read; a line that is not understood is kept as raw text.
    pub fn from_str(value: &str) -> (tooltip: Tooltip)
        ensures
            tooltip@ == tooltip_of(lowercase(value@)),
    {
        let lowered = to_lowercase(value);
        Self::from_lowercase(lowered.as_str())
    }

    /// Reads a tooltip from a line of rules text; a line that is not
    /// understood is kept as raw text.
    pub fn from_or_raw(value: &str) -> (tooltip: Tooltip)
        ensures
            tooltip@ == tooltip_of(lowercase(value@)),
    {
        Self::from_str(value)
    }

    /// The tooltip of a line of an enchantment: the line as raw text.
    pub fn from_or_raw_enchantment(value: &str) -> (tooltip: Tooltip)
        ensures
            tooltip@ == TooltipView::Raw(value@),
    {
        Tooltip::Raw(owned(value))
    }

    /// Reads a tooltip from a line of rules text. Every line gives a
    /// tooltip.
    pub fn try_from(value: &str) -> (tooltip: Option<Tooltip>)
        ensures
            tooltip matches Some(read) && read@ == tooltip_of(lowercase(value@)),
    {
        Some(Self::from_str(value))
    }
}

} // verus!
