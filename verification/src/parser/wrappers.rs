//! Names for generated items.

use crate::text::{owned, pascal_case, snake_case, to_pascal_case, to_snake_case};
use vstd::prelude::*;

verus! {

/// The name of a generated struct.
#[derive(Debug, PartialEq, Eq)]
pub struct StructName(pub String);

/// The name of a generated module.
#[derive(Debug, PartialEq, Eq)]
pub struct ModuleName(pub String);

impl StructName {
    /// The struct name made of a kind and the upper-camel-case form of a
    /// display name.
    pub fn of_kind(kind: &str, pascal: &str) -> (name: Self)
        ensures
            name.0@ == kind@ + pascal@,
    {
        StructName(owned(kind).concat(pascal))
    }

    /// The struct of the card called `s`: `Card`, then the name in upper
    /// camel case.
    pub fn card(s: &str) -> (name: Self)
        ensures
            name.0@ == "Card"@ + pascal_case(s@),
    {
        let pascal = to_pascal_case(s);
        Self::of_kind("Card", pascal.as_str())
    }

    /// The struct of the skill called `s`: `Skill`, then the name in upper
    /// camel case.
    pub fn skill(s: &str) -> (name: Self)
        ensures
            name.0@ == "Skill"@ + pascal_case(s@),
    {
        let pascal = to_pascal_case(s);
        Self::of_kind("Skill", pascal.as_str())
    }

    /// The struct of the encounter called `s`: `Encounter`, then the name
    /// in upper camel case.
    pub fn encounter(s: &str) -> (name: Self)
        ensures
            name.0@ == "Encounter"@ + pascal_case(s@),
    {
        let pascal = to_pascal_case(s);
        Self::of_kind("Encounter", pascal.as_str())
    }
}

impl ModuleName {
    /// The module name made of a kind and the snake-case form of a display
    /// name.
    pub fn of_kind(kind: &str, snake: &str) -> (name: Self)
        ensures
            name.0@ == kind@ + snake@,
    {
        ModuleName(owned(kind).concat(snake))
    }

    /// The module of the card called `name`: `card_`, then the name in
    /// snake case.
    pub fn card(name: &str) -> (module: Self)
        ensures
            module.0@ == "card_"@ + snake_case(name@),
    {
        let snake = to_snake_case(name);
        Self::of_kind("card_", snake.as_str())
    }

    /// The module of the skill called `name`: `skill_`, then the name in
    /// snake case.
    pub fn skill(name: &str) -> (module: Self)
        ensures
            module.0@ == "skill_"@ + snake_case(name@),
    {
        let snake = to_snake_case(name);
        Self::of_kind("skill_", snake.as_str())
    }

    /// The module of the encounter called `name`: `encounter_`, then the
    /// name in snake case.
    pub fn encounter(name: &str) -> (module: Self)
        ensures
            module.0@ == "encounter_"@ + snake_case(name@),
    {
        let snake = to_snake_case(name);
        Self::of_kind("encounter_", snake.as_str())
    }
}

/// The items of `list`, each written as a path under `tag`, joined by a
/// comma and a space.
pub open spec fn tagged_list(tag: Seq<char>, list: Seq<String>) -> Seq<char>
    decreases list.len(),
{
    if list.len() == 0 {
        Seq::empty()
    } else if list.len() == 1 {
        tag + "::"@ + list[0]@
    } else {
        tagged_list(tag, list.drop_last()) + ", "@ + tag + "::"@ + list.last()@
    }
}

/// Writes each item of `strlist` as a path under `tag` and joins the paths
/// by a comma and a space: `Tag::Weapon, Tag::Tool`.
pub fn tag_strlist(tag: &str, strlist: &Vec<String>) -> (joined: String)
    ensures
        joined@ == tagged_list(tag@, strlist@),
{
    let mut joined = String::new();
    let mut i: usize = 0;
    while i < strlist.len()
        invariant
            i <= strlist@.len(),
            joined@ == tagged_list(tag@, strlist@.take(i as int)),
        decreases strlist@.len() - i,
    {
        assert(strlist@.take(i as int + 1).drop_last() =~= strlist@.take(i as int));
        if i > 0 {
            joined.append(", ");
        }
        joined.append(tag);
        joined.append("::");
        joined.append(strlist[i].as_str());
        proof {
            let next = strlist@.take(i as int + 1);
            assert(next.last() == strlist@[i as int]);
            if i == 0 {
                assert(next[0] == strlist@[0]);
                assert(joined@ =~= tag@ + "::"@ + strlist@[0]@);
            } else {
                assert(joined@ =~= tagged_list(tag@, strlist@.take(i as int)) + ", "@ + tag@
                    + "::"@ + strlist@[i as int]@);
            }
        }
        i = i + 1;
    }
    assert(strlist@.take(i as int) =~= strlist@);
    joined
}

} // verus!
