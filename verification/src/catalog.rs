//! The card catalog: the definitions a simulation is built from, by name.

use crate::models::card::Card as CardDefinition;
use crate::text::same_text;
use vstd::prelude::*;

verus! {

/// A read-only list of card definitions. A card is looked up by its exact
/// name; of two definitions with one name the first is found.
pub struct Catalog {
    pub cards: Vec<CardDefinition>,
}

/// The first definition among `cards` whose name is `name`.
pub open spec fn found(cards: Seq<CardDefinition>, name: Seq<char>) -> Option<CardDefinition>
    decreases cards.len(),
{
    if cards.len() == 0 {
        None
    } else {
        match found(cards.drop_last(), name) {
            Some(card) => Some(card),
            None => if cards.last().name@ == name {
                Some(cards.last())
            } else {
                None
            },
        }
    }
}

impl View for Catalog {
    type V = Seq<CardDefinition>;

    open spec fn view(&self) -> Seq<CardDefinition> {
        self.cards@
    }
}

impl Catalog {
    /// A catalog without definitions.
    pub fn new() -> (catalog: Catalog)
        ensures
            catalog@.len() == 0,
    {
        Catalog { cards: Vec::new() }
    }

    /// Adds a definition after those already there.
    pub fn register(&mut self, card: CardDefinition)
        ensures
            final(self)@ == old(self)@.push(card),
    {
        self.cards.push(card);
    }

    /// The number of definitions.
    pub fn len(&self) -> (len: usize)
        ensures
            len == self@.len(),
    {
        self.cards.len()
    }

    /// The definition of the card called `name`.
    pub fn get(&self, name: &str) -> (card: Option<&CardDefinition>)
        ensures
            match card {
                Some(definition) => found(self@, name@) == Some(*definition),
                None => found(self@, name@) is None,
            },
    {
        let mut i: usize = 0;
        while i < self.cards.len()
            invariant
                i <= self.cards@.len(),
                found(self.cards@.take(i as int), name@) is None,
            decreases self.cards@.len() - i,
        {
            assert(self.cards@.take(i as int + 1).drop_last() =~= self.cards@.take(i as int));
            if same_text(self.cards[i].name.as_str(), name) {
                proof {
                    found_extends(self.cards@, name@, i as int + 1);
                }
                return Some(&self.cards[i]);
            }
            i = i + 1;
        }
        assert(self.cards@.take(i as int) =~= self.cards@);
        None
    }

    /// The names of the definitions, in the order of the catalog.
    pub fn names(&self) -> (names: Vec<String>)
        ensures
            names@.len() == self@.len(),
            forall|i: int| 0 <= i < names@.len() ==> (#[trigger] names@[i])@ == self@[i].name@,
    {
        let mut names: Vec<String> = Vec::new();
        let mut i: usize = 0;
        while i < self.cards.len()
            invariant
                i <= self.cards@.len(),
                names@.len() == i,
                forall|j: int| 0 <= j < i ==> (#[trigger] names@[j])@ == self.cards@[j].name@,
            decreases self.cards@.len() - i,
        {
            names.push(self.cards[i].name.clone());
            i = i + 1;
        }
        names
    }
}

/// What is found among the first `n` definitions is found among all of them.
pub proof fn found_extends(cards: Seq<CardDefinition>, name: Seq<char>, n: int)
    requires
        0 <= n <= cards.len(),
        found(cards.take(n), name) is Some,
    ensures
        found(cards, name) == found(cards.take(n), name),
    decreases cards.len() - n,
{
    if n < cards.len() {
        assert(cards.take(n + 1).drop_last() =~= cards.take(n));
        found_extends(cards, name, n + 1);
    } else {
        assert(cards.take(n) =~= cards);
    }
}

} // verus!
