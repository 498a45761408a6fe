//! Card identifiers and the counter that hands them out.

use crate::text::{hex_text, hexadecimal, owned};
use vstd::prelude::*;

verus! {

/// The identity of a card in a simulation. Identifiers are opaque keys: two
/// cards drawn from one counter never share one.
#[derive(Clone, Copy, Debug, PartialEq, Eq, Hash, Structural)]
pub struct GlobalCardId(pub u64);

/// The source of card identifiers. It hands out the numbers from `next`
/// upwards, each once.
#[derive(Clone, Copy, Debug, PartialEq, Eq, Structural)]
pub struct CardIdCounter {
    pub next: u64,
}

impl CardIdCounter {
    /// A counter that starts at zero.
    pub fn new() -> (counter: CardIdCounter)
        ensures
            counter.next == 0,
    {
        CardIdCounter { next: 0 }
    }

    /// A counter that starts at `first`.
    pub fn starting_at(first: u64) -> (counter: CardIdCounter)
        ensures
            counter.next == first,
    {
        CardIdCounter { next: first }
    }

    /// How many identifiers the counter can still hand out.
    pub open spec fn remaining(self) -> int {
        u64::MAX - self.next
    }

    /// Whether the counter can hand out `count` more identifiers.
    pub fn can_allocate(&self, count: usize) -> (enough: bool)
        ensures
            enough == (count <= self.remaining()),
    {
        count as u128 <= (u64::MAX - self.next) as u128
    }
}

impl GlobalCardId {
    /// The identifier in words: `0x` and its number in hexadecimal notation.
    pub open spec fn described(self) -> Seq<char> {
        "0x"@ + hex_text(self.0 as nat)
    }

    /// The identifier in words.
    pub fn describe(&self) -> (text: String)
        ensures
            text@ == self.described(),
    {
        owned("0x").concat(hexadecimal(self.0).as_str())
    }

    /// Takes the next identifier from `counter`.
    pub fn new(counter: &mut CardIdCounter) -> (id: GlobalCardId)
        requires
            old(counter).remaining() > 0,
        ensures
            id.0 == old(counter).next,
            final(counter).next == old(counter).next + 1,
    {
        let id = GlobalCardId(counter.next);
        counter.next = counter.next + 1;
        id
    }

    /// Starts `counter` again from zero. Identifiers handed out before may
    /// come again after this.
    pub fn reset(counter: &mut CardIdCounter)
        ensures
            final(counter).next == 0,
    {
        counter.next = 0;
    }
}

/// Identifiers taken one after the other from a counter differ, and the later
/// one is the greater.
pub proof fn ids_are_handed_out_once(counter: CardIdCounter, first: GlobalCardId, second: GlobalCardId)
    requires
        counter.remaining() > 1,
        first.0 == counter.next,
        second.0 == counter.next + 1,
    ensures
        first != second,
        first.0 < second.0,
{
}

} // verus!
