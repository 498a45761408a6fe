//! Building a simulation from a template.

use crate::board::{board_entries, board_insert, board_new, entry_views, position_of, position_of_finds};
use crate::card::base_card::{Card, CardView};
use crate::card::id::{CardIdCounter, GlobalCardId};
use crate::card::template::{CardError, CardTemplate};
use crate::catalog::{found, Catalog};
use crate::models::card::Card as CardDefinition;
use crate::models::tooltip::player_target::PlayerTarget;
use crate::simulation::engine::Simulation;
use crate::simulation::laws::a_built_simulation_is_well_formed;
use crate::simulation::model::SimulationView;
use crate::statics::NUMBER_OF_BOARD_SPACES;
use crate::template::SimulationTemplate;
use indexmap::IndexMap;
use vstd::prelude::*;

verus! {

/// Why a simulation could not be built.
#[derive(Debug, PartialEq, Eq)]
pub enum BuildError {
    /// The template asks for more cards than the counter has identifiers left.
    OutOfIds,
    /// A card of the given side could not be built.
    Card(PlayerTarget, CardError),
    /// The cards of the given side take more than the slots of a board.
    BoardTooLarge(PlayerTarget),
    /// The health of the given side exceeds `i64::MAX`.
    HealthOutOfRange(PlayerTarget),
}

/// The slots that the card of a template takes; none where the catalog does
/// not know the card.
pub open spec fn spaces_of(template: CardTemplate, catalog: Seq<CardDefinition>) -> int {
    match found(catalog, template.name@) {
        Some(card) => card.size.spaces(),
        None => 0,
    }
}

/// The slots that the cards of the first `n` templates take.
pub open spec fn spaces_before(templates: Seq<CardTemplate>, catalog: Seq<CardDefinition>, n: int) -> int
    decreases n,
{
    if n <= 0 {
        0
    } else {
        spaces_before(templates, catalog, n - 1) + spaces_of(templates[n - 1], catalog)
    }
}

/// A number of slots as a board position, held at the largest `u8`.
pub open spec fn held_position(spaces: int) -> u8 {
    if spaces > u8::MAX {
        u8::MAX
    } else {
        spaces as u8
    }
}

/// Why the first of the first `n` templates that gives no card gives none.
pub open spec fn card_failure_before(
    templates: Seq<CardTemplate>,
    catalog: Seq<CardDefinition>,
    n: int,
) -> Option<CardError>
    decreases n,
{
    if n <= 0 {
        None
    } else {
        match card_failure_before(templates, catalog, n - 1) {
            Some(error) => Some(error),
            None => templates[n - 1].failure(catalog),
        }
    }
}

/// Why the cards of one side cannot be put on a board, if they cannot: the
/// first card that cannot be built; else, that the cards take more slots
/// than a board has.
pub open spec fn side_failure(
    templates: Seq<CardTemplate>,
    catalog: Seq<CardDefinition>,
    side: PlayerTarget,
) -> Option<BuildError> {
    match card_failure_before(templates, catalog, templates.len() as int) {
        Some(error) => Some(BuildError::Card(side, error)),
        None => if spaces_before(templates, catalog, templates.len() as int)
            > NUMBER_OF_BOARD_SPACES {
            Some(BuildError::BoardTooLarge(side))
        } else {
            None
        },
    }
}

/// The cards of the first `n` templates of one side as the board holds
/// them: each under the next identifier from `first_id`, at the first slot
/// that the cards before it leave free.
pub open spec fn side_cards(
    templates: Seq<CardTemplate>,
    catalog: Seq<CardDefinition>,
    owner: PlayerTarget,
    first_id: int,
    n: int,
) -> Seq<(u64, CardView)>
    decreases n,
{
    if n <= 0 {
        Seq::empty()
    } else {
        side_cards(templates, catalog, owner, first_id, n - 1).push(
            (
                (first_id + n - 1) as u64,
                templates[n - 1].built(
                    found(catalog, templates[n - 1].name@)->0,
                    held_position(spaces_before(templates, catalog, n - 1)),
                    owner,
                    GlobalCardId((first_id + n - 1) as u64),
                ),
            ),
        )
    }
}

/// The `n` identifiers from `first_id` upwards.
pub open spec fn ids_from(first_id: int, n: int) -> Seq<GlobalCardId> {
    Seq::new(n as nat, |i: int| GlobalCardId((first_id + i) as u64))
}

impl SimulationTemplate {
    /// The number of cards of both sides.
    pub open spec fn card_count(self) -> int {
        (self.player.card_templates@.len() + self.opponent.card_templates@.len()) as int
    }

    /// Why no simulation can be built from the template, if none can. The
    /// checks are made in this order: identifiers, the player's cards and
    /// board, the opponent's cards and board, the player's health, the
    /// opponent's health.
    pub open spec fn failure(self, catalog: Seq<CardDefinition>, counter: CardIdCounter) -> Option<
        BuildError,
    > {
        if self.card_count() > counter.remaining() {
            Some(BuildError::OutOfIds)
        } else if side_failure(self.player.card_templates@, catalog, PlayerTarget::Player)
            is Some {
            side_failure(self.player.card_templates@, catalog, PlayerTarget::Player)
        } else if side_failure(self.opponent.card_templates@, catalog, PlayerTarget::Opponent)
            is Some {
            side_failure(self.opponent.card_templates@, catalog, PlayerTarget::Opponent)
        } else if !self.player.health_fits() {
            Some(BuildError::HealthOutOfRange(PlayerTarget::Player))
        } else if !self.opponent.health_fits() {
            Some(BuildError::HealthOutOfRange(PlayerTarget::Opponent))
        } else {
            None
        }
    }

    /// The simulation built from the template: the player's cards, then the
    /// opponent's, under consecutive identifiers from the counter; both
    /// players at full health; no tick done; no sink attached.
    pub open spec fn built(self, catalog: Seq<CardDefinition>, counter: CardIdCounter) -> SimulationView {
        let mine = self.player.card_templates@;
        let theirs = self.opponent.card_templates@;
        let first = counter.next as int;
        SimulationView {
            player: self.player.fresh_player(ids_from(first, mine.len() as int)),
            opponent: self.opponent.fresh_player(
                ids_from(first + mine.len(), theirs.len() as int),
            ),
            cards: side_cards(mine, catalog, PlayerTarget::Player, first, mine.len() as int)
                + side_cards(
                theirs,
                catalog,
                PlayerTarget::Opponent,
                first + mine.len(),
                theirs.len() as int,
            ),
            ticks: 0,
            sink: None,
        }
    }
}

/// Builds the cards of one side and puts them on the board.
fn build_side(
    templates: &Vec<CardTemplate>,
    catalog: &Catalog,
    owner: PlayerTarget,
    ids: &mut CardIdCounter,
    cards: &mut IndexMap<u64, Card>,
) -> (built: Result<Vec<GlobalCardId>, BuildError>)
    requires
        templates@.len() <= old(ids).remaining(),
        forall|i: int|
            0 <= i < board_entries(*old(cards)).len() ==> (#[trigger] board_entries(
                *old(cards),
            )[i]).0 < old(ids).next,
    ensures
        match side_failure(templates@, catalog@, owner) {
            Some(error) => built == Err::<Vec<GlobalCardId>, BuildError>(error),
            None => built matches Ok(list) && list@ == ids_from(
                old(ids).next as int,
                templates@.len() as int,
            ) && final(ids).next == old(ids).next + templates@.len() && entry_views(
                board_entries(*final(cards)),
            ) == entry_views(board_entries(*old(cards))) + side_cards(
                templates@,
                catalog@,
                owner,
                old(ids).next as int,
                templates@.len() as int,
            ) && forall|i: int|
                0 <= i < board_entries(*final(cards)).len() ==> (#[trigger] board_entries(
                    *final(cards),
                )[i]).0 < final(ids).next,
        },
{
    let ghost first = ids.next as int;
    let ghost before = entry_views(board_entries(*cards));
    let mut list: Vec<GlobalCardId> = Vec::new();
    let mut spaces: u128 = 0;
    let mut i: usize = 0;
    assert(list@ =~= ids_from(first, 0));
    assert(entry_views(board_entries(*cards)) =~= before + side_cards(
        templates@,
        catalog@,
        owner,
        first,
        0,
    ));
    while i < templates.len()
        invariant
            i <= templates@.len(),
            first == old(ids).next,
            before == entry_views(board_entries(*old(cards))),
            first + templates@.len() <= u64::MAX,
            ids.next == first + i,
            card_failure_before(templates@, catalog@, i as int) is None,
            spaces == spaces_before(templates@, catalog@, i as int),
            spaces <= 3 * i,
            list@ == ids_from(first, i as int),
            entry_views(board_entries(*cards)) == before + side_cards(
                templates@,
                catalog@,
                owner,
                first,
                i as int,
            ),
            forall|k: int|
                0 <= k < board_entries(*cards).len() ==> (#[trigger] board_entries(*cards)[k]).0
                    < ids.next,
        decreases templates@.len() - i,
    {
        let template = &templates[i];
        let position: u8 = if spaces > u8::MAX as u128 {
            u8::MAX
        } else {
            spaces as u8
        };
        let id = GlobalCardId::new(ids);
        let card = match template.create_card_on_board(catalog, position, owner, id) {
            Ok(card) => card,
            Err(error) => {
                assert(card_failure_before(templates@, catalog@, templates@.len() as int) == Some(
                    error,
                )) by {
                    failure_stays(templates@, catalog@, i as int + 1, templates@.len() as int);
                }
                return Err(BuildError::Card(owner, error));
            },
        };
        spaces = spaces + card.inner.size.board_spaces() as u128;
        list.push(id);
        let ghost entries = board_entries(*cards);
        let ghost view = card@;
        proof {
            position_of_finds(entries, id.0);
            if position_of(entries, id.0) is Some {
                let at = position_of(entries, id.0)->0;
                assert(entries[at].0 < id.0);
            }
            assert(position_of(entries, id.0) is None);
        }
        let replaced = board_insert(cards, id.0, card);
        assert(entry_views(board_entries(*cards)) =~= entry_views(entries).push((id.0, view)));
        assert(side_cards(templates@, catalog@, owner, first, i as int + 1) == side_cards(
            templates@,
            catalog@,
            owner,
            first,
            i as int,
        ).push((id.0, view)));
        assert(list@ =~= ids_from(first, i as int + 1));
        assert(entry_views(board_entries(*cards)) =~= before + side_cards(
            templates@,
            catalog@,
            owner,
            first,
            i as int + 1,
        ));
        i = i + 1;
    }
    if spaces > NUMBER_OF_BOARD_SPACES as u128 {
        return Err(BuildError::BoardTooLarge(owner));
    }
    Ok(list)
}

/// A failure among the first `n` templates is the failure among the first
/// `m`, for any `m` from `n` on.
pub proof fn failure_stays(
    templates: Seq<CardTemplate>,
    catalog: Seq<CardDefinition>,
    n: int,
    m: int,
)
    requires
        n <= m,
        card_failure_before(templates, catalog, n) is Some,
    ensures
        card_failure_before(templates, catalog, m) == card_failure_before(templates, catalog, n),
    decreases m - n,
{
    if n < m {
        failure_stays(templates, catalog, n, m - 1);
    }
}

impl Simulation {
    /// Builds the simulation of a template from the definitions of a
    /// catalog, with identifiers from `ids`. Each side's cards stand on its
    /// board in the order of the template, each at the first slot that the
    /// cards before it leave free. The build fails where the counter has
    /// too few identifiers left, a card is unknown or has no tooltip, a
    /// board overflows, or a health exceeds `i64::MAX`; a failed build
    /// leaves the counter as it was.
    pub fn try_from(template: &SimulationTemplate, catalog: &Catalog, ids: &mut CardIdCounter) -> (built:
        Result<Simulation, BuildError>)
        ensures
            match template.failure(catalog@, *old(ids)) {
                Some(error) => built == Err::<Simulation, BuildError>(error) && *final(ids) == *old(
                    ids,
                ),
                None => built matches Ok(simulation) && simulation@ == template.built(
                    catalog@,
                    *old(ids),
                ) && simulation@.well_formed() && final(ids).next == old(ids).next
                    + template.card_count(),
            },
    {
        let saved = *ids;
        let mine = &template.player.card_templates;
        let theirs = &template.opponent.card_templates;
        if !ids.can_allocate(mine.len()) {
            return Err(BuildError::OutOfIds);
        }
        let left: u64 = (u64::MAX - ids.next) - mine.len() as u64;
        if theirs.len() as u128 > left as u128 {
            return Err(BuildError::OutOfIds);
        }
        let mut cards = board_new();
        let player_ids = match build_side(mine, catalog, PlayerTarget::Player, ids, &mut cards) {
            Ok(list) => list,
            Err(error) => {
                *ids = saved;
                return Err(error);
            },
        };
        let opponent_ids = match build_side(
            theirs,
            catalog,
            PlayerTarget::Opponent,
            ids,
            &mut cards,
        ) {
            Ok(list) => list,
            Err(error) => {
                *ids = saved;
                return Err(error);
            },
        };
        let player = match template.player.create_player(player_ids) {
            Some(player) => player,
            None => {
                *ids = saved;
                return Err(BuildError::HealthOutOfRange(PlayerTarget::Player));
            },
        };
        let opponent = match template.opponent.create_player(opponent_ids) {
            Some(opponent) => opponent,
            None => {
                *ids = saved;
                return Err(BuildError::HealthOutOfRange(PlayerTarget::Opponent));
            },
        };
        let simulation = Simulation { player, opponent, cards, ticks: 0, event_sink: None };
        proof {
            assert(simulation@.cards =~= template.built(catalog@, *old(ids)).cards);
            a_built_simulation_is_well_formed(*template, catalog@, *old(ids));
        }
        Ok(simulation)
    }
}

} // verus!
