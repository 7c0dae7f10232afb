//! The scorecard archive: sealed scorecards by session identifier, written
//! exactly once per identifier and immutable thereafter.

use vstd::prelude::*;

use vstd::hash_map::HashMapWithView;

use crate::models::ScorecardTemplateArgs;
use crate::registry::{mark_completes, GamesInProgress};

verus! {

broadcast use vstd::std_specs::hash::group_hash_axioms;

/// The sealed scorecards, keyed by session identifier.
pub struct ScorecardArchive {
    pub cards: HashMapWithView<u128, ScorecardTemplateArgs>,
}

impl ScorecardArchive {
    /// Every archived scorecard is sealed and consistent.
    pub open spec fn wf(&self) -> bool {
        forall|id: u128| self.cards@.dom().contains(id) ==> (#[trigger] self.cards@[id]).wf()
    }

    /// An empty archive.
    pub fn new() -> (r: ScorecardArchive)
        ensures
            r.wf(),
            r.cards@ == Map::<u128, ScorecardTemplateArgs>::empty(),
    {
        ScorecardArchive { cards: HashMapWithView::new() }
    }

    /// Persist a scorecard under an identifier. An identifier already archived
    /// is left untouched and the save is refused: a record is written once.
    pub fn save(&mut self, id: u128, card: ScorecardTemplateArgs) -> (r: bool)
        requires
            old(self).wf(),
            card.wf(),
        ensures
            final(self).wf(),
            r == !old(self).cards@.dom().contains(id),
            r ==> final(self).cards@ == old(self).cards@.insert(id, card),
            !r ==> final(self).cards@ == old(self).cards@,
    {
        if self.cards.contains_key(&id) {
            false
        } else {
            self.cards.insert(id, card);
            true
        }
    }

    /// The scorecard archived under an identifier, if any.
    pub fn load(&self, id: u128) -> (r: Option<&ScorecardTemplateArgs>)
        requires
            self.wf(),
        ensures
            match r {
                Some(card) => self.cards@.dom().contains(id) && *card == self.cards@[id]
                    && card.wf(),
                None => !self.cards@.dom().contains(id),
            },
    {
        self.cards.get(&id)
    }
}

/// Mark a category and, when that seals the game, archive the scorecard. When
/// the thirteenth category is filled, the session leaves the registry and a
/// sealed scorecard — thirteen entries in the fixed order, its total their sum
/// — becomes retrievable from the archive under the same identifier.
pub fn mark_and_archive(
    registry: &mut GamesInProgress,
    archive: &mut ScorecardArchive,
    id: u128,
    index: usize,
) -> (completed: bool)
    requires
        old(registry).wf(),
        old(archive).wf(),
        !old(archive).cards@.dom().contains(id),
    ensures
        final(registry).wf(),
        final(archive).wf(),
        completed == (old(registry).games@.dom().contains(id) && mark_completes(
            old(registry).games@[id],
            index as int,
        )),
        completed ==> {
            &&& !final(registry).games@.dom().contains(id)
            &&& final(archive).cards@.dom().contains(id)
            &&& final(archive).cards@[id].wf()
        },
        !completed ==> final(archive).cards@ == old(archive).cards@,
{
    match registry.mark(id, index) {
        Some(card) => {
            archive.save(id, card);
            true
        },
        None => false,
    }
}

} // verus!
