//! The session registry: the map from session identifier to game in progress,
//! owning the lifecycle of live sessions.
//!
//! The surrounding request layer serialises access to the registry (one
//! exclusive lock around each operation); the registry itself is a plain map
//! keyed by the 128-bit session identifier.

use vstd::prelude::*;

use vstd::hash_map::HashMapWithView;

use crate::models::{RollForm, ScorecardTemplateArgs};
use crate::session::{filled_count, mark_post, roll_post, spec_joker, GameInProgress};
use crate::scoring::{dice_values, spec_score};
use crate::category::spec_card_fields;

verus! {

broadcast use vstd::std_specs::hash::group_hash_axioms;

/// Marking `index` on `pre` succeeds and fills the thirteenth category.
pub open spec fn mark_completes(pre: GameInProgress, index: int) -> bool {
    &&& pre.rolls > 0
    &&& 0 <= index < 13
    &&& pre.fields@[index] is None
    &&& filled_count(
        pre.fields@.update(
            index,
            Some(
                spec_score(
                    spec_card_fields()[index],
                    dice_values(pre.dice@),
                    spec_joker(pre.fields@),
                ) as u16,
            ),
        ),
    ) == 13
}

/// All live sessions, keyed by session identifier.
pub struct GamesInProgress {
    pub games: HashMapWithView<u128, GameInProgress>,
}

impl GamesInProgress {
    /// Every live session is well formed.
    pub open spec fn wf(&self) -> bool {
        forall|id: u128|
            self.games@.dom().contains(id) ==> (#[trigger] self.games@[id]).wf()
    }

    /// An empty registry.
    pub fn new() -> (r: GamesInProgress)
        ensures
            r.wf(),
            r.games@ == Map::<u128, GameInProgress>::empty(),
    {
        GamesInProgress { games: HashMapWithView::new() }
    }

    /// Whether a session with this identifier is live.
    pub fn contains(&self, id: u128) -> (r: bool)
        ensures
            r == self.games@.dom().contains(id),
    {
        self.games.contains_key(&id)
    }

    /// The live session with this identifier, if any.
    pub fn get(&self, id: u128) -> (r: Option<&GameInProgress>)
        ensures
            match r {
                Some(g) => self.games@.dom().contains(id) && *g == self.games@[id],
                None => !self.games@.dom().contains(id),
            },
    {
        self.games.get(&id)
    }

    /// Create a fresh session under this identifier if none is live.
    pub fn get_or_create(&mut self, id: u128)
        requires
            old(self).wf(),
        ensures
            final(self).wf(),
            final(self).games@.dom().contains(id),
            old(self).games@.dom().contains(id) ==> final(self).games@ == old(self).games@,
            !old(self).games@.dom().contains(id) ==> {
                &&& final(self).games@ =~= old(self).games@.insert(
                    id,
                    final(self).games@[id],
                )
                &&& final(self).games@[id].rolls == 0
                &&& forall|i: int| 0 <= i < 13 ==> final(self).games@[id].fields@[i] is None
            },
    {
        if !self.games.contains_key(&id) {
            let g = GameInProgress::fresh();
            self.games.insert(id, g);
        }
    }

    /// Remove the session with this identifier, if any.
    pub fn remove(&mut self, id: u128)
        requires
            old(self).wf(),
        ensures
            final(self).wf(),
            final(self).games@ == old(self).games@.remove(id),
    {
        self.games.remove(&id);
    }

    /// Roll the dice of the session with this identifier. An unknown
    /// identifier changes nothing; no other session is touched.
    pub fn roll(&mut self, id: u128, mask: RollForm)
        requires
            old(self).wf(),
        ensures
            final(self).wf(),
            !old(self).games@.dom().contains(id) ==> final(self).games@ == old(self).games@,
            old(self).games@.dom().contains(id) ==> {
                &&& final(self).games@.dom() =~= old(self).games@.dom()
                &&& roll_post(old(self).games@[id], final(self).games@[id], mask)
                &&& forall|k: u128|
                    k != id && old(self).games@.dom().contains(k) ==> final(self).games@[k]
                        == old(self).games@[k]
            },
    {
        match self.games.remove(&id) {
            None => {},
            Some(mut g) => {
                g.apply_roll(mask);
                self.games.insert(id, g);
            },
        }
    }

    /// Mark a category of the session with this identifier. An unknown
    /// identifier, an illegal transition or an index out of range changes
    /// nothing. Filling the thirteenth category seals the game: the session
    /// leaves the registry and its scorecard is returned.
    pub fn mark(&mut self, id: u128, index: usize) -> (r: Option<ScorecardTemplateArgs>)
        requires
            old(self).wf(),
        ensures
            final(self).wf(),
            !old(self).games@.dom().contains(id) ==> final(self).games@ == old(self).games@ && r
                is None,
            old(self).games@.dom().contains(id) ==> {
                let pre = old(self).games@[id];
                if mark_completes(pre, index as int) {
                    &&& r is Some
                    &&& r->0.wf()
                    &&& !final(self).games@.dom().contains(id)
                    &&& final(self).games@ =~= old(self).games@.remove(id)
                } else {
                    &&& r is None
                    &&& final(self).games@.dom() =~= old(self).games@.dom()
                    &&& mark_post(pre, final(self).games@[id], index as int, None)
                    &&& forall|k: u128|
                        k != id && old(self).games@.dom().contains(k) ==> final(self).games@[k]
                            == old(self).games@[k]
                }
            },
    {
        match self.games.remove(&id) {
            None => None,
            Some(mut g) => {
                let r = g.apply_mark(index);
                match r {
                    Some(card) => Some(card),
                    None => {
                        self.games.insert(id, g);
                        None
                    },
                }
            },
        }
    }
}

} // verus!
