//! The per-session state machine: a hand of five dice, the rolls used this
//! turn, and the categories already filled.

use vstd::prelude::*;

use crate::category::{field_ord, spec_card_fields, CardField};
use crate::models::{
    sum_entries, IndexTemplateArgs, IndexTemplateScore, RollForm, ScorecardTemplateArgs,
    ScorecardTemplateScore,
};
use crate::roll_die;
use crate::scoring::{calculate_score, dice_values, spec_score, wf_dice};
use crate::Die;

verus! {

/// A game in progress. `fields` maps each category, by its ordinal in the
/// fixed order, to its score once marked.
pub struct GameInProgress {
    pub fields: Vec<Option<u16>>,
    pub rolls: u8,
    pub dice: [Die; 5],
}

/// How many categories of `s` are filled.
pub open spec fn filled_count(s: Seq<Option<u16>>) -> int
    decreases s.len(),
{
    if s.len() == 0 {
        0
    } else {
        filled_count(s.drop_last()) + if s.last() is Some {
            1int
        } else {
            0int
        }
    }
}

/// The sum of the scores already marked.
pub open spec fn filled_total(s: Seq<Option<u16>>) -> int
    decreases s.len(),
{
    if s.len() == 0 {
        0
    } else {
        filled_total(s.drop_last()) + match s.last() {
            Some(v) => v as int,
            None => 0,
        }
    }
}

/// The joker bonus is available unless Yahtzee was already scored as zero.
pub open spec fn spec_joker(fields: Seq<Option<u16>>) -> bool {
    match fields[field_ord(CardField::Yahtzee)] {
        None => true,
        Some(x) => x != 0,
    }
}

/// How a roll relates the state before to the state after: a fourth roll in a
/// turn changes nothing; otherwise the roll count rises, held dice keep their
/// value, and the rest are replaced by fresh ones.
pub open spec fn roll_post(pre: GameInProgress, post: GameInProgress, mask: RollForm) -> bool {
    if pre.rolls >= 3 {
        post.fields@ == pre.fields@ && post.rolls == pre.rolls && post.dice@ == pre.dice@
    } else {
        &&& post.fields@ == pre.fields@
        &&& post.rolls == pre.rolls + 1
        &&& wf_dice(post.dice@)
        &&& pre.rolls == 0 ==> forall|i: int| 0 <= i < 5 ==> !(#[trigger] post.dice@[i]).held
        &&& pre.rolls > 0 ==> forall|i: int|
            0 <= i < 5 ==> #[trigger] post.dice@[i] == if mask.mask_at(i) {
                Die { value: pre.dice@[i].value, held: true }
            } else {
                post.dice@[i]
            } && (!mask.mask_at(i) ==> !post.dice@[i].held)
    }
}

/// How a mark relates the state before to the state after, and what it hands
/// back. Marking with no roll made, an index out of range, or a category
/// already filled changes nothing. Otherwise the category receives the score
/// of the current hand; the turn then restarts, except that filling the
/// thirteenth category seals the game and yields the scorecard.
pub open spec fn mark_post(
    pre: GameInProgress,
    post: GameInProgress,
    index: int,
    r: Option<ScorecardTemplateArgs>,
) -> bool {
    if pre.rolls == 0 || index < 0 || index >= 13 || pre.fields@[index] is Some {
        &&& post.fields@ == pre.fields@
        &&& post.rolls == pre.rolls
        &&& post.dice@ == pre.dice@
        &&& r is None
    } else {
        &&& post.fields@ == pre.fields@.update(
            index,
            Some(
                spec_score(
                    spec_card_fields()[index],
                    dice_values(pre.dice@),
                    spec_joker(pre.fields@),
                ) as u16,
            ),
        )
        &&& post.dice@ == pre.dice@
        &&& if filled_count(post.fields@) == 13 {
            &&& post.rolls == pre.rolls
            &&& r is Some
            &&& r->0.wf()
            &&& forall|i: int|
                0 <= i < 13 ==> (#[trigger] r->0.scores@[i]).value == post.fields@[i]->0
        } else {
            post.rolls == 0 && r is None
        }
    }
}

impl GameInProgress {
    /// A session is well formed: one slot per category, at most three rolls,
    /// five well-formed dice.
    pub open spec fn wf(&self) -> bool {
        &&& self.fields@.len() == 13
        &&& self.rolls <= 3
        &&& wf_dice(self.dice@)
        &&& forall|i: int| 0 <= i < 13 ==> ((#[trigger] self.fields@[i]) is Some ==> self.fields@[i]->0 <= 100)
    }

    /// A fresh session: nothing filled, no roll made this turn.
    pub fn fresh() -> (g: GameInProgress)
        ensures
            g.wf(),
            g.rolls == 0,
            forall|i: int| 0 <= i < 13 ==> g.fields@[i] is None,
    {
        let mut fields: Vec<Option<u16>> = Vec::new();
        let mut j: usize = 0;
        while j < 13
            invariant
                fields@.len() == j,
                0 <= j <= 13,
                forall|i: int| 0 <= i < j ==> fields@[i] is None,
            decreases 13 - j,
        {
            fields.push(None);
            j = j + 1;
        }
        GameInProgress {
            fields,
            rolls: 0,
            dice: [roll_die(), roll_die(), roll_die(), roll_die(), roll_die()],
        }
    }

    /// Whether the joker bonus would apply to the current hand.
    pub fn joker_eligible(&self) -> (r: bool)
        requires
            self.wf(),
        ensures
            r == spec_joker(self.fields@),
    {
        match self.fields[11] {
            None => true,
            Some(x) => x != 0,
        }
    }

    /// How many categories are filled.
    pub fn filled_len(&self) -> (n: usize)
        requires
            self.wf(),
        ensures
            n == filled_count(self.fields@),
            n <= 13,
    {
        let mut n: usize = 0;
        let mut j: usize = 0;
        while j < 13
            invariant
                self.fields@.len() == 13,
                0 <= j <= 13,
                n == filled_count(self.fields@.subrange(0, j as int)),
                n <= j,
            decreases 13 - j,
        {
            proof {
                assert(self.fields@.subrange(0, j + 1).drop_last() =~= self.fields@.subrange(
                    0,
                    j as int,
                ));
                assert(self.fields@.subrange(0, j + 1).last() == self.fields@[j as int]);
            }
            if self.fields[j].is_some() {
                n = n + 1;
            }
            j = j + 1;
        }
        proof {
            assert(self.fields@.subrange(0, 13) =~= self.fields@);
        }
        n
    }

    /// Roll the dice. A fourth roll in a turn is silently ignored. The first
    /// roll of a turn replaces all five dice; later rolls keep the dice whose
    /// mask flag is set and replace the rest.
    pub fn apply_roll(&mut self, mask: RollForm)
        requires
            old(self).wf(),
        ensures
            final(self).wf(),
            roll_post(*old(self), *final(self), mask),
    {
        if self.rolls >= 3 {
            return ;
        }
        self.rolls = self.rolls + 1;
        if self.rolls == 1 {
            self.dice = [roll_die(), roll_die(), roll_die(), roll_die(), roll_die()];
        } else {
            let d0 = if mask.die1 {
                Die { value: self.dice[0].value, held: true }
            } else {
                roll_die()
            };
            let d1 = if mask.die2 {
                Die { value: self.dice[1].value, held: true }
            } else {
                roll_die()
            };
            let d2 = if mask.die3 {
                Die { value: self.dice[2].value, held: true }
            } else {
                roll_die()
            };
            let d3 = if mask.die4 {
                Die { value: self.dice[3].value, held: true }
            } else {
                roll_die()
            };
            let d4 = if mask.die5 {
                Die { value: self.dice[4].value, held: true }
            } else {
                roll_die()
            };
            self.dice = [d0, d1, d2, d3, d4];
        }
    }

    /// Mark a category with the current hand. Marking before any roll, with an
    /// index out of range, or a category already filled is silently ignored.
    /// Filling the thirteenth category seals the game and returns its
    /// scorecard; otherwise the next turn begins.
    pub fn apply_mark(&mut self, index: usize) -> (r: Option<ScorecardTemplateArgs>)
        requires
            old(self).wf(),
        ensures
            final(self).wf(),
            mark_post(*old(self), *final(self), index as int, r),
    {
        if self.rolls == 0 || index >= 13 {
            return None;
        }
        if self.fields[index].is_some() {
            return None;
        }
        let fields_arr = CardField::values();
        let joker = self.joker_eligible();
        let score = calculate_score(fields_arr[index], self.dice, joker);
        self.fields.set(index, Some(score));
        let filled = self.filled_len();
        if filled == 13 {
            let card = self.to_scorecard();
            Some(card)
        } else {
            self.rolls = 0;
            None
        }
    }

    /// The sealed scorecard of a fully filled session: the thirteen entries in
    /// the fixed order with their total.
    pub fn to_scorecard(&self) -> (card: ScorecardTemplateArgs)
        requires
            self.wf(),
            filled_count(self.fields@) == 13,
        ensures
            card.wf(),
            forall|i: int| 0 <= i < 13 ==> (#[trigger] card.scores@[i]).value == self.fields@[i]->0,
    {
        proof {
            lemma_filled_all(self.fields@);
        }
        let fields_arr = CardField::values();
        let mut scores: Vec<ScorecardTemplateScore> = Vec::new();
        let mut total: u16 = 0;
        let mut j: usize = 0;
        while j < 13
            invariant
                self.wf(),
                forall|i: int| 0 <= i < 13 ==> self.fields@[i] is Some,
                fields_arr@ == spec_card_fields(),
                0 <= j <= 13,
                scores@.len() == j,
                forall|i: int|
                    0 <= i < j ==> (#[trigger] scores@[i]).kind@ == crate::category::spec_field_name(
                        spec_card_fields()[i],
                    ) && scores@[i].value == self.fields@[i]->0,
                total == sum_entries(scores@),
                total <= j * 100,
            decreases 13 - j,
        {
            let value = match self.fields[j] {
                Some(v) => v,
                None => 0,
            };
            let entry = ScorecardTemplateScore { kind: fields_arr[j].display_name(), value };
            let ghost prev = scores@;
            scores.push(entry);
            proof {
                assert(scores@.drop_last() =~= prev);
            }
            total = total + value;
            j = j + 1;
        }
        ScorecardTemplateArgs { scores, total }
    }

    /// The read-only index view of this session: one row per category with its
    /// value, whether it can be marked now, and the score marking it would
    /// earn; the running total; the dice; the rolls remaining.
    pub fn index_view(&self) -> (view: IndexTemplateArgs)
        requires
            self.wf(),
        ensures
            view.scores@.len() == 13,
            forall|i: int|
                0 <= i < 13 ==> {
                    let row = #[trigger] view.scores@[i];
                    &&& row.kind@ == crate::category::spec_field_name(spec_card_fields()[i])
                    &&& row.value == self.fields@[i]
                    &&& row.markable == (self.fields@[i] is None && self.rolls > 0)
                    &&& (self.fields@[i] is None ==> row.potential == spec_score(
                        spec_card_fields()[i],
                        dice_values(self.dice@),
                        spec_joker(self.fields@),
                    ))
                    &&& (self.fields@[i] is Some ==> row.potential == 0)
                },
            view.total == filled_total(self.fields@),
            view.dice@ == self.dice@,
            view.rolls_remaining == 3 - self.rolls,
    {
        let fields_arr = CardField::values();
        let joker = self.joker_eligible();
        let mut scores: Vec<IndexTemplateScore> = Vec::new();
        let mut total: u16 = 0;
        let mut j: usize = 0;
        while j < 13
            invariant
                self.wf(),
                fields_arr@ == spec_card_fields(),
                joker == spec_joker(self.fields@),
                0 <= j <= 13,
                scores@.len() == j,
                total == filled_total(self.fields@.subrange(0, j as int)),
                total <= j * 100,
                forall|i: int|
                    0 <= i < j ==> {
                        let row = #[trigger] scores@[i];
                        &&& row.kind@ == crate::category::spec_field_name(spec_card_fields()[i])
                        &&& row.value == self.fields@[i]
                        &&& row.markable == (self.fields@[i] is None && self.rolls > 0)
                        &&& (self.fields@[i] is None ==> row.potential == spec_score(
                            spec_card_fields()[i],
                            dice_values(self.dice@),
                            spec_joker(self.fields@),
                        ))
                        &&& (self.fields@[i] is Some ==> row.potential == 0)
                    },
            decreases 13 - j,
        {
            proof {
                assert(self.fields@.subrange(0, j + 1).drop_last() =~= self.fields@.subrange(
                    0,
                    j as int,
                ));
                assert(self.fields@.subrange(0, j + 1).last() == self.fields@[j as int]);
            }
            let value = self.fields[j];
            let potential = match value {
                Some(v) => {
                    total = total + v;
                    0u16
                },
                None => calculate_score(fields_arr[j], self.dice, joker),
            };
            let row = IndexTemplateScore {
                kind: fields_arr[j].display_name(),
                value,
                markable: value.is_none() && self.rolls > 0,
                potential,
            };
            scores.push(row);
            j = j + 1;
        }
        proof {
            assert(self.fields@.subrange(0, 13) =~= self.fields@);
        }
        IndexTemplateArgs {
            scores,
            total,
            dice: self.dice,
            rolls_remaining: 3 - self.rolls,
        }
    }
}

/// Thirteen filled slots out of thirteen leave none empty.
pub proof fn lemma_filled_all(s: Seq<Option<u16>>)
    requires
        s.len() == 13,
        filled_count(s) == 13,
    ensures
        forall|i: int| 0 <= i < 13 ==> s[i] is Some,
{
    lemma_filled_count_full(s);
}

/// A sequence whose filled count equals its length is filled everywhere, and
/// the count never exceeds the length.
proof fn lemma_filled_count_full(s: Seq<Option<u16>>)
    ensures
        0 <= filled_count(s) <= s.len(),
        filled_count(s) == s.len() ==> forall|i: int| 0 <= i < s.len() ==> s[i] is Some,
    decreases s.len(),
{
    if s.len() > 0 {
        lemma_filled_count_full(s.drop_last());
        if filled_count(s) == s.len() {
            assert forall|i: int| 0 <= i < s.len() implies s[i] is Some by {
                if i < s.len() - 1 {
                    assert(s.drop_last()[i] == s[i]);
                }
            }
        }
    }
}

/// Marking a category a second time is a no-op: once the first mark succeeds,
/// a repeated mark with the same index leaves the session unchanged and seals
/// nothing.
pub proof fn lemma_mark_idempotent(
    g0: GameInProgress,
    g1: GameInProgress,
    g2: GameInProgress,
    index: int,
    r1: Option<ScorecardTemplateArgs>,
    r2: Option<ScorecardTemplateArgs>,
)
    requires
        g0.wf(),
        0 <= index < 13,
        g0.rolls > 0,
        g0.fields@[index] is None,
        mark_post(g0, g1, index, r1),
        mark_post(g1, g2, index, r2),
    ensures
        g1.fields@[index] is Some,
        g2.fields@ == g1.fields@,
        g2.rolls == g1.rolls,
        g2.dice@ == g1.dice@,
        r2 is None,
{
    assert(g1.fields@[index] is Some);
}

} // verus!
