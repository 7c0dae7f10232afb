//! Read-only view models handed to the rendering layer, and the form carrying
//! a roll's hold mask.

use vstd::prelude::*;

use crate::category::{spec_card_fields, spec_field_name};
use crate::Die;

verus! {

/// The index view: one row per category, the running total, the current dice
/// and the rolls still available this turn.
pub struct IndexTemplateArgs {
    pub scores: Vec<IndexTemplateScore>,
    pub total: u16,
    pub dice: [Die; 5],
    pub rolls_remaining: u8,
}

/// One row of the index view.
pub struct IndexTemplateScore {
    pub kind: String,
    pub value: Option<u16>,
    pub markable: bool,
    pub potential: u16,
}

/// The hold mask sent with a roll: one flag per die, set to keep the die.
#[derive(Copy, Clone)]
pub struct RollForm {
    pub die1: bool,
    pub die2: bool,
    pub die3: bool,
    pub die4: bool,
    pub die5: bool,
}

impl RollForm {
    /// The hold flag of the die at position `i`.
    pub open spec fn mask_at(self, i: int) -> bool {
        if i == 0 {
            self.die1
        } else if i == 1 {
            self.die2
        } else if i == 2 {
            self.die3
        } else if i == 3 {
            self.die4
        } else {
            self.die5
        }
    }
}

/// A sealed scorecard: the thirteen category scores in the fixed order,
/// together with their sum.
pub struct ScorecardTemplateArgs {
    pub scores: Vec<ScorecardTemplateScore>,
    pub total: u16,
}

/// One sealed entry: a category's display name and the score it earned.
pub struct ScorecardTemplateScore {
    pub kind: String,
    pub value: u16,
}

/// The error view: the status code shown to the client.
pub struct ErrorTemplateArgs {
    pub errorcode: u16,
}

/// The sum of the scores of a scorecard's entries.
pub open spec fn sum_entries(s: Seq<ScorecardTemplateScore>) -> int
    decreases s.len(),
{
    if s.len() == 0 {
        0
    } else {
        sum_entries(s.drop_last()) + s.last().value
    }
}

impl ScorecardTemplateArgs {
    /// A sealed scorecard holds exactly the thirteen categories in their fixed
    /// order, and its total is the sum of the entries.
    pub open spec fn wf(&self) -> bool {
        &&& self.scores@.len() == 13
        &&& forall|i: int|
            0 <= i < 13 ==> (#[trigger] self.scores@[i]).kind@ == spec_field_name(
                spec_card_fields()[i],
            )
        &&& self.total as int == sum_entries(self.scores@)
    }
}

} // verus!
