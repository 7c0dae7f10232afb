//! A verified Yahtzee engine: the scoring rules, the per-turn state machine,
//! a registry of sessions in progress, and a round-trippable scorecard record.

pub mod archive;
pub mod category;
pub mod codec;
pub mod models;
pub mod registry;
pub mod scoring;
pub mod session;

use vstd::prelude::*;

pub use category::CardField;
pub use models::{
    ErrorTemplateArgs, IndexTemplateArgs, IndexTemplateScore, RollForm, ScorecardTemplateArgs,
    ScorecardTemplateScore,
};
pub use registry::GamesInProgress;
pub use scoring::calculate_score;
pub use session::GameInProgress;

verus! {

/// One die: a face value and whether the player is holding it.
#[derive(Copy, Clone, PartialEq, Eq, Structural, Debug)]
pub struct Die {
    pub value: u16,
    pub held: bool,
}

impl Die {
    /// A die is well formed when its face is one of the six sides.
    pub open spec fn wf(self) -> bool {
        1 <= self.value <= 6
    }
}

/// Relies on rand::random_range: a value drawn from the given non-empty range.
/// Nothing is assumed beyond the result lying in the range.
#[verifier::external_body]
pub(crate) fn roll_die() -> (d: Die)
    ensures
        d.wf(),
        !d.held,
{
    Die { value: rand::random_range(1..=6), held: false }
}

} // verus!
