//! The fixed catalog of the thirteen scoring categories.
//!
//! The order of the catalog is part of the interface: it fixes both the
//! display order and the index used to mark a category.

use vstd::prelude::*;

verus! {

/// One of the thirteen scoring categories, in their fixed order.
#[derive(Copy, Clone, Debug, PartialEq, Eq, Structural)]
pub enum CardField {
    Aces,
    Twos,
    Threes,
    Fours,
    Fives,
    Sixes,
    ThreeOfAKind,
    FourOfAKind,
    FullHouse,
    SmallStraight,
    LargeStraight,
    Yahtzee,
    Chance,
}

/// The catalog as a sequence, in the fixed order.
pub open spec fn spec_card_fields() -> Seq<CardField> {
    seq![
        CardField::Aces,
        CardField::Twos,
        CardField::Threes,
        CardField::Fours,
        CardField::Fives,
        CardField::Sixes,
        CardField::ThreeOfAKind,
        CardField::FourOfAKind,
        CardField::FullHouse,
        CardField::SmallStraight,
        CardField::LargeStraight,
        CardField::Yahtzee,
        CardField::Chance,
    ]
}

/// The ordinal of a category within the fixed order.
pub open spec fn field_ord(c: CardField) -> int {
    match c {
        CardField::Aces => 0,
        CardField::Twos => 1,
        CardField::Threes => 2,
        CardField::Fours => 3,
        CardField::Fives => 4,
        CardField::Sixes => 5,
        CardField::ThreeOfAKind => 6,
        CardField::FourOfAKind => 7,
        CardField::FullHouse => 8,
        CardField::SmallStraight => 9,
        CardField::LargeStraight => 10,
        CardField::Yahtzee => 11,
        CardField::Chance => 12,
    }
}

/// The display name of a category.
pub open spec fn spec_field_name(c: CardField) -> Seq<char> {
    match c {
        CardField::Aces => "Aces"@,
        CardField::Twos => "Twos"@,
        CardField::Threes => "Threes"@,
        CardField::Fours => "Fours"@,
        CardField::Fives => "Fives"@,
        CardField::Sixes => "Sixes"@,
        CardField::ThreeOfAKind => "Three of a kind"@,
        CardField::FourOfAKind => "Four of a kind"@,
        CardField::FullHouse => "Full house"@,
        CardField::SmallStraight => "Small straight"@,
        CardField::LargeStraight => "Large straight"@,
        CardField::Yahtzee => "Yahtzee"@,
        CardField::Chance => "Chance"@,
    }
}

impl CardField {
    /// The thirteen categories in their fixed order.
    pub fn values() -> (r: [CardField; 13])
        ensures
            r@ == spec_card_fields(),
    {
        let r = [
            CardField::Aces,
            CardField::Twos,
            CardField::Threes,
            CardField::Fours,
            CardField::Fives,
            CardField::Sixes,
            CardField::ThreeOfAKind,
            CardField::FourOfAKind,
            CardField::FullHouse,
            CardField::SmallStraight,
            CardField::LargeStraight,
            CardField::Yahtzee,
            CardField::Chance,
        ];
        proof {
            assert(r@ =~= spec_card_fields());
        }
        r
    }

    /// The display name of this category.
    pub fn display_name(&self) -> (r: String)
        ensures
            r@ == spec_field_name(*self),
    {
        match self {
            CardField::Aces => "Aces".to_string(),
            CardField::Twos => "Twos".to_string(),
            CardField::Threes => "Threes".to_string(),
            CardField::Fours => "Fours".to_string(),
            CardField::Fives => "Fives".to_string(),
            CardField::Sixes => "Sixes".to_string(),
            CardField::ThreeOfAKind => "Three of a kind".to_string(),
            CardField::FourOfAKind => "Four of a kind".to_string(),
            CardField::FullHouse => "Full house".to_string(),
            CardField::SmallStraight => "Small straight".to_string(),
            CardField::LargeStraight => "Large straight".to_string(),
            CardField::Yahtzee => "Yahtzee".to_string(),
            CardField::Chance => "Chance".to_string(),
        }
    }
}

} // verus!
