//! The scoring engine: a pure function from a category, a five-die hand and
//! the Yahtzee-joker eligibility to a point value.

use vstd::prelude::*;

use crate::category::CardField;
use crate::Die;

verus! {

/// How many entries of `s` equal `v`.
pub open spec fn count_eq(s: Seq<u16>, v: u16) -> int
    decreases s.len(),
{
    if s.len() == 0 {
        0
    } else {
        count_eq(s.drop_last(), v) + if s.last() == v {
            1int
        } else {
            0int
        }
    }
}

/// The sum of all entries of `s`.
pub open spec fn sum_of(s: Seq<u16>) -> int
    decreases s.len(),
{
    if s.len() == 0 {
        0
    } else {
        sum_of(s.drop_last()) + s.last()
    }
}

/// All entries of `s` show the same face.
pub open spec fn all_same(s: Seq<u16>) -> bool {
    forall|i: int| 0 <= i < s.len() ==> #[trigger] s[i] == s[0]
}

/// Some entry of `s` shows face `v`.
pub open spec fn has_face(s: Seq<u16>, v: u16) -> bool {
    exists|i: int| 0 <= i < s.len() && s[i] == v
}

/// At least `n` dice share a common face.
pub open spec fn has_kind(s: Seq<u16>, n: int) -> bool {
    exists|v: u16| 1 <= v <= 6 && count_eq(s, v) >= n
}

/// The hand is exactly a three-of-a-kind plus a distinct pair.
pub open spec fn is_full_house(s: Seq<u16>) -> bool {
    exists|a: u16, b: u16| a != b && count_eq(s, a) == 3 && count_eq(s, b) == 2
}

/// The hand contains four consecutive distinct faces starting at 1, 2 or 3.
pub open spec fn is_small_straight(s: Seq<u16>) -> bool {
    ||| (has_face(s, 1) && has_face(s, 2) && has_face(s, 3) && has_face(s, 4))
    ||| (has_face(s, 2) && has_face(s, 3) && has_face(s, 4) && has_face(s, 5))
    ||| (has_face(s, 3) && has_face(s, 4) && has_face(s, 5) && has_face(s, 6))
}

/// The hand contains 2, 3, 4, 5 and either 1 or 6.
pub open spec fn is_large_straight(s: Seq<u16>) -> bool {
    has_face(s, 2) && has_face(s, 3) && has_face(s, 4) && has_face(s, 5) && (has_face(s, 1)
        || has_face(s, 6))
}

/// The face values of a hand of dice.
pub open spec fn dice_values(d: Seq<Die>) -> Seq<u16> {
    d.map_values(|x: Die| x.value)
}

/// Every die of the hand shows a face 1 through 6.
pub open spec fn wf_dice(d: Seq<Die>) -> bool {
    &&& d.len() == 5
    &&& forall|i: int| 0 <= i < 5 ==> (#[trigger] d[i]).wf()
}

/// The points a hand earns in a category.
///
/// When all five dice match and the joker bonus is available, the six
/// categories other than the numerals and Yahtzee score a fixed 100.
pub open spec fn spec_score(f: CardField, s: Seq<u16>, can_yahtzee: bool) -> int {
    match f {
        CardField::Aces => 1 * count_eq(s, 1),
        CardField::Twos => 2 * count_eq(s, 2),
        CardField::Threes => 3 * count_eq(s, 3),
        CardField::Fours => 4 * count_eq(s, 4),
        CardField::Fives => 5 * count_eq(s, 5),
        CardField::Sixes => 6 * count_eq(s, 6),
        CardField::ThreeOfAKind => if can_yahtzee && all_same(s) {
            100
        } else if has_kind(s, 3) {
            sum_of(s)
        } else {
            0
        },
        CardField::FourOfAKind => if can_yahtzee && all_same(s) {
            100
        } else if has_kind(s, 4) {
            sum_of(s)
        } else {
            0
        },
        CardField::FullHouse => if can_yahtzee && all_same(s) {
            100
        } else if is_full_house(s) {
            25
        } else {
            0
        },
        CardField::SmallStraight => if can_yahtzee && all_same(s) {
            100
        } else if is_small_straight(s) {
            30
        } else {
            0
        },
        CardField::LargeStraight => if can_yahtzee && all_same(s) {
            100
        } else if is_large_straight(s) {
            40
        } else {
            0
        },
        CardField::Yahtzee => if all_same(s) {
            50
        } else {
            0
        },
        CardField::Chance => if can_yahtzee && all_same(s) {
            100
        } else {
            sum_of(s)
        },
    }
}

/// A Yahtzee scores 50 exactly when all five dice match, and 0 otherwise,
/// whatever the joker eligibility.
pub proof fn lemma_yahtzee_iff_all_same(s: Seq<u16>, can_yahtzee: bool)
    ensures
        spec_score(CardField::Yahtzee, s, can_yahtzee) == 50 <==> all_same(s),
        !all_same(s) ==> spec_score(CardField::Yahtzee, s, can_yahtzee) == 0,
{
}

/// With all five dice equal and the joker bonus available, each category other
/// than the numerals and Yahtzee scores the fixed bonus of 100.
pub proof fn lemma_joker_bonus(f: CardField, s: Seq<u16>)
    requires
        all_same(s),
        f == CardField::ThreeOfAKind || f == CardField::FourOfAKind || f == CardField::FullHouse
            || f == CardField::SmallStraight || f == CardField::LargeStraight || f
            == CardField::Chance,
    ensures
        spec_score(f, s, true) == 100,
{
}

/// A positive count means the face occurs in the hand.
pub proof fn lemma_count_pos(s: Seq<u16>, v: u16)
    ensures
        count_eq(s, v) > 0 ==> has_face(s, v),
        has_face(s, v) ==> count_eq(s, v) > 0,
        0 <= count_eq(s, v) <= s.len(),
    decreases s.len(),
{
    if s.len() > 0 {
        lemma_count_pos(s.drop_last(), v);
        if has_face(s, v) {
            let i = choose|i: int| 0 <= i < s.len() && s[i] == v;
            if i < s.len() - 1 {
                assert(s.drop_last()[i] == v);
                assert(has_face(s.drop_last(), v));
            } else {
                assert(s[s.len() - 1] == v);
            }
        }
        if has_face(s.drop_last(), v) {
            let i = choose|i: int| 0 <= i < s.drop_last().len() && s.drop_last()[i] == v;
            assert(s[i] == v);
        }
    }
}

fn count_face(vals: &[u16; 5], v: u16) -> (n: u8)
    ensures
        n == count_eq(vals@, v),
        n <= 5,
{
    let mut n: u8 = 0;
    let mut j: usize = 0;
    while j < 5
        invariant
            0 <= j <= 5,
            n == count_eq(vals@.subrange(0, j as int), v),
            n <= j,
        decreases 5 - j,
    {
        proof {
            assert(vals@.subrange(0, j + 1).drop_last() =~= vals@.subrange(0, j as int));
            assert(vals@.subrange(0, j + 1).last() == vals@[j as int]);
        }
        if vals[j] == v {
            n = n + 1;
        }
        j = j + 1;
    }
    proof {
        assert(vals@.subrange(0, 5) =~= vals@);
    }
    n
}

fn sum_dice(vals: &[u16; 5]) -> (r: u16)
    requires
        forall|i: int| 0 <= i < 5 ==> 1 <= #[trigger] vals@[i] <= 6,
    ensures
        r == sum_of(vals@),
        r <= 30,
{
    let mut r: u16 = 0;
    let mut j: usize = 0;
    while j < 5
        invariant
            0 <= j <= 5,
            r == sum_of(vals@.subrange(0, j as int)),
            r <= 6 * j,
            forall|i: int| 0 <= i < 5 ==> 1 <= #[trigger] vals@[i] <= 6,
        decreases 5 - j,
    {
        proof {
            assert(vals@.subrange(0, j + 1).drop_last() =~= vals@.subrange(0, j as int));
            assert(vals@.subrange(0, j + 1).last() == vals@[j as int]);
        }
        r = r + vals[j];
        j = j + 1;
    }
    proof {
        assert(vals@.subrange(0, 5) =~= vals@);
    }
    r
}

fn all_same_exec(vals: &[u16; 5]) -> (r: bool)
    ensures
        r == all_same(vals@),
{
    let r = vals[1] == vals[0] && vals[2] == vals[0] && vals[3] == vals[0] && vals[4] == vals[0];
    proof {
        if r {
            assert forall|i: int| 0 <= i < 5 implies #[trigger] vals@[i] == vals@[0] by {}
        }
    }
    r
}

fn contains_face(vals: &[u16; 5], v: u16) -> (r: bool)
    ensures
        r == has_face(vals@, v),
{
    let mut j: usize = 0;
    while j < 5
        invariant
            0 <= j <= 5,
            forall|k: int| 0 <= k < j ==> vals@[k] != v,
        decreases 5 - j,
    {
        if vals[j] == v {
            return true;
        }
        j = j + 1;
    }
    false
}

fn has_kind_exec(vals: &[u16; 5], n: u8) -> (r: bool)
    ensures
        r == has_kind(vals@, n as int),
{
    let mut v: u16 = 1;
    while v <= 6
        invariant
            1 <= v <= 7,
            forall|u: u16| 1 <= u < v ==> count_eq(vals@, u) < n,
        decreases 7 - v,
    {
        if count_face(vals, v) >= n {
            return true;
        }
        v = v + 1;
    }
    false
}

fn full_house_exec(vals: &[u16; 5]) -> (r: bool)
    requires
        forall|i: int| 0 <= i < 5 ==> 1 <= #[trigger] vals@[i] <= 6,
    ensures
        r == is_full_house(vals@),
{
    let mut found3 = false;
    let mut found2 = false;
    let mut v: u16 = 1;
    while v <= 6
        invariant
            1 <= v <= 7,
            found3 == exists|u: u16| 1 <= u < v && count_eq(vals@, u) == 3,
            found2 == exists|u: u16| 1 <= u < v && count_eq(vals@, u) == 2,
        decreases 7 - v,
    {
        let c = count_face(vals, v);
        if c == 3 {
            found3 = true;
        }
        if c == 2 {
            found2 = true;
        }
        v = v + 1;
    }
    proof {
        if found3 && found2 {
            let a = choose|u: u16| 1 <= u < 7 && count_eq(vals@, u) == 3;
            let b = choose|u: u16| 1 <= u < 7 && count_eq(vals@, u) == 2;
            assert(a != b);
            assert(is_full_house(vals@));
        }
        if is_full_house(vals@) {
            let (a, b) = choose|a: u16, b: u16|
                a != b && count_eq(vals@, a) == 3 && count_eq(vals@, b) == 2;
            lemma_count_pos(vals@, a);
            lemma_count_pos(vals@, b);
            let ia = choose|i: int| 0 <= i < 5 && vals@[i] == a;
            let ib = choose|i: int| 0 <= i < 5 && vals@[i] == b;
            assert(1 <= a <= 6);
            assert(1 <= b <= 6);
        }
    }
    found3 && found2
}

/// The points that marking `field` with the hand `dice` would earn, under the
/// given joker eligibility.
pub fn calculate_score(field: CardField, dice: [Die; 5], can_yahtzee: bool) -> (r: u16)
    requires
        wf_dice(dice@),
    ensures
        r == spec_score(field, dice_values(dice@), can_yahtzee),
        r <= 100,
{
    let vals: [u16; 5] = [dice[0].value, dice[1].value, dice[2].value, dice[3].value,
        dice[4].value];
    proof {
        assert(vals@ =~= dice_values(dice@));
    }
    match field {
        CardField::Aces => 1 * (count_face(&vals, 1) as u16),
        CardField::Twos => 2 * (count_face(&vals, 2) as u16),
        CardField::Threes => 3 * (count_face(&vals, 3) as u16),
        CardField::Fours => 4 * (count_face(&vals, 4) as u16),
        CardField::Fives => 5 * (count_face(&vals, 5) as u16),
        CardField::Sixes => 6 * (count_face(&vals, 6) as u16),
        CardField::ThreeOfAKind => {
            if can_yahtzee && all_same_exec(&vals) {
                100
            } else if has_kind_exec(&vals, 3) {
                sum_dice(&vals)
            } else {
                0
            }
        },
        CardField::FourOfAKind => {
            if can_yahtzee && all_same_exec(&vals) {
                100
            } else if has_kind_exec(&vals, 4) {
                sum_dice(&vals)
            } else {
                0
            }
        },
        CardField::FullHouse => {
            if can_yahtzee && all_same_exec(&vals) {
                100
            } else if full_house_exec(&vals) {
                25
            } else {
                0
            }
        },
        CardField::SmallStraight => {
            if can_yahtzee && all_same_exec(&vals) {
                100
            } else if (contains_face(&vals, 1) && contains_face(&vals, 2) && contains_face(
                &vals,
                3,
            ) && contains_face(&vals, 4)) || (contains_face(&vals, 2) && contains_face(&vals, 3)
                && contains_face(&vals, 4) && contains_face(&vals, 5)) || (contains_face(&vals, 3)
                && contains_face(&vals, 4) && contains_face(&vals, 5) && contains_face(&vals, 6)) {
                30
            } else {
                0
            }
        },
        CardField::LargeStraight => {
            if can_yahtzee && all_same_exec(&vals) {
                100
            } else if contains_face(&vals, 2) && contains_face(&vals, 3) && contains_face(&vals, 4)
                && contains_face(&vals, 5) && (contains_face(&vals, 1) || contains_face(&vals, 6)) {
                40
            } else {
                0
            }
        },
        CardField::Yahtzee => {
            if all_same_exec(&vals) {
                50
            } else {
                0
            }
        },
        CardField::Chance => {
            if can_yahtzee && all_same_exec(&vals) {
                100
            } else {
                sum_dice(&vals)
            }
        },
    }
}

} // verus!
