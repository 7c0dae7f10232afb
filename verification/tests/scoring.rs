use yahtzee::calculate_score;
use yahtzee::CardField;
use yahtzee::Die;

fn hand(values: [u16; 5]) -> [Die; 5] {
    [
        Die { value: values[0], held: false },
        Die { value: values[1], held: false },
        Die { value: values[2], held: false },
        Die { value: values[3], held: false },
        Die { value: values[4], held: false },
    ]
}

#[test]
fn yahtzee_scores_fifty_on_five_equal() {
    assert_eq!(calculate_score(CardField::Yahtzee, hand([4, 4, 4, 4, 4]), true), 50);
    assert_eq!(calculate_score(CardField::Yahtzee, hand([4, 4, 4, 4, 4]), false), 50);
    assert_eq!(calculate_score(CardField::Yahtzee, hand([1, 1, 1, 1, 1]), false), 50);
}

#[test]
fn yahtzee_scores_zero_otherwise() {
    assert_eq!(calculate_score(CardField::Yahtzee, hand([4, 4, 4, 4, 5]), true), 0);
    assert_eq!(calculate_score(CardField::Yahtzee, hand([1, 2, 3, 4, 5]), false), 0);
}

#[test]
fn joker_bonus_is_one_hundred() {
    let five = hand([6, 6, 6, 6, 6]);
    assert_eq!(calculate_score(CardField::ThreeOfAKind, five, true), 100);
    assert_eq!(calculate_score(CardField::FourOfAKind, five, true), 100);
    assert_eq!(calculate_score(CardField::FullHouse, five, true), 100);
    assert_eq!(calculate_score(CardField::SmallStraight, five, true), 100);
    assert_eq!(calculate_score(CardField::LargeStraight, five, true), 100);
    assert_eq!(calculate_score(CardField::Chance, five, true), 100);
}

#[test]
fn no_joker_bonus_when_ineligible() {
    let five = hand([6, 6, 6, 6, 6]);
    assert_eq!(calculate_score(CardField::ThreeOfAKind, five, false), 30);
    assert_eq!(calculate_score(CardField::FourOfAKind, five, false), 30);
    assert_eq!(calculate_score(CardField::FullHouse, five, false), 0);
    assert_eq!(calculate_score(CardField::SmallStraight, five, false), 0);
    assert_eq!(calculate_score(CardField::LargeStraight, five, false), 0);
    assert_eq!(calculate_score(CardField::Chance, five, false), 30);
}

#[test]
fn full_house_rules() {
    assert_eq!(calculate_score(CardField::FullHouse, hand([3, 3, 3, 5, 5]), false), 25);
    assert_eq!(calculate_score(CardField::FullHouse, hand([5, 5, 3, 3, 3]), false), 25);
    assert_eq!(calculate_score(CardField::FullHouse, hand([3, 3, 3, 3, 5]), false), 0);
    assert_eq!(calculate_score(CardField::FullHouse, hand([3, 3, 5, 5, 6]), false), 0);
}

#[test]
fn straights() {
    assert_eq!(calculate_score(CardField::SmallStraight, hand([1, 2, 3, 4, 4]), false), 30);
    assert_eq!(calculate_score(CardField::SmallStraight, hand([6, 3, 4, 5, 2]), false), 30);
    assert_eq!(calculate_score(CardField::LargeStraight, hand([2, 3, 4, 5, 6]), false), 40);
    assert_eq!(calculate_score(CardField::LargeStraight, hand([1, 2, 3, 4, 5]), false), 40);
    assert_eq!(calculate_score(CardField::SmallStraight, hand([1, 2, 2, 4, 5]), false), 0);
    assert_eq!(calculate_score(CardField::LargeStraight, hand([1, 2, 2, 4, 5]), false), 0);
    assert_eq!(calculate_score(CardField::LargeStraight, hand([1, 2, 3, 4, 4]), false), 0);
}

#[test]
fn chance_sums_the_dice() {
    assert_eq!(calculate_score(CardField::Chance, hand([1, 2, 3, 4, 5]), false), 15);
    assert_eq!(calculate_score(CardField::Chance, hand([6, 6, 5, 2, 1]), false), 20);
}

#[test]
fn numerals_sum_matching_dice() {
    assert_eq!(calculate_score(CardField::Aces, hand([1, 1, 2, 3, 1]), false), 3);
    assert_eq!(calculate_score(CardField::Twos, hand([2, 2, 3, 4, 5]), false), 4);
    assert_eq!(calculate_score(CardField::Threes, hand([1, 2, 4, 5, 6]), false), 0);
    assert_eq!(calculate_score(CardField::Fours, hand([4, 4, 4, 4, 4]), false), 20);
    assert_eq!(calculate_score(CardField::Fives, hand([5, 1, 5, 1, 5]), false), 15);
    assert_eq!(calculate_score(CardField::Sixes, hand([6, 6, 1, 2, 3]), false), 12);
}

#[test]
fn kinds_sum_all_dice() {
    assert_eq!(calculate_score(CardField::ThreeOfAKind, hand([3, 3, 3, 2, 1]), false), 12);
    assert_eq!(calculate_score(CardField::ThreeOfAKind, hand([2, 2, 3, 4, 5]), false), 0);
    assert_eq!(calculate_score(CardField::FourOfAKind, hand([4, 4, 4, 4, 2]), false), 18);
    assert_eq!(calculate_score(CardField::FourOfAKind, hand([4, 4, 4, 2, 2]), false), 0);
}

#[test]
fn catalog_order_and_names() {
    let values = CardField::values();
    assert_eq!(values.len(), 13);
    assert_eq!(values[0].display_name(), "Aces");
    assert_eq!(values[5].display_name(), "Sixes");
    assert_eq!(values[6].display_name(), "Three of a kind");
    assert_eq!(values[8].display_name(), "Full house");
    assert_eq!(values[11].display_name(), "Yahtzee");
    assert_eq!(values[12].display_name(), "Chance");
}
