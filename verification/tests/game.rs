use yahtzee::archive::{mark_and_archive, ScorecardArchive};
use yahtzee::codec::{decode_scorecard, encode_scorecard};
use yahtzee::CardField;
use yahtzee::Die;
use yahtzee::GameInProgress;
use yahtzee::GamesInProgress;
use yahtzee::RollForm;
use yahtzee::ScorecardTemplateArgs;
use yahtzee::ScorecardTemplateScore;

fn keep_all() -> RollForm {
    RollForm { die1: true, die2: true, die3: true, die4: true, die5: true }
}

fn keep_none() -> RollForm {
    RollForm { die1: false, die2: false, die3: false, die4: false, die5: false }
}

fn session(rolls: u8, dice: [u16; 5]) -> GameInProgress {
    GameInProgress {
        fields: vec![None; 13],
        rolls,
        dice: [
            Die { value: dice[0], held: false },
            Die { value: dice[1], held: false },
            Die { value: dice[2], held: false },
            Die { value: dice[3], held: false },
            Die { value: dice[4], held: false },
        ],
    }
}

#[test]
fn fresh_session_has_valid_dice() {
    let g = GameInProgress::fresh();
    assert_eq!(g.rolls, 0);
    assert_eq!(g.fields.len(), 13);
    assert!(g.fields.iter().all(|f| f.is_none()));
    for d in g.dice.iter() {
        assert!((1..=6).contains(&d.value));
        assert!(!d.held);
    }
}

#[test]
fn fourth_roll_changes_nothing() {
    let mut g = session(3, [1, 2, 3, 4, 5]);
    let dice_before: Vec<u16> = g.dice.iter().map(|d| d.value).collect();
    g.apply_roll(keep_none());
    let dice_after: Vec<u16> = g.dice.iter().map(|d| d.value).collect();
    assert_eq!(g.rolls, 3);
    assert_eq!(dice_before, dice_after);
    assert!(g.fields.iter().all(|f| f.is_none()));
}

#[test]
fn held_dice_keep_their_value() {
    let mut g = session(1, [1, 2, 3, 4, 5]);
    g.apply_roll(keep_all());
    assert_eq!(g.rolls, 2);
    let values: Vec<u16> = g.dice.iter().map(|d| d.value).collect();
    assert_eq!(values, vec![1, 2, 3, 4, 5]);
    assert!(g.dice.iter().all(|d| d.held));
}

#[test]
fn partial_hold_keeps_only_masked_dice() {
    let mut g = session(1, [6, 1, 6, 1, 6]);
    let mask = RollForm { die1: true, die2: false, die3: true, die4: false, die5: true };
    g.apply_roll(mask);
    assert_eq!(g.rolls, 2);
    assert_eq!(g.dice[0].value, 6);
    assert!(g.dice[0].held);
    assert_eq!(g.dice[2].value, 6);
    assert!(g.dice[2].held);
    assert_eq!(g.dice[4].value, 6);
    assert!(g.dice[4].held);
    assert!(!g.dice[1].held);
    assert!(!g.dice[3].held);
    assert!((1..=6).contains(&g.dice[1].value));
    assert!((1..=6).contains(&g.dice[3].value));
}

#[test]
fn first_roll_replaces_all_dice() {
    let mut g = session(0, [1, 2, 3, 4, 5]);
    g.apply_roll(keep_all());
    assert_eq!(g.rolls, 1);
    for d in g.dice.iter() {
        assert!((1..=6).contains(&d.value));
        assert!(!d.held);
    }
}

#[test]
fn mark_before_any_roll_is_ignored() {
    let mut g = session(0, [2, 2, 2, 3, 3]);
    let r = g.apply_mark(8);
    assert!(r.is_none());
    assert!(g.fields.iter().all(|f| f.is_none()));
    assert_eq!(g.rolls, 0);
}

#[test]
fn mark_out_of_range_is_ignored() {
    let mut g = session(1, [2, 2, 2, 3, 3]);
    let r = g.apply_mark(13);
    assert!(r.is_none());
    assert!(g.fields.iter().all(|f| f.is_none()));
    assert_eq!(g.rolls, 1);
}

#[test]
fn marking_filled_category_is_ignored() {
    let mut g = session(2, [2, 2, 2, 3, 3]);
    g.fields[8] = Some(25);
    let r = g.apply_mark(8);
    assert!(r.is_none());
    assert_eq!(g.fields[8], Some(25));
    assert_eq!(g.rolls, 2);
}

#[test]
fn repeated_mark_is_a_no_op() {
    let mut g = session(2, [2, 2, 2, 3, 3]);
    let r1 = g.apply_mark(8);
    assert!(r1.is_none());
    assert_eq!(g.fields[8], Some(25));
    assert_eq!(g.rolls, 0);
    g.rolls = 1;
    let fields_before = g.fields.clone();
    let r2 = g.apply_mark(8);
    assert!(r2.is_none());
    assert_eq!(g.fields, fields_before);
    assert_eq!(g.rolls, 1);
}

#[test]
fn mark_scores_with_joker_eligibility() {
    // Yahtzee already scored as zero: the joker bonus is off.
    let mut g = session(1, [4, 4, 4, 4, 4]);
    g.fields[11] = Some(0);
    g.apply_mark(8);
    assert_eq!(g.fields[8], Some(0));

    // Yahtzee scored non-zero: the bonus applies.
    let mut g = session(1, [4, 4, 4, 4, 4]);
    g.fields[11] = Some(50);
    g.apply_mark(8);
    assert_eq!(g.fields[8], Some(100));

    // Yahtzee not yet scored: the bonus applies too.
    let mut g = session(1, [4, 4, 4, 4, 4]);
    g.apply_mark(6);
    assert_eq!(g.fields[6], Some(100));
}

#[test]
fn index_view_reports_rows() {
    let mut g = session(1, [3, 3, 3, 5, 5]);
    g.fields[0] = Some(3);
    let view = g.index_view();
    assert_eq!(view.scores.len(), 13);
    assert_eq!(view.rolls_remaining, 2);
    assert_eq!(view.total, 3);
    let aces = &view.scores[0];
    assert_eq!(aces.kind, "Aces");
    assert_eq!(aces.value, Some(3));
    assert!(!aces.markable);
    assert_eq!(aces.potential, 0);
    let full_house = &view.scores[8];
    assert_eq!(full_house.kind, "Full house");
    assert_eq!(full_house.value, None);
    assert!(full_house.markable);
    assert_eq!(full_house.potential, 25);
}

#[test]
fn registry_creates_and_removes() {
    let mut registry = GamesInProgress::new();
    assert!(!registry.contains(9));
    registry.get_or_create(9);
    assert!(registry.contains(9));
    assert!(registry.get(9).is_some());
    registry.get_or_create(9);
    assert!(registry.contains(9));
    registry.remove(9);
    assert!(!registry.contains(9));
    assert!(registry.get(9).is_none());
}

#[test]
fn completing_a_game_archives_the_scorecard() {
    let id: u128 = 0x1234_5678_9abc_def0;
    let mut registry = GamesInProgress::new();
    let mut archive = ScorecardArchive::new();
    registry.get_or_create(id);
    for index in 0..13usize {
        registry.roll(id, keep_none());
        let completed = mark_and_archive(&mut registry, &mut archive, id, index);
        assert_eq!(completed, index == 12);
    }
    assert!(!registry.contains(id));
    let card = archive.load(id).expect("completed game must be archived");
    assert_eq!(card.scores.len(), 13);
    let names: Vec<String> = card.scores.iter().map(|e| e.kind.clone()).collect();
    let expected: Vec<String> =
        CardField::values().iter().map(|c| c.display_name()).collect();
    assert_eq!(names, expected);
    let sum: u32 = card.scores.iter().map(|e| e.value as u32).sum();
    assert_eq!(sum, card.total as u32);
}

#[test]
fn archive_saves_only_once() {
    let mut archive = ScorecardArchive::new();
    let card = sample_card();
    let again = sample_card();
    assert!(archive.save(5, card));
    assert!(!archive.save(5, again));
    assert_eq!(archive.load(5).unwrap().total, 47);
    assert!(archive.load(6).is_none());
}

fn sample_card() -> ScorecardTemplateArgs {
    let values: [u16; 13] = [3, 0, 9, 4, 0, 6, 0, 0, 25, 0, 0, 0, 0];
    let scores: Vec<ScorecardTemplateScore> = CardField::values()
        .iter()
        .zip(values.iter())
        .map(|(c, v)| ScorecardTemplateScore { kind: c.display_name(), value: *v })
        .collect();
    let total: u16 = values.iter().sum();
    ScorecardTemplateArgs { scores, total }
}

#[test]
fn scorecard_record_round_trips() {
    let card = sample_card();
    let bytes = encode_scorecard(&card);
    assert_eq!(bytes.len(), 28);
    let back = decode_scorecard(&bytes).expect("canonical record must decode");
    assert_eq!(back.total, card.total);
    assert_eq!(back.scores.len(), card.scores.len());
    for (a, b) in back.scores.iter().zip(card.scores.iter()) {
        assert_eq!(a.kind, b.kind);
        assert_eq!(a.value, b.value);
    }
}

#[test]
fn decode_rejects_damaged_records() {
    let card = sample_card();
    let bytes = encode_scorecard(&card);
    assert!(decode_scorecard(&bytes[..27].to_vec()).is_none());
    let mut wrong_total = bytes.clone();
    wrong_total[27] = wrong_total[27].wrapping_add(1);
    assert!(decode_scorecard(&wrong_total).is_none());
}
