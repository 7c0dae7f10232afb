//! The scorecard record format: a fixed-width byte encoding of the thirteen
//! scores and the total, written once when a game completes and read back for
//! retrieval. Decoding accepts exactly the canonical encodings, so a record
//! round-trips without loss.

use vstd::prelude::*;

use crate::category::{spec_card_fields, CardField};
use crate::models::{sum_entries, ScorecardTemplateArgs, ScorecardTemplateScore};

verus! {

/// The high byte of a score.
pub open spec fn hi(v: u16) -> u8 {
    (v / 256) as u8
}

/// The low byte of a score.
pub open spec fn lo(v: u16) -> u8 {
    (v % 256) as u8
}

/// The encoding of the entries: two bytes per score, in order.
pub open spec fn enc_entries(s: Seq<ScorecardTemplateScore>) -> Seq<u8>
    decreases s.len(),
{
    if s.len() == 0 {
        Seq::empty()
    } else {
        enc_entries(s.drop_last()) + seq![hi(s.last().value), lo(s.last().value)]
    }
}

/// The encoding of a scorecard: the thirteen scores, then the total.
pub open spec fn spec_encode(card: ScorecardTemplateArgs) -> Seq<u8> {
    enc_entries(card.scores@) + seq![hi(card.total), lo(card.total)]
}

/// The encoding of the entries is two bytes per entry.
pub proof fn lemma_enc_entries_len(s: Seq<ScorecardTemplateScore>)
    ensures
        enc_entries(s).len() == 2 * s.len(),
    decreases s.len(),
{
    if s.len() > 0 {
        lemma_enc_entries_len(s.drop_last());
    }
}

/// The two bytes of entry `i` stand at positions `2 * i` and `2 * i + 1`.
pub proof fn lemma_enc_entries_index(s: Seq<ScorecardTemplateScore>, i: int)
    requires
        0 <= i < s.len(),
    ensures
        enc_entries(s)[2 * i] == hi(s[i].value),
        enc_entries(s)[2 * i + 1] == lo(s[i].value),
    decreases s.len(),
{
    lemma_enc_entries_len(s.drop_last());
    if i < s.len() - 1 {
        lemma_enc_entries_index(s.drop_last(), i);
        assert(s.drop_last()[i] == s[i]);
    }
}

/// A score is recovered from its two bytes.
pub proof fn lemma_hi_lo(v: u16)
    ensures
        256 * (hi(v) as int) + (lo(v) as int) == v,
{
}

/// A value assembled from two bytes has exactly those bytes.
proof fn lemma_pair(b0: u8, b1: u8)
    ensures
        hi(((b0 as u16) * 256 + (b1 as u16)) as u16) == b0,
        lo(((b0 as u16) * 256 + (b1 as u16)) as u16) == b1,
{
    let v: u16 = (((b0 as u16) * 256 + (b1 as u16)) as u16);
    assert(v / 256 == b0 as u16 && v % 256 == b1 as u16) by (nonlinear_arith)
        requires
            v == (b0 as u16) * 256 + (b1 as u16),
            b1 < 256,
    ;
}

/// The scores and the total of a scorecard are readable off its encoding, so
/// two scorecards with the same encoding agree entry by entry: a record saved
/// and reloaded yields identical entries and total.
pub proof fn lemma_encode_injective(c1: ScorecardTemplateArgs, c2: ScorecardTemplateArgs)
    requires
        c1.wf(),
        c2.wf(),
        spec_encode(c1) == spec_encode(c2),
    ensures
        c1.total == c2.total,
        forall|i: int|
            0 <= i < 13 ==> (#[trigger] c1.scores@[i]).value == c2.scores@[i].value
                && c1.scores@[i].kind@ == c2.scores@[i].kind@,
{
    lemma_enc_entries_len(c1.scores@);
    lemma_enc_entries_len(c2.scores@);
    assert forall|i: int|
        0 <= i < 13 implies (#[trigger] c1.scores@[i]).value == c2.scores@[i].value
        && c1.scores@[i].kind@ == c2.scores@[i].kind@ by {
        lemma_enc_entries_index(c1.scores@, i);
        lemma_enc_entries_index(c2.scores@, i);
        assert(spec_encode(c1)[2 * i] == hi(c1.scores@[i].value));
        assert(spec_encode(c2)[2 * i] == hi(c2.scores@[i].value));
        assert(spec_encode(c1)[2 * i + 1] == lo(c1.scores@[i].value));
        assert(spec_encode(c2)[2 * i + 1] == lo(c2.scores@[i].value));
        lemma_hi_lo(c1.scores@[i].value);
        lemma_hi_lo(c2.scores@[i].value);
    }
    assert(spec_encode(c1)[26] == hi(c1.total));
    assert(spec_encode(c2)[26] == hi(c2.total));
    assert(spec_encode(c1)[27] == lo(c1.total));
    assert(spec_encode(c2)[27] == lo(c2.total));
    lemma_hi_lo(c1.total);
    lemma_hi_lo(c2.total);
}

/// Encode a sealed scorecard as its canonical record.
pub fn encode_scorecard(card: &ScorecardTemplateArgs) -> (r: Vec<u8>)
    requires
        card.wf(),
    ensures
        r@ == spec_encode(*card),
        r@.len() == 28,
{
    let mut r: Vec<u8> = Vec::new();
    let mut j: usize = 0;
    while j < 13
        invariant
            card.wf(),
            0 <= j <= 13,
            r@ == enc_entries(card.scores@.subrange(0, j as int)),
            r@.len() == 2 * j,
        decreases 13 - j,
    {
        let v = card.scores[j].value;
        r.push((v / 256) as u8);
        r.push((v % 256) as u8);
        proof {
            let sub = card.scores@.subrange(0, j + 1);
            assert(sub.drop_last() =~= card.scores@.subrange(0, j as int));
            assert(sub.last() == card.scores@[j as int]);
            assert(r@ =~= enc_entries(sub));
        }
        j = j + 1;
    }
    proof {
        assert(card.scores@.subrange(0, 13) =~= card.scores@);
    }
    r.push((card.total / 256) as u8);
    r.push((card.total % 256) as u8);
    proof {
        assert(r@ =~= spec_encode(*card));
    }
    r
}

/// Decode a scorecard record. Exactly the canonical encodings of sealed
/// scorecards are accepted: on success the record is the encoding of the
/// returned scorecard, and the encoding of any sealed scorecard is accepted.
pub fn decode_scorecard(bytes: &Vec<u8>) -> (r: Option<ScorecardTemplateArgs>)
    ensures
        match r {
            Some(card) => card.wf() && bytes@ == spec_encode(card),
            None => forall|c: ScorecardTemplateArgs| c.wf() ==> bytes@ != spec_encode(c),
        },
{
    if bytes.len() != 28 {
        proof {
            assert forall|c: ScorecardTemplateArgs| c.wf() implies bytes@ != spec_encode(c) by {
                lemma_enc_entries_len(c.scores@);
            }
        }
        return None;
    }
    let fields_arr = CardField::values();
    let mut scores: Vec<ScorecardTemplateScore> = Vec::new();
    let mut sum: u32 = 0;
    let mut j: usize = 0;
    while j < 13
        invariant
            bytes@.len() == 28,
            fields_arr@ == spec_card_fields(),
            0 <= j <= 13,
            scores@.len() == j,
            sum == sum_entries(scores@),
            sum <= j * 0xFFFF,
            forall|i: int|
                0 <= i < j ==> {
                    let e = #[trigger] scores@[i];
                    &&& e.kind@ == crate::category::spec_field_name(spec_card_fields()[i])
                    &&& hi(e.value) == bytes@[2 * i]
                    &&& lo(e.value) == bytes@[2 * i + 1]
                },
        decreases 13 - j,
    {
        let b0 = bytes[2 * j];
        let b1 = bytes[2 * j + 1];
        let v: u16 = (b0 as u16) * 256 + (b1 as u16);
        let entry = ScorecardTemplateScore { kind: fields_arr[j].display_name(), value: v };
        let ghost prev = scores@;
        scores.push(entry);
        proof {
            assert(scores@.drop_last() =~= prev);
            lemma_pair(b0, b1);
        }
        sum = sum + v as u32;
        j = j + 1;
    }
    let total: u16 = (bytes[26] as u16) * 256 + (bytes[27] as u16);
    proof {
        lemma_pair(bytes@[26], bytes@[27]);
    }
    if sum != total as u32 {
        proof {
            assert forall|c: ScorecardTemplateArgs| c.wf() implies bytes@ != spec_encode(c) by {
                if bytes@ == spec_encode(c) {
                    lemma_same_bytes_same_values(c, scores@, total);
                }
            }
        }
        return None;
    }
    let card = ScorecardTemplateArgs { scores, total };
    proof {
        lemma_enc_entries_len(card.scores@);
        assert forall|i: int| 0 <= i < 26 implies bytes@[i] == enc_entries(card.scores@)[i] by {
            let k = i / 2;
            lemma_enc_entries_index(card.scores@, k);
        }
        assert(bytes@ =~= spec_encode(card));
    }
    Some(card)
}

/// Two sources of the same record bytes carry the same scores and total, so a
/// record whose scores do not add up to its total is no canonical encoding.
proof fn lemma_same_bytes_same_values(
    c: ScorecardTemplateArgs,
    scores: Seq<ScorecardTemplateScore>,
    total: u16,
)
    requires
        c.wf(),
        scores.len() == 13,
        forall|i: int|
            0 <= i < 13 ==> hi((#[trigger] scores[i]).value) == spec_encode(c)[2 * i] && lo(
                scores[i].value,
            ) == spec_encode(c)[2 * i + 1],
        hi(total) == spec_encode(c)[26],
        lo(total) == spec_encode(c)[27],
    ensures
        total == c.total,
        sum_entries(scores) == c.total as int,
{
    lemma_enc_entries_len(c.scores@);
    assert forall|i: int| 0 <= i < 13 implies (#[trigger] scores[i]).value
        == c.scores@[i].value by {
        lemma_enc_entries_index(c.scores@, i);
        lemma_hi_lo(scores[i].value);
        lemma_hi_lo(c.scores@[i].value);
    }
    lemma_hi_lo(total);
    lemma_hi_lo(c.total);
    lemma_sum_same_values(scores, c.scores@);
}

/// Entry-wise equal scores have equal sums.
proof fn lemma_sum_same_values(a: Seq<ScorecardTemplateScore>, b: Seq<ScorecardTemplateScore>)
    requires
        a.len() == b.len(),
        forall|i: int| 0 <= i < a.len() ==> (#[trigger] a[i]).value == b[i].value,
    ensures
        sum_entries(a) == sum_entries(b),
    decreases a.len(),
{
    if a.len() > 0 {
        assert forall|i: int| 0 <= i < a.len() - 1 implies (#[trigger] a.drop_last()[i]).value
            == b.drop_last()[i].value by {
            assert(a[i].value == b[i].value);
        }
        lemma_sum_same_values(a.drop_last(), b.drop_last());
    }
}

} // verus!
