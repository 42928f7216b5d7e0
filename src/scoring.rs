//! Scoring of a completed questionnaire into a personality profile.

use vstd::prelude::*;

use crate::error::Error;
use crate::inventory::{Ipip120, QUESTION_COUNT};
use crate::types::{
    domain_ord, facet_ord, Answer, Domain, DomainScore, FacetScore, PersonalityProfile,
    Question, ScoreLevel,
};

verus! {

/// Number of facet slots: six facets in each of five domains.
pub const FACET_SLOTS: usize = 30;

/// An answer value on the five-point scale.
pub open spec fn valid_value(v: u8) -> bool {
    1 <= v <= 5
}

/// The value of the last answer given for question `id`, if any (a later
/// answer to the same question replaces an earlier one).
pub open spec fn answer_lookup(ans: Seq<Answer>, id: Seq<char>) -> Option<u8>
    decreases ans.len(),
{
    if ans.len() == 0 {
        None
    } else if ans.last().question_id@ == id {
        Some(ans.last().value)
    } else {
        answer_lookup(ans.drop_last(), id)
    }
}

/// The score an answer contributes: reversed questions count `6 - v`.
pub open spec fn item_score(q: Question, v: u8) -> int {
    if q.reversed {
        6 - v
    } else {
        v as int
    }
}

/// The facet slot a question feeds (`domain * 6 + index - 1`), or -1 when its
/// facet index lies outside 1-6.
pub open spec fn facet_slot(q: Question) -> int {
    if 1 <= q.facet_index <= 6 {
        domain_ord(q.domain) * 6 + q.facet_index - 1
    } else {
        -1
    }
}

/// Number of questions feeding slot `k`.
pub open spec fn slot_count(qs: Seq<Question>, k: int) -> nat
    decreases qs.len(),
{
    if qs.len() == 0 {
        0
    } else {
        slot_count(qs.drop_last(), k) + if facet_slot(qs.last()) == k {
            1nat
        } else {
            0nat
        }
    }
}

/// Sum of the item scores of the questions feeding slot `k`.
pub open spec fn slot_sum(qs: Seq<Question>, ans: Seq<Answer>, k: int) -> int
    decreases qs.len(),
{
    if qs.len() == 0 {
        0
    } else {
        slot_sum(qs.drop_last(), ans, k) + if facet_slot(qs.last()) == k {
            item_score(
                qs.last(),
                match answer_lookup(ans, qs.last().id@) {
                    Some(v) => v,
                    None => 0u8,
                },
            )
        } else {
            0
        }
    }
}

/// Raw score of a domain: the sum of its six facet slots.
pub open spec fn domain_sum(qs: Seq<Question>, ans: Seq<Answer>, d: int) -> int {
    slot_sum(qs, ans, d * 6) + slot_sum(qs, ans, d * 6 + 1) + slot_sum(qs, ans, d * 6 + 2)
        + slot_sum(qs, ans, d * 6 + 3) + slot_sum(qs, ans, d * 6 + 4) + slot_sum(qs, ans, d * 6 + 5)
}

/// Level of a facet score: 4-9 low, 10-14 neutral, 15-20 high (neutral otherwise).
pub open spec fn spec_facet_level(raw: int) -> ScoreLevel {
    if 4 <= raw <= 9 {
        ScoreLevel::Low
    } else if 15 <= raw <= 20 {
        ScoreLevel::High
    } else {
        ScoreLevel::Neutral
    }
}

/// Level of a domain score: 24-55 low, 56-87 neutral, 88-120 high (neutral otherwise).
pub open spec fn spec_domain_level(raw: int) -> ScoreLevel {
    if 24 <= raw <= 55 {
        ScoreLevel::Low
    } else if 88 <= raw <= 120 {
        ScoreLevel::High
    } else {
        ScoreLevel::Neutral
    }
}

/// `i` is the first answer whose value is off the scale.
pub open spec fn is_first_invalid(ans: Seq<Answer>, i: int) -> bool {
    0 <= i < ans.len() && !valid_value(ans[i].value) && forall|j: int|
        0 <= j < i ==> valid_value(#[trigger] ans[j].value)
}

/// Every answer value is on the scale.
pub open spec fn all_valid(ans: Seq<Answer>) -> bool {
    forall|j: int| 0 <= j < ans.len() ==> valid_value(#[trigger] ans[j].value)
}

/// `i` is the first question without an answer.
pub open spec fn is_first_missing(qs: Seq<Question>, ans: Seq<Answer>, i: int) -> bool {
    0 <= i < qs.len() && answer_lookup(ans, qs[i].id@) is None && forall|j: int|
        0 <= j < i ==> answer_lookup(ans, #[trigger] qs[j].id@) is Some
}

/// Every question has an answer.
pub open spec fn all_answered(qs: Seq<Question>, ans: Seq<Answer>) -> bool {
    forall|j: int| 0 <= j < qs.len() ==> answer_lookup(ans, #[trigger] qs[j].id@) is Some
}

/// Every facet slot is fed by exactly four questions.
pub open spec fn all_slots_full(qs: Seq<Question>) -> bool {
    forall|j: int| 0 <= j < FACET_SLOTS ==> #[trigger] slot_count(qs, j) == 4
}

/// `p` holds, in canonical order, every domain and facet of the questions
/// `qs` scored against the answers `ans`.
pub open spec fn is_profile_of(p: PersonalityProfile, qs: Seq<Question>, ans: Seq<Answer>) -> bool {
    &&& p.domains@.len() == 5
    &&& forall|d: int|
        0 <= d < 5 ==> {
            let ds = #[trigger] p.domains@[d];
            &&& domain_ord(ds.domain) == d
            &&& ds.raw == domain_sum(qs, ans, d)
            &&& ds.level == spec_domain_level(ds.raw as int)
            &&& ds.facets@.len() == 6
            &&& forall|f: int|
                0 <= f < 6 ==> {
                    let fs = #[trigger] ds.facets@[f];
                    &&& facet_ord(fs.facet) == d * 6 + f
                    &&& fs.raw == slot_sum(qs, ans, d * 6 + f)
                    &&& fs.level == spec_facet_level(fs.raw as int)
                }
        }
}

/// Determine the level for a facet score (range 4-20).
fn facet_level(raw: u8) -> (r: ScoreLevel)
    ensures
        r == spec_facet_level(raw as int),
{
    if 4 <= raw && raw <= 9 {
        ScoreLevel::Low
    } else if 10 <= raw && raw <= 14 {
        ScoreLevel::Neutral
    } else if 15 <= raw && raw <= 20 {
        ScoreLevel::High
    } else {
        ScoreLevel::Neutral
    }
}

/// Determine the level for a domain score (range 24-120).
fn domain_level(raw: u8) -> (r: ScoreLevel)
    ensures
        r == spec_domain_level(raw as int),
{
    if 24 <= raw && raw <= 55 {
        ScoreLevel::Low
    } else if 56 <= raw && raw <= 87 {
        ScoreLevel::Neutral
    } else if 88 <= raw && raw <= 120 {
        ScoreLevel::High
    } else {
        ScoreLevel::Neutral
    }
}

/// The value of the last answer for `id`.
fn find_answer(answers: &[Answer], id: &String) -> (r: Option<u8>)
    ensures
        r == answer_lookup(answers@, id@),
{
    let mut i: usize = answers.len();
    assert(answers@.take(i as int) =~= answers@);
    while i > 0
        invariant
            i <= answers@.len(),
            answer_lookup(answers@, id@) == answer_lookup(answers@.take(i as int), id@),
        decreases i,
    {
        let ghost pre = answers@.take(i as int);
        assert(pre.drop_last() =~= answers@.take(i - 1));
        if answers[i - 1].question_id == *id {
            return Some(answers[i - 1].value);
        }
        i = i - 1;
    }
    None
}

proof fn lemma_lookup_valid(ans: Seq<Answer>, id: Seq<char>)
    requires
        all_valid(ans),
    ensures
        match answer_lookup(ans, id) {
            Some(v) => valid_value(v),
            None => true,
        },
    decreases ans.len(),
{
    if ans.len() > 0 {
        assert(valid_value(ans[ans.len() - 1].value));
        let rest = ans.drop_last();
        assert forall|j: int| 0 <= j < rest.len() implies valid_value(#[trigger] rest[j].value) by {
            assert(rest[j] == ans[j]);
        }
        lemma_lookup_valid(rest, id);
    }
}

proof fn lemma_slot_bounds(qs: Seq<Question>, ans: Seq<Answer>, k: int)
    requires
        all_valid(ans),
        all_answered(qs, ans),
    ensures
        slot_count(qs, k) <= slot_sum(qs, ans, k) <= 5 * slot_count(qs, k),
    decreases qs.len(),
{
    if qs.len() > 0 {
        let rest = qs.drop_last();
        assert forall|j: int| 0 <= j < rest.len() implies answer_lookup(
            ans,
            #[trigger] rest[j].id@,
        ) is Some by {
            assert(rest[j] == qs[j]);
        }
        lemma_slot_bounds(rest, ans, k);
        assert(answer_lookup(ans, qs[qs.len() - 1].id@) is Some);
        lemma_lookup_valid(ans, qs.last().id@);
    }
}

/// Calculate the personality profile from answers: each answer is scored
/// (reversed questions count `6 - v`), summed per facet over its four
/// questions, and per domain over its six facets.
pub fn calculate(inventory: &Ipip120, answers: &[Answer]) -> (r: Result<PersonalityProfile, Error>)
    ensures
        answers@.len() != QUESTION_COUNT ==> r == Err::<PersonalityProfile, Error>(
            Error::InvalidAnswerCount(answers@.len() as usize),
        ),
        answers@.len() == QUESTION_COUNT ==> forall|i: int|
            is_first_invalid(answers@, i) ==> r == Err::<PersonalityProfile, Error>(
                Error::InvalidAnswerValue(#[trigger] answers@[i].value),
            ),
        answers@.len() == QUESTION_COUNT && all_valid(answers@) ==> forall|i: int|
            is_first_missing(inventory.spec_questions(), answers@, i) ==> r == Err::<
                PersonalityProfile,
                Error,
            >(Error::MissingAnswer(#[trigger] inventory.spec_questions()[i].id)),
        answers@.len() == QUESTION_COUNT && all_valid(answers@) && all_answered(
            inventory.spec_questions(),
            answers@,
        ) ==> r is Ok && is_profile_of(r->Ok_0, inventory.spec_questions(), answers@),
        r is Ok ==> answers@.len() == QUESTION_COUNT && all_valid(answers@) && all_answered(
            inventory.spec_questions(),
            answers@,
        ),
{
    if answers.len() != QUESTION_COUNT {
        return Err(Error::InvalidAnswerCount(answers.len()));
    }
    // Validate all answers have values 1-5.
    let mut a: usize = 0;
    while a < answers.len()
        invariant
            answers@.len() == QUESTION_COUNT,
            a <= answers@.len(),
            forall|j: int| 0 <= j < a ==> valid_value(#[trigger] answers@[j].value),
        decreases answers@.len() - a,
    {
        let v = answers[a].value;
        if v < 1 || v > 5 {
            proof {
                assert forall|i: int| is_first_invalid(answers@, i) implies i == a by {
                    if i < a {
                        assert(valid_value(answers@[i].value));
                    }
                    if i > a {
                        assert(valid_value(answers@[a as int].value));
                    }
                }
            }
            return Err(Error::InvalidAnswerValue(v));
        }
        a = a + 1;
    }
    // Tally the item scores per facet slot.
    let questions = inventory.questions();
    let ghost qs = questions@;
    let mut counts: Vec<u64> = Vec::new();
    let mut sums: Vec<u64> = Vec::new();
    let mut s: usize = 0;
    while s < FACET_SLOTS
        invariant
            s <= FACET_SLOTS,
            counts@.len() == s,
            sums@.len() == s,
            forall|k: int| 0 <= k < s ==> #[trigger] counts@[k] == 0,
            forall|k: int| 0 <= k < s ==> #[trigger] sums@[k] == 0,
        decreases FACET_SLOTS - s,
    {
        counts.push(0);
        sums.push(0);
        s = s + 1;
    }
    let mut i: usize = 0;
    while i < questions.len()
        invariant
            qs == questions@,
            qs.len() == QUESTION_COUNT,
            qs == inventory.spec_questions(),
            all_slots_full(qs),
            answers@.len() == QUESTION_COUNT,
            all_valid(answers@),
            i <= qs.len(),
            counts@.len() == FACET_SLOTS,
            sums@.len() == FACET_SLOTS,
            forall|j: int| 0 <= j < i ==> answer_lookup(answers@, #[trigger] qs[j].id@) is Some,
            forall|k: int|
                0 <= k < FACET_SLOTS ==> #[trigger] counts@[k] == slot_count(qs.take(i as int), k)
                    && sums@[k] == slot_sum(qs.take(i as int), answers@, k),
            forall|k: int| 0 <= k < FACET_SLOTS ==> #[trigger] counts@[k] <= i,
            forall|k: int| 0 <= k < FACET_SLOTS ==> #[trigger] sums@[k] <= 5 * i,
        decreases qs.len() - i,
    {
        let q = &questions[i];
        let found = find_answer(answers, &q.id);
        let v = match found {
            Some(v) => v,
            None => {
                proof {
                    assert forall|m: int| is_first_missing(qs, answers@, m) implies m == i by {
                        if m < i {
                            assert(answer_lookup(answers@, qs[m].id@) is Some);
                        }
                        if m > i {
                            assert(answer_lookup(answers@, qs[i as int].id@) is Some);
                        }
                    }
                    assert(answer_lookup(answers@, qs[i as int].id@) is None);
                    assert(!all_answered(qs, answers@));
                }
                return Err(Error::MissingAnswer(q.id.clone()));
            },
        };
        proof {
            lemma_lookup_valid(answers@, q.id@);
        }
        let score: u64 = if q.reversed {
            (6 - v) as u64
        } else {
            v as u64
        };
        let ghost old_counts = counts@;
        let ghost old_sums = sums@;
        proof {
            assert(qs.take(i + 1).drop_last() =~= qs.take(i as int));
            assert(qs.take(i + 1).last() == qs[i as int]);
        }
        if 1 <= q.facet_index && q.facet_index <= 6 {
            let k: usize = Domain::ord(q.domain) * 6 + (q.facet_index - 1) as usize;
            let c = counts[k];
            let t = sums[k];
            counts.set(k, c + 1);
            sums.set(k, t + score);
            proof {
                assert forall|k2: int| 0 <= k2 < FACET_SLOTS implies #[trigger] counts@[k2]
                    == slot_count(qs.take(i + 1), k2) && sums@[k2] == slot_sum(
                    qs.take(i + 1),
                    answers@,
                    k2,
                ) by {
                    assert(old_counts[k2] == slot_count(qs.take(i as int), k2));
                    assert(old_sums[k2] == slot_sum(qs.take(i as int), answers@, k2));
                    assert(facet_slot(qs[i as int]) == k);
                    assert(answer_lookup(answers@, qs[i as int].id@) == Some(v));
                    assert(item_score(qs[i as int], v) == score);
                }
                assert forall|k2: int| 0 <= k2 < FACET_SLOTS implies #[trigger] counts@[k2] <= i
                    + 1 by {
                    assert(old_counts[k2] <= i);
                }
                assert forall|k2: int| 0 <= k2 < FACET_SLOTS implies #[trigger] sums@[k2] <= 5 * (i
                    + 1) by {
                    assert(old_sums[k2] <= 5 * i);
                }
            }
        } else {
            proof {
                assert forall|k2: int| 0 <= k2 < FACET_SLOTS implies #[trigger] counts@[k2]
                    == slot_count(qs.take(i + 1), k2) && sums@[k2] == slot_sum(
                    qs.take(i + 1),
                    answers@,
                    k2,
                ) by {
                    assert(old_counts[k2] == slot_count(qs.take(i as int), k2));
                    assert(old_sums[k2] == slot_sum(qs.take(i as int), answers@, k2));
                    assert(facet_slot(qs[i as int]) == -1);
                }
            }
        }
        i = i + 1;
    }
    proof {
        assert(qs.take(qs.len() as int) =~= qs);
        assert(all_answered(qs, answers@));
    }
    // Check every facet slot and build the scores.
    let domains_all = Domain::all();
    let mut domains: Vec<DomainScore> = Vec::new();
    let mut d: usize = 0;
    while d < 5
        invariant
            qs == inventory.spec_questions(),
            all_slots_full(qs),
            answers@.len() == QUESTION_COUNT,
            all_valid(answers@),
            all_answered(qs, answers@),
            d <= 5,
            domains_all@.len() == 5,
            forall|m: int| 0 <= m < 5 ==> domain_ord(#[trigger] domains_all@[m]) == m,
            counts@.len() == FACET_SLOTS,
            sums@.len() == FACET_SLOTS,
            forall|k: int|
                0 <= k < FACET_SLOTS ==> #[trigger] counts@[k] == slot_count(qs, k) && sums@[k]
                    == slot_sum(qs, answers@, k),
            domains@.len() == d,
            forall|m: int|
                0 <= m < d ==> {
                    let ds = #[trigger] domains@[m];
                    &&& domain_ord(ds.domain) == m
                    &&& ds.raw == domain_sum(qs, answers@, m)
                    &&& ds.level == spec_domain_level(ds.raw as int)
                    &&& ds.facets@.len() == 6
                    &&& forall|f: int|
                        0 <= f < 6 ==> {
                            let fs = #[trigger] ds.facets@[f];
                            &&& facet_ord(fs.facet) == m * 6 + f
                            &&& fs.raw == slot_sum(qs, answers@, m * 6 + f)
                            &&& fs.level == spec_facet_level(fs.raw as int)
                        }
                },
        decreases 5 - d,
    {
        let domain = domains_all[d];
        let facet_list = domain.facets();
        let mut facets: Vec<FacetScore> = Vec::new();
        let mut domain_total: u16 = 0;
        let mut f: usize = 0;
        while f < 6
            invariant
                qs == inventory.spec_questions(),
                all_slots_full(qs),
                answers@.len() == QUESTION_COUNT,
                all_valid(answers@),
                all_answered(qs, answers@),
                d < 5,
                f <= 6,
                domain_ord(domain) == d,
                facet_list@.len() == 6,
                forall|m: int| 0 <= m < 6 ==> facet_ord(#[trigger] facet_list@[m]) == d * 6 + m,
                counts@.len() == FACET_SLOTS,
                sums@.len() == FACET_SLOTS,
                forall|k: int|
                    0 <= k < FACET_SLOTS ==> #[trigger] counts@[k] == slot_count(qs, k)
                        && sums@[k] == slot_sum(qs, answers@, k),
                facets@.len() == f,
                forall|m: int|
                    0 <= m < f ==> {
                        let fs = #[trigger] facets@[m];
                        &&& facet_ord(fs.facet) == d * 6 + m
                        &&& fs.raw == slot_sum(qs, answers@, d * 6 + m)
                        &&& fs.level == spec_facet_level(fs.raw as int)
                    },
                domain_total as int == if f == 0 {
                    0
                } else if f == 1 {
                    slot_sum(qs, answers@, d * 6)
                } else if f == 2 {
                    slot_sum(qs, answers@, d * 6) + slot_sum(qs, answers@, d * 6 + 1)
                } else if f == 3 {
                    slot_sum(qs, answers@, d * 6) + slot_sum(qs, answers@, d * 6 + 1) + slot_sum(
                        qs,
                        answers@,
                        d * 6 + 2,
                    )
                } else if f == 4 {
                    slot_sum(qs, answers@, d * 6) + slot_sum(qs, answers@, d * 6 + 1) + slot_sum(
                        qs,
                        answers@,
                        d * 6 + 2,
                    ) + slot_sum(qs, answers@, d * 6 + 3)
                } else if f == 5 {
                    slot_sum(qs, answers@, d * 6) + slot_sum(qs, answers@, d * 6 + 1) + slot_sum(
                        qs,
                        answers@,
                        d * 6 + 2,
                    ) + slot_sum(qs, answers@, d * 6 + 3) + slot_sum(qs, answers@, d * 6 + 4)
                } else {
                    domain_sum(qs, answers@, d as int)
                },
                domain_total <= 20 * f,
            decreases 6 - f,
        {
            let facet = facet_list[f];
            let facet_index = facet.index();
            let k: usize = d * 6 + f;
            assert(facet_index == f + 1);
            let count = counts[k];
            if count != 4 {
                // Unreachable: an inventory feeds every facet slot four questions.
                if count == 0 {
                    return Err(Error::MissingFacetData(domain, facet_index));
                }
                return Err(Error::InvalidFacetQuestionCount(domain, facet_index, count as usize));
            }
            proof {
                lemma_slot_bounds(qs, answers@, k as int);
            }
            let raw: u8 = sums[k] as u8;
            domain_total = domain_total + raw as u16;
            facets.push(FacetScore { facet, raw, level: facet_level(raw) });
            f = f + 1;
        }
        let raw: u8 = domain_total as u8;
        domains.push(DomainScore { domain, raw, level: domain_level(raw), facets });
        d = d + 1;
    }
    let profile = PersonalityProfile { domains };
    Ok(profile)
}

} // verus!
