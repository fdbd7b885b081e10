//! Scoring of validated attempts against the retained answer key.
//!
//! Scoring is all-or-nothing per question: a question counts as correct
//! exactly when the set of submitted answer identities equals the key
//! entry's set — the order of the submitted list never matters, and a
//! partial overlap scores zero for that question. The aggregate percent is
//! `100 * correct / total` (an empty key scores a full hundred, having
//! nothing to miss), and passing compares the percent against the
//! configuration's threshold. Deterministic, no side effects.
#![verifier::loop_isolation(false)]

use vstd::prelude::*;

use crate::attempt::ExamAttempt;
use crate::attempt::MultipleChoiceQuestionAttempt;
use crate::attempt::QuestionSetAttempt;
use crate::config::ExamConfig;
use crate::generated::AnswerKey;
use crate::generated::KeyEntry;
use crate::generated::KeySet;
use crate::ids::Id;

verus! {

/// The outcome of scoring one attempt.
#[derive(Clone, Copy, Debug, PartialEq, Eq, Structural)]
pub struct ScoreResult {
    pub raw_correct: u64,
    pub total: u64,
    pub percent: u64,
    pub passed: bool,
}

/// A question counts as correct only when the set of submitted answer
/// identities equals the key entry's set exactly.
pub open spec fn answers_match(submitted: Seq<Id>, correct: Seq<Id>) -> bool {
    submitted.to_set() == correct.to_set()
}

/// First set attempt with the given identity, if any.
pub open spec fn find_set_attempt(sets: Seq<QuestionSetAttempt>, id: Id) -> Option<
    QuestionSetAttempt,
>
    decreases sets.len(),
{
    if sets.len() == 0 {
        Option::None
    } else if sets[0].id == id {
        Option::Some(sets[0])
    } else {
        find_set_attempt(sets.drop_first(), id)
    }
}

/// First question attempt with the given identity, if any.
pub open spec fn find_question_attempt(
    qs: Seq<MultipleChoiceQuestionAttempt>,
    id: Id,
) -> Option<MultipleChoiceQuestionAttempt>
    decreases qs.len(),
{
    if qs.len() == 0 {
        Option::None
    } else if qs[0].id == id {
        Option::Some(qs[0])
    } else {
        find_question_attempt(qs.drop_first(), id)
    }
}

/// The answer identities an attempt submitted for one generated question,
/// if it submitted any.
pub open spec fn submission_for(a: ExamAttempt, set_id: Id, question_id: Id) -> Option<Seq<Id>> {
    match find_set_attempt(a.question_sets@, set_id) {
        Option::None => Option::None,
        Option::Some(sa) => match find_question_attempt(sa.questions@, question_id) {
            Option::None => Option::None,
            Option::Some(qa) => Option::Some(qa.answers@),
        },
    }
}

/// Whether one key entry is answered correctly by the attempt.
pub open spec fn entry_scored_correct(a: ExamAttempt, set_id: Id, e: KeyEntry) -> bool {
    match submission_for(a, set_id, e.question_id) {
        Option::None => false,
        Option::Some(sub) => answers_match(sub, e.correct@),
    }
}

/// Correctly answered entries among the first `n` of one key set.
pub open spec fn set_correct_upto(a: ExamAttempt, ks: KeySet, n: int) -> int
    decreases n,
{
    if n <= 0 {
        0
    } else {
        set_correct_upto(a, ks, n - 1) + if entry_scored_correct(a, ks.id, ks.entries@[n - 1]) {
            1int
        } else {
            0int
        }
    }
}

/// Correctly answered questions over the first `n` key sets.
pub open spec fn correct_count_upto(a: ExamAttempt, key: AnswerKey, n: int) -> int
    decreases n,
{
    if n <= 0 {
        0
    } else {
        correct_count_upto(a, key, n - 1) + set_correct_upto(
            a,
            key.sets@[n - 1],
            key.sets@[n - 1].entries@.len() as int,
        )
    }
}

/// Correctly answered questions of the whole attempt.
pub open spec fn spec_correct_count(a: ExamAttempt, key: AnswerKey) -> int {
    correct_count_upto(a, key, key.sets@.len() as int)
}

/// Questions over the first `n` key sets.
pub open spec fn total_upto(key: AnswerKey, n: int) -> int
    decreases n,
{
    if n <= 0 {
        0
    } else {
        total_upto(key, n - 1) + key.sets@[n - 1].entries@.len()
    }
}

/// Total questions of the exam, counted from its answer key.
pub open spec fn spec_total_questions(key: AnswerKey) -> int {
    total_upto(key, key.sets@.len() as int)
}

/// The aggregate percent: `100 * correct / total`, and a full hundred for
/// an empty exam, which has nothing to miss.
pub open spec fn spec_percent(correct: int, total: int) -> int {
    if total == 0 {
        100
    } else {
        correct * 100 / total
    }
}

proof fn lemma_set_correct_upto_bounds(a: ExamAttempt, ks: KeySet, n: int)
    requires
        n >= 0,
    ensures
        0 <= set_correct_upto(a, ks, n) <= n,
    decreases n,
{
    if n > 0 {
        lemma_set_correct_upto_bounds(a, ks, n - 1);
    }
}

proof fn lemma_correct_le_total(a: ExamAttempt, key: AnswerKey, n: int)
    requires
        n >= 0,
    ensures
        0 <= correct_count_upto(a, key, n) <= total_upto(key, n),
    decreases n,
{
    if n > 0 {
        lemma_correct_le_total(a, key, n - 1);
        lemma_set_correct_upto_bounds(a, key.sets@[n - 1], key.sets@[n - 1].entries@.len() as int);
    }
}

proof fn lemma_total_upto_mono(key: AnswerKey, m: int, n: int)
    requires
        0 <= m <= n,
    ensures
        total_upto(key, m) <= total_upto(key, n),
    decreases n,
{
    if m < n {
        lemma_total_upto_mono(key, m, n - 1);
    }
}

/// Whether a list of identities occurs in another, element by element.
fn contains_id(v: &Vec<Id>, x: Id) -> (b: bool)
    ensures
        b == v@.contains(x),
{
    let mut i: usize = 0;
    while i < v.len()
        invariant
            0 <= i <= v@.len(),
            forall|j: int| 0 <= j < i ==> v@[j] != x,
        decreases v@.len() - i,
    {
        if v[i] == x {
            return true;
        }
        i = i + 1;
    }
    false
}

/// Whether every identity of `xs` occurs in `ys`.
fn ids_subset(xs: &Vec<Id>, ys: &Vec<Id>) -> (b: bool)
    ensures
        b == forall|j: int| 0 <= j < xs@.len() ==> ys@.contains(#[trigger] xs@[j]),
{
    let mut i: usize = 0;
    while i < xs.len()
        invariant
            0 <= i <= xs@.len(),
            forall|j: int| 0 <= j < i ==> ys@.contains(#[trigger] xs@[j]),
        decreases xs@.len() - i,
    {
        if !contains_id(ys, xs[i]) {
            return false;
        }
        i = i + 1;
    }
    true
}

/// Compare two identity lists as sets, ignoring order and duplicates.
fn ids_match_as_sets(sub: &Vec<Id>, correct: &Vec<Id>) -> (b: bool)
    ensures
        b == answers_match(sub@, correct@),
{
    broadcast use vstd::set::group_set_axioms;

    let fwd = ids_subset(sub, correct);
    let back = ids_subset(correct, sub);
    proof {
        if fwd && back {
            assert(sub@.to_set() =~= correct@.to_set());
        }
        if !fwd {
            let j = choose|j: int| 0 <= j < sub@.len() && !correct@.contains(sub@[j]);
            assert(sub@.to_set().contains(sub@[j]));
            assert(!correct@.to_set().contains(sub@[j]));
            assert(sub@.to_set() != correct@.to_set());
        }
        if fwd && !back {
            let j = choose|j: int| 0 <= j < correct@.len() && !sub@.contains(correct@[j]);
            assert(correct@.to_set().contains(correct@[j]));
            assert(!sub@.to_set().contains(correct@[j]));
            assert(sub@.to_set() != correct@.to_set());
        }
    }
    fwd && back
}

/// First set attempt with the given identity.
fn find_attempt_set<'a>(sets: &'a Vec<QuestionSetAttempt>, id: Id) -> (r: Option<
    &'a QuestionSetAttempt,
>)
    ensures
        match r {
            Option::Some(sa) => find_set_attempt(sets@, id) == Option::Some(*sa),
            Option::None => find_set_attempt(sets@, id) is None,
        },
{
    proof {
        assert(sets@.skip(0) =~= sets@);
    }
    let mut i: usize = 0;
    while i < sets.len()
        invariant
            0 <= i <= sets@.len(),
            find_set_attempt(sets@, id) == find_set_attempt(sets@.skip(i as int), id),
        decreases sets@.len() - i,
    {
        if sets[i].id == id {
            proof {
                assert(sets@.skip(i as int)[0] == sets@[i as int]);
            }
            return Option::Some(&sets[i]);
        }
        proof {
            assert(sets@.skip(i as int)[0] == sets@[i as int]);
            assert(sets@.skip(i as int).drop_first() =~= sets@.skip(i as int + 1));
        }
        i = i + 1;
    }
    proof {
        assert(sets@.skip(sets@.len() as int) =~= Seq::<QuestionSetAttempt>::empty());
    }
    Option::None
}

/// First question attempt with the given identity.
fn find_attempt_question<'a>(qs: &'a Vec<MultipleChoiceQuestionAttempt>, id: Id) -> (r: Option<
    &'a MultipleChoiceQuestionAttempt,
>)
    ensures
        match r {
            Option::Some(qa) => find_question_attempt(qs@, id) == Option::Some(*qa),
            Option::None => find_question_attempt(qs@, id) is None,
        },
{
    proof {
        assert(qs@.skip(0) =~= qs@);
    }
    let mut i: usize = 0;
    while i < qs.len()
        invariant
            0 <= i <= qs@.len(),
            find_question_attempt(qs@, id) == find_question_attempt(qs@.skip(i as int), id),
        decreases qs@.len() - i,
    {
        if qs[i].id == id {
            proof {
                assert(qs@.skip(i as int)[0] == qs@[i as int]);
            }
            return Option::Some(&qs[i]);
        }
        proof {
            assert(qs@.skip(i as int)[0] == qs@[i as int]);
            assert(qs@.skip(i as int).drop_first() =~= qs@.skip(i as int + 1));
        }
        i = i + 1;
    }
    proof {
        assert(qs@.skip(qs@.len() as int) =~= Seq::<MultipleChoiceQuestionAttempt>::empty());
    }
    Option::None
}

/// Whether the attempt answers one key entry correctly.
fn entry_correct(a: &ExamAttempt, set_id: Id, e: &KeyEntry) -> (b: bool)
    ensures
        b == entry_scored_correct(*a, set_id, *e),
{
    match find_attempt_set(&a.question_sets, set_id) {
        Option::None => false,
        Option::Some(sa) => {
            match find_attempt_question(&sa.questions, e.question_id) {
                Option::None => false,
                Option::Some(qa) => ids_match_as_sets(&qa.answers, &e.correct),
            }
        },
    }
}

/// Score an attempt against the retained answer key.
///
/// Walks the key — never the other way round — so unanswered questions
/// count against the attempt, and submissions for unknown identities count
/// for nothing. The result is an exact function of the inputs: raw count,
/// total, percent and the pass verdict against the configured threshold.
pub fn score(a: &ExamAttempt, key: &AnswerKey, config: &ExamConfig) -> (r: ScoreResult)
    requires
        spec_total_questions(*key) <= u64::MAX,
    ensures
        r.total == spec_total_questions(*key),
        r.raw_correct == spec_correct_count(*a, *key),
        r.percent == spec_percent(spec_correct_count(*a, *key), spec_total_questions(*key)),
        r.passed == (r.percent >= config.passing_percent),
{
    let mut total: u64 = 0;
    let mut correct: u64 = 0;
    let mut k: usize = 0;
    while k < key.sets.len()
        invariant
            0 <= k <= key.sets@.len(),
            total as int == total_upto(*key, k as int),
            correct as int == correct_count_upto(*a, *key, k as int),
        decreases key.sets@.len() - k,
    {
        let ks = &key.sets[k];
        let mut i: usize = 0;
        let mut set_correct: u64 = 0;
        while i < ks.entries.len()
            invariant
                0 <= i <= ks.entries@.len(),
                set_correct as int == set_correct_upto(*a, *ks, i as int),
            decreases ks.entries@.len() - i,
        {
            proof {
                lemma_set_correct_upto_bounds(*a, *ks, i as int);
            }
            if entry_correct(a, ks.id, &ks.entries[i]) {
                set_correct = set_correct + 1;
            }
            i = i + 1;
        }
        proof {
            lemma_total_upto_mono(*key, k as int + 1, key.sets@.len() as int);
            lemma_correct_le_total(*a, *key, k as int);
            lemma_set_correct_upto_bounds(*a, *ks, ks.entries@.len() as int);
            lemma_correct_le_total(*a, *key, k as int + 1);
        }
        total = total + (ks.entries.len() as u64);
        correct = correct + set_correct;
        k = k + 1;
    }
    let percent: u64 = if total == 0 {
        100
    } else {
        proof {
            lemma_correct_le_total(*a, *key, key.sets@.len() as int);
            vstd::arithmetic::div_mod::lemma_div_is_ordered(
                correct as int * 100,
                total as int * 100,
                total as int,
            );
            vstd::arithmetic::div_mod::lemma_div_multiples_vanish(100, total as int);
            assert(total as int * 100 == (total as int) * 100);
        }
        (((correct as u128) * 100) / (total as u128)) as u64
    };
    let passed = percent >= config.passing_percent;
    ScoreResult { raw_correct: correct, total, percent, passed }
}

/// Scoring is order-independent in the submitted answers: two submissions
/// that are permutations of each other (equal as multisets) score a
/// question the same way.
pub proof fn lemma_scoring_order_independent(s1: Seq<Id>, s2: Seq<Id>, correct: Seq<Id>)
    requires
        s1.to_multiset() == s2.to_multiset(),
    ensures
        answers_match(s1, correct) == answers_match(s2, correct),
{
    broadcast use vstd::seq_lib::group_to_multiset_ensures;
    broadcast use vstd::set::group_set_axioms;

    assert forall|x: Id| s1.contains(x) implies s2.contains(x) by {
        assert(s1.to_multiset().count(x) > 0);
    }
    assert forall|x: Id| s2.contains(x) implies s1.contains(x) by {
        assert(s2.to_multiset().count(x) > 0);
    }
    assert(s1.to_set() =~= s2.to_set());
}

/// Order-independence carried to the scorer itself: two attempts whose
/// submissions for a question are permutations of each other (or both
/// missing) have that question scored the same way.
pub proof fn lemma_entry_verdict_order_independent(
    a1: ExamAttempt,
    a2: ExamAttempt,
    set_id: Id,
    e: KeyEntry,
)
    requires
        match (submission_for(a1, set_id, e.question_id), submission_for(a2, set_id, e.question_id)) {
            (Option::Some(s1), Option::Some(s2)) => s1.to_multiset() == s2.to_multiset(),
            (Option::None, Option::None) => true,
            _ => false,
        },
    ensures
        entry_scored_correct(a1, set_id, e) == entry_scored_correct(a2, set_id, e),
{
    match (submission_for(a1, set_id, e.question_id), submission_for(a2, set_id, e.question_id)) {
        (Option::Some(s1), Option::Some(s2)) => {
            lemma_scoring_order_independent(s1, s2, e.correct@);
        },
        _ => {},
    }
}

proof fn lemma_set_all_correct(a: ExamAttempt, ks: KeySet, n: int)
    requires
        0 <= n <= ks.entries@.len(),
        forall|i: int| 0 <= i < ks.entries@.len() ==> entry_scored_correct(
            a,
            ks.id,
            #[trigger] ks.entries@[i],
        ),
    ensures
        set_correct_upto(a, ks, n) == n,
    decreases n,
{
    if n > 0 {
        lemma_set_all_correct(a, ks, n - 1);
    }
}

proof fn lemma_all_correct_counts(a: ExamAttempt, key: AnswerKey, n: int)
    requires
        0 <= n <= key.sets@.len(),
        forall|k: int, i: int|
            0 <= k < key.sets@.len() && 0 <= i < key.sets@[k].entries@.len()
                ==> entry_scored_correct(a, key.sets@[k].id, #[trigger] key.sets@[k].entries@[i]),
    ensures
        correct_count_upto(a, key, n) == total_upto(key, n),
    decreases n,
{
    if n > 0 {
        lemma_all_correct_counts(a, key, n - 1);
        lemma_set_all_correct(a, key.sets@[n - 1], key.sets@[n - 1].entries@.len() as int);
    }
}

/// A perfect attempt scores the full hundred: when every key entry is
/// answered with exactly its correct set, the correct count equals the
/// total and the percent is `100` — so such an attempt passes exactly when
/// the configured threshold does not exceed a hundred.
pub proof fn lemma_perfect_attempt_scores_full(a: ExamAttempt, key: AnswerKey)
    requires
        forall|k: int, i: int|
            0 <= k < key.sets@.len() && 0 <= i < key.sets@[k].entries@.len()
                ==> entry_scored_correct(a, key.sets@[k].id, #[trigger] key.sets@[k].entries@[i]),
    ensures
        spec_correct_count(a, key) == spec_total_questions(key),
        spec_percent(spec_correct_count(a, key), spec_total_questions(key)) == 100,
{
    lemma_all_correct_counts(a, key, key.sets@.len() as int);
    let total = spec_total_questions(key);
    if total != 0 {
        lemma_correct_le_total(a, key, key.sets@.len() as int);
        vstd::arithmetic::div_mod::lemma_div_multiples_vanish(100, total);
        assert(total * 100 == 100 * total) by (nonlinear_arith);
    }
}

} // verus!
