//! Validation of submitted exam attempts.
//!
//! An attempt is checked, in order, for structure (every referenced
//! identity must exist in the generated exam it claims to answer), timing
//! (every submission within the total-time budget counted from the
//! attempt's start — an overrun is rejected outright as `Expired`, without
//! scoring), retake cooldown against the user's prior attempts on the same
//! template, and moderation (the source template version must currently be
//! approved). The verdict is pinned exactly by `attempt_check`.
#![verifier::loop_isolation(false)]

use vstd::prelude::*;

use crate::config::ExamConfig;
use crate::generated::GeneratedExam;
use crate::generated::GeneratedQuestion;
use crate::generated::GeneratedQuestionSet;
use crate::ids::Id;
use crate::moderation::ModerationRecord;
use crate::moderation::approves_generation;
use crate::moderation::record_permits_generation;

verus! {

/// One question of an attempt: the question's identity, the chosen answer
/// identities, and when it was submitted (wall-clock milliseconds).
#[derive(Clone, Debug)]
pub struct MultipleChoiceQuestionAttempt {
    pub id: Id,
    pub answers: Vec<Id>,
    pub submission_time_in_m_s: u64,
}

/// The attempted questions of one generated question set.
#[derive(Clone, Debug)]
pub struct QuestionSetAttempt {
    pub id: Id,
    pub questions: Vec<MultipleChoiceQuestionAttempt>,
}

/// A submitted attempt against one generated exam instance.
#[derive(Clone, Debug)]
pub struct ExamAttempt {
    pub id: Id,
    pub user_id: Id,
    pub exam_id: Id,
    pub generated_exam_id: Id,
    pub question_sets: Vec<QuestionSetAttempt>,
    pub start_time_in_m_s: u64,
    pub version: u64,
}

/// What the cooldown check needs of a user's earlier attempt: which
/// template it was against and when it started. The caller passes the
/// prior attempts of the submitting user only.
#[derive(Clone, Copy, Debug, PartialEq, Eq, Structural)]
pub struct PriorAttempt {
    pub exam_id: Id,
    pub start_time_in_m_s: u64,
}

/// Why an attempt was rejected. `RetakeTooSoon` carries the earliest start
/// time at which the user becomes eligible again.
#[derive(Clone, Copy, Debug, PartialEq, Eq, Structural)]
pub enum AttemptError {
    UnknownReference,
    Expired,
    RetakeTooSoon { earliest_start_in_m_s: u64 },
    TemplateNotApproved,
}

/// First generated question set with the given identity, if any.
pub open spec fn find_set(sets: Seq<GeneratedQuestionSet>, id: Id) -> Option<GeneratedQuestionSet>
    decreases sets.len(),
{
    if sets.len() == 0 {
        Option::None
    } else if sets[0].id == id {
        Option::Some(sets[0])
    } else {
        find_set(sets.drop_first(), id)
    }
}

/// First generated question with the given identity, if any.
pub open spec fn find_question(qs: Seq<GeneratedQuestion>, id: Id) -> Option<GeneratedQuestion>
    decreases qs.len(),
{
    if qs.len() == 0 {
        Option::None
    } else if qs[0].id == id {
        Option::Some(qs[0])
    } else {
        find_question(qs.drop_first(), id)
    }
}

/// A set attempt maps onto the exam: its identity names a generated set,
/// and every attempted question exists in that set.
pub open spec fn set_attempt_structure_ok(sa: QuestionSetAttempt, exam: GeneratedExam) -> bool {
    match find_set(exam.question_sets@, sa.id) {
        Option::None => false,
        Option::Some(gs) => forall|i: int|
            0 <= i < sa.questions@.len() ==> find_question(
                gs.questions@,
                (#[trigger] sa.questions@[i]).id,
            ) is Some,
    }
}

/// The attempt references the generated exam it claims to answer and every
/// identity it mentions maps onto the exam's structure.
pub open spec fn attempt_structure_ok(a: ExamAttempt, exam: GeneratedExam) -> bool {
    &&& a.generated_exam_id == exam.id
    &&& a.exam_id == exam.exam_id
    &&& forall|k: int|
        0 <= k < a.question_sets@.len() ==> set_attempt_structure_ok(
            #[trigger] a.question_sets@[k],
            exam,
        )
}

/// Every question submission falls within the total-time budget counted
/// from the attempt's start.
pub open spec fn attempt_within_time(a: ExamAttempt, total_time_in_m_s: u64) -> bool {
    forall|k: int, i: int|
        0 <= k < a.question_sets@.len() && 0 <= i < a.question_sets@[k].questions@.len()
            ==> (#[trigger] a.question_sets@[k].questions@[i]).submission_time_in_m_s
            <= a.start_time_in_m_s + total_time_in_m_s
}

/// The cooldown holds against every prior attempt on the same template.
pub open spec fn retake_ok(a: ExamAttempt, priors: Seq<PriorAttempt>, retake_time_in_m_s: u64) -> bool {
    forall|i: int|
        0 <= i < priors.len() && (#[trigger] priors[i]).exam_id == a.exam_id
            ==> priors[i].start_time_in_m_s + retake_time_in_m_s <= a.start_time_in_m_s
}

/// The earliest start time at which the cooldown clears every one of the
/// first `n` prior attempts on the given template; zero when none apply.
pub open spec fn earliest_retake_upto(
    priors: Seq<PriorAttempt>,
    exam_id: Id,
    retake_time_in_m_s: u64,
    n: int,
) -> int
    decreases n,
{
    if n <= 0 {
        0
    } else {
        let prev = earliest_retake_upto(priors, exam_id, retake_time_in_m_s, n - 1);
        if priors[n - 1].exam_id == exam_id && priors[n - 1].start_time_in_m_s
            + retake_time_in_m_s > prev {
            priors[n - 1].start_time_in_m_s + retake_time_in_m_s
        } else {
            prev
        }
    }
}

/// The exact verdict of attempt validation: the checks in order, first
/// failure wins.
pub open spec fn attempt_check(
    a: ExamAttempt,
    exam: GeneratedExam,
    config: ExamConfig,
    priors: Seq<PriorAttempt>,
    moderation: Option<ModerationRecord>,
) -> Result<(), AttemptError> {
    if !attempt_structure_ok(a, exam) {
        Result::Err(AttemptError::UnknownReference)
    } else if !attempt_within_time(a, config.total_time_in_m_s) {
        Result::Err(AttemptError::Expired)
    } else if !retake_ok(a, priors, config.retake_time_in_m_s) {
        Result::Err(
            AttemptError::RetakeTooSoon {
                earliest_start_in_m_s: earliest_retake_upto(
                    priors,
                    a.exam_id,
                    config.retake_time_in_m_s,
                    priors.len() as int,
                ) as u64,
            },
        )
    } else if !approves_generation(moderation, exam.exam_id, exam.version) {
        Result::Err(AttemptError::TemplateNotApproved)
    } else {
        Result::Ok(())
    }
}

/// First generated set with the given identity.
fn find_gen_set<'a>(sets: &'a Vec<GeneratedQuestionSet>, id: Id) -> (r: Option<
    &'a GeneratedQuestionSet,
>)
    ensures
        match r {
            Option::Some(gs) => find_set(sets@, id) == Option::Some(*gs),
            Option::None => find_set(sets@, id) is None,
        },
{
    proof {
        assert(sets@.skip(0) =~= sets@);
    }
    let mut i: usize = 0;
    while i < sets.len()
        invariant
            0 <= i <= sets@.len(),
            find_set(sets@, id) == find_set(sets@.skip(i as int), id),
        decreases sets@.len() - i,
    {
        if sets[i].id == id {
            proof {
                assert(sets@.skip(i as int)[0] == sets@[i as int]);
            }
            return Option::Some(&sets[i]);
        }
        proof {
            assert(sets@.skip(i as int)[0] == sets@[i as int]);
            assert(sets@.skip(i as int).drop_first() =~= sets@.skip(i as int + 1));
        }
        i = i + 1;
    }
    proof {
        assert(sets@.skip(sets@.len() as int) =~= Seq::<GeneratedQuestionSet>::empty());
    }
    Option::None
}

/// First generated question with the given identity.
fn find_gen_question<'a>(qs: &'a Vec<GeneratedQuestion>, id: Id) -> (r: Option<
    &'a GeneratedQuestion,
>)
    ensures
        match r {
            Option::Some(gq) => find_question(qs@, id) == Option::Some(*gq),
            Option::None => find_question(qs@, id) is None,
        },
{
    proof {
        assert(qs@.skip(0) =~= qs@);
    }
    let mut i: usize = 0;
    while i < qs.len()
        invariant
            0 <= i <= qs@.len(),
            find_question(qs@, id) == find_question(qs@.skip(i as int), id),
        decreases qs@.len() - i,
    {
        if qs[i].id == id {
            proof {
                assert(qs@.skip(i as int)[0] == qs@[i as int]);
            }
            return Option::Some(&qs[i]);
        }
        proof {
            assert(qs@.skip(i as int)[0] == qs@[i as int]);
            assert(qs@.skip(i as int).drop_first() =~= qs@.skip(i as int + 1));
        }
        i = i + 1;
    }
    proof {
        assert(qs@.skip(qs@.len() as int) =~= Seq::<GeneratedQuestion>::empty());
    }
    Option::None
}

/// Validate a submitted attempt against the generated exam it answers, the
/// template's configuration, the user's prior attempts on the same
/// template, and the latest moderation record of the template version.
///
/// The checks run in order — structure, timing, retake cooldown,
/// moderation — and the verdict equals `attempt_check` on the inputs. A
/// cooldown rejection names the earliest start time at which the user is
/// eligible again. An attempt that overruns the total-time budget is
/// rejected outright as `Expired` and is not scored.
pub fn validate_attempt(
    a: &ExamAttempt,
    exam: &GeneratedExam,
    config: &ExamConfig,
    priors: &Vec<PriorAttempt>,
    moderation: &Option<ModerationRecord>,
) -> (r: Result<(), AttemptError>)
    requires
        forall|i: int|
            0 <= i < priors@.len() ==> (#[trigger] priors@[i]).start_time_in_m_s
                + config.retake_time_in_m_s <= u64::MAX,
    ensures
        r == attempt_check(*a, *exam, *config, priors@, *moderation),
{
    // Structure.
    if a.generated_exam_id != exam.id || a.exam_id != exam.exam_id {
        return Result::Err(AttemptError::UnknownReference);
    }
    let mut k: usize = 0;
    while k < a.question_sets.len()
        invariant
            0 <= k <= a.question_sets@.len(),
            forall|j: int|
                0 <= j < k ==> set_attempt_structure_ok(#[trigger] a.question_sets@[j], *exam),
        decreases a.question_sets@.len() - k,
    {
        let sa = &a.question_sets[k];
        match find_gen_set(&exam.question_sets, sa.id) {
            Option::None => {
                proof {
                    assert(!set_attempt_structure_ok(a.question_sets@[k as int], *exam));
                }
                return Result::Err(AttemptError::UnknownReference);
            },
            Option::Some(gs) => {
                let mut i: usize = 0;
                while i < sa.questions.len()
                    invariant
                        0 <= i <= sa.questions@.len(),
                        forall|j: int|
                            0 <= j < i ==> find_question(
                                gs.questions@,
                                (#[trigger] sa.questions@[j]).id,
                            ) is Some,
                    decreases sa.questions@.len() - i,
                {
                    if find_gen_question(&gs.questions, sa.questions[i].id).is_none() {
                        proof {
                            assert(!set_attempt_structure_ok(a.question_sets@[k as int], *exam));
                        }
                        return Result::Err(AttemptError::UnknownReference);
                    }
                    i = i + 1;
                }
            },
        }
        k = k + 1;
    }
    assert(attempt_structure_ok(*a, *exam));

    // Timing: every submission within the budget from the attempt's start.
    let mut k: usize = 0;
    while k < a.question_sets.len()
        invariant
            0 <= k <= a.question_sets@.len(),
            forall|kk: int, ii: int|
                0 <= kk < k && 0 <= ii < a.question_sets@[kk].questions@.len()
                    ==> (#[trigger] a.question_sets@[kk].questions@[ii]).submission_time_in_m_s
                    <= a.start_time_in_m_s + config.total_time_in_m_s,
        decreases a.question_sets@.len() - k,
    {
        let sa = &a.question_sets[k];
        let mut i: usize = 0;
        while i < sa.questions.len()
            invariant
                0 <= i <= sa.questions@.len(),
                forall|ii: int|
                    0 <= ii < i ==> (#[trigger] sa.questions@[ii]).submission_time_in_m_s
                        <= a.start_time_in_m_s + config.total_time_in_m_s,
            decreases sa.questions@.len() - i,
        {
            let q = &sa.questions[i];
            if (q.submission_time_in_m_s as u128) > (a.start_time_in_m_s as u128)
                + (config.total_time_in_m_s as u128) {
                return Result::Err(AttemptError::Expired);
            }
            i = i + 1;
        }
        k = k + 1;
    }
    assert(attempt_within_time(*a, config.total_time_in_m_s));

    // Retake cooldown against prior attempts on the same template.
    let mut earliest: u64 = 0;
    let mut i: usize = 0;
    while i < priors.len()
        invariant
            0 <= i <= priors@.len(),
            earliest as int == earliest_retake_upto(
                priors@,
                a.exam_id,
                config.retake_time_in_m_s,
                i as int,
            ),
            forall|j: int|
                0 <= j < i && (#[trigger] priors@[j]).exam_id == a.exam_id ==> priors@[
                    j
                ].start_time_in_m_s + config.retake_time_in_m_s <= earliest,
            earliest == 0 || exists|j: int|
                0 <= j < i && (#[trigger] priors@[j]).exam_id == a.exam_id && priors@[
                    j
                ].start_time_in_m_s + config.retake_time_in_m_s == earliest,
        decreases priors@.len() - i,
    {
        let p = priors[i];
        if p.exam_id == a.exam_id {
            let cand = p.start_time_in_m_s + config.retake_time_in_m_s;
            if cand > earliest {
                earliest = cand;
            }
        }
        i = i + 1;
    }
    if earliest > a.start_time_in_m_s {
        proof {
            assert(!retake_ok(*a, priors@, config.retake_time_in_m_s));
        }
        return Result::Err(AttemptError::RetakeTooSoon { earliest_start_in_m_s: earliest });
    }
    assert(retake_ok(*a, priors@, config.retake_time_in_m_s));

    // Moderation: the template version must currently be approved.
    if !record_permits_generation(moderation, exam.exam_id, exam.version) {
        return Result::Err(AttemptError::TemplateNotApproved);
    }
    Result::Ok(())
}

/// The retake cooldown boundary: with a prior attempt at time `T` on the
/// same template, an attempt starting strictly before `T` plus the
/// cooldown violates the cooldown, and one starting at or after it
/// satisfies the cooldown.
pub proof fn lemma_retake_boundary(
    prior: PriorAttempt,
    a1: ExamAttempt,
    a2: ExamAttempt,
    retake_time_in_m_s: u64,
)
    requires
        a1.exam_id == prior.exam_id,
        a2.exam_id == prior.exam_id,
        a1.start_time_in_m_s < prior.start_time_in_m_s + retake_time_in_m_s,
        a2.start_time_in_m_s >= prior.start_time_in_m_s + retake_time_in_m_s,
    ensures
        !retake_ok(a1, seq![prior], retake_time_in_m_s),
        retake_ok(a2, seq![prior], retake_time_in_m_s),
{
    assert(seq![prior][0] == prior);
    assert(!(prior.start_time_in_m_s + retake_time_in_m_s <= a1.start_time_in_m_s));
}

} // verus!
