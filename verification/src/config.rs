//! The exam template configuration and its validation.
//!
//! A configuration describes timing, the passing threshold, tag quotas and
//! per-question-set sampling quotas. `validate_config` is a pure check whose
//! result is pinned exactly by `config_check`, so validating the same
//! configuration twice always yields the same verdict.
#![verifier::loop_isolation(false)]

use vstd::prelude::*;

verus! {

/// The kind of question set a quota draws from.
#[derive(Clone, Copy, Debug, PartialEq, Eq, Structural)]
pub enum QuestionType {
    MultipleChoice,
    Dialogue,
}

/// A group of tag names (as numeric tag codes) together with how many
/// questions must be drawn from items matching any tag in the group.
#[derive(Clone, Debug)]
pub struct TagQuota {
    pub group: Vec<u64>,
    pub number_of_questions: u64,
}

/// How many sets to produce for a question-set type, and how each generated
/// question is filled: questions per set, correct and incorrect answers per
/// question.
#[derive(Clone, Copy, Debug, PartialEq, Eq, Structural)]
pub struct QuestionSetQuota {
    pub question_type: QuestionType,
    pub number_of_set: u64,
    pub number_of_questions: u64,
    pub number_of_correct_answers: u64,
    pub number_of_incorrect_answers: u64,
}

/// Canonical description of an exam template: timing (milliseconds, each with
/// an optional legacy seconds mirror), passing threshold in whole percent,
/// tag quotas and sampling quotas.
#[derive(Clone, Debug)]
pub struct ExamConfig {
    pub name: String,
    pub note: String,
    pub tags: Vec<TagQuota>,
    pub total_time_in_m_s: u64,
    pub total_time_in_s: Option<u64>,
    pub question_sets: Vec<QuestionSetQuota>,
    pub retake_time_in_m_s: u64,
    pub retake_time_in_s: Option<u64>,
    pub passing_percent: u64,
}

/// Why a configuration was rejected. Every variant reflects an authoring
/// defect; none is transient.
#[derive(Clone, Copy, Debug, PartialEq, Eq, Structural)]
pub enum ConfigError {
    PassingPercentOutOfRange,
    NonPositiveTotalTime,
    TotalTimeMirrorMismatch,
    NonPositiveRetakeTime,
    RetakeTimeMirrorMismatch,
    ZeroTagQuotaCount,
    ZeroQuotaCount,
    TagQuotaInsufficient,
}

/// A seconds mirror, when present, must equal the milliseconds value rounded
/// to the nearest second (half up). A mismatch is an error, never silently
/// corrected.
pub open spec fn seconds_mirror_ok(ms: u64, mirror: Option<u64>) -> bool {
    match mirror {
        Option::None => true,
        Option::Some(s) => s == (ms + 500) / 1000,
    }
}

/// Sum of the question counts demanded by the tag quotas.
pub open spec fn spec_tag_sum(tags: Seq<TagQuota>) -> int
    decreases tags.len(),
{
    if tags.len() == 0 {
        0
    } else {
        spec_tag_sum(tags.drop_last()) + tags.last().number_of_questions
    }
}

/// All four counts of a sampling quota must be at least one.
pub open spec fn quota_counts_positive(q: QuestionSetQuota) -> bool {
    &&& q.number_of_set >= 1
    &&& q.number_of_questions >= 1
    &&& q.number_of_correct_answers >= 1
    &&& q.number_of_incorrect_answers >= 1
}

/// When tag quotas are declared, their question counts together must reach
/// the quota's per-set question count; with no tag quotas any eligible
/// question may be used.
pub open spec fn quota_tags_satisfiable(q: QuestionSetQuota, tags: Seq<TagQuota>) -> bool {
    tags.len() == 0 || spec_tag_sum(tags) >= q.number_of_questions
}

/// The exact verdict of validation, as a function of the configuration alone.
pub open spec fn config_check(c: ExamConfig) -> Result<(), ConfigError> {
    if c.passing_percent > 100 {
        Result::Err(ConfigError::PassingPercentOutOfRange)
    } else if c.total_time_in_m_s == 0 {
        Result::Err(ConfigError::NonPositiveTotalTime)
    } else if !seconds_mirror_ok(c.total_time_in_m_s, c.total_time_in_s) {
        Result::Err(ConfigError::TotalTimeMirrorMismatch)
    } else if c.retake_time_in_m_s == 0 {
        Result::Err(ConfigError::NonPositiveRetakeTime)
    } else if !seconds_mirror_ok(c.retake_time_in_m_s, c.retake_time_in_s) {
        Result::Err(ConfigError::RetakeTimeMirrorMismatch)
    } else if exists|i: int| 0 <= i < c.tags@.len() && c.tags@[i].number_of_questions == 0 {
        Result::Err(ConfigError::ZeroTagQuotaCount)
    } else if exists|i: int|
        0 <= i < c.question_sets@.len() && !quota_counts_positive(c.question_sets@[i]) {
        Result::Err(ConfigError::ZeroQuotaCount)
    } else if exists|i: int|
        0 <= i < c.question_sets@.len() && !quota_tags_satisfiable(c.question_sets@[i], c.tags@) {
        Result::Err(ConfigError::TagQuotaInsufficient)
    } else {
        Result::Ok(())
    }
}

/// A configuration is valid exactly when the check accepts it.
pub open spec fn config_valid(c: ExamConfig) -> bool {
    config_check(c) == Result::<(), ConfigError>::Ok(())
}


impl Default for ExamConfig {
    /// The stock configuration: a two-hour exam, a one-day retake
    /// cooldown (both with their seconds mirrors), an eighty percent
    /// passing threshold, and no quotas yet.
    fn default() -> (c: ExamConfig)
        ensures
            c.name@ == Seq::<char>::empty(),
            c.note@ == Seq::<char>::empty(),
            c.tags@ == Seq::<TagQuota>::empty(),
            c.total_time_in_m_s == 7_200_000,
            c.total_time_in_s == Some(7200u64),
            c.question_sets@ == Seq::<QuestionSetQuota>::empty(),
            c.retake_time_in_m_s == 86_400_000,
            c.retake_time_in_s == Some(86_400u64),
            c.passing_percent == 80,
            config_valid(c),
    {
        let c = ExamConfig {
            name: String::new(),
            note: String::new(),
            tags: Vec::new(),
            total_time_in_m_s: 7_200_000,
            total_time_in_s: Some(7200),
            question_sets: Vec::new(),
            retake_time_in_m_s: 86_400_000,
            retake_time_in_s: Some(86_400),
            passing_percent: 80,
        };
        c
    }
}

/// Compare a milliseconds value against its optional seconds mirror.
fn mirror_consistent(ms: u64, mirror: &Option<u64>) -> (b: bool)
    ensures
        b == seconds_mirror_ok(ms, *mirror),
{
    match mirror {
        Option::None => true,
        Option::Some(s) => {
            let rounded: u128 = (ms as u128 + 500) / 1000;
            (*s as u128) == rounded
        },
    }
}

/// Sum of the tag quotas' question counts, saturating at `u64::MAX`.
fn tag_sum_capped(tags: &Vec<TagQuota>) -> (s: u64)
    ensures
        s as int == if spec_tag_sum(tags@) <= u64::MAX as int {
            spec_tag_sum(tags@)
        } else {
            u64::MAX as int
        },
{
    let mut acc: u64 = 0;
    let mut i: usize = 0;
    while i < tags.len()
        invariant
            0 <= i <= tags@.len(),
            acc as int == if spec_tag_sum(tags@.take(i as int)) <= u64::MAX as int {
                spec_tag_sum(tags@.take(i as int))
            } else {
                u64::MAX as int
            },
        decreases tags@.len() - i,
    {
        let v = tags[i].number_of_questions;
        proof {
            assert(tags@.take(i as int + 1).drop_last() =~= tags@.take(i as int));
            assert(tags@.take(i as int + 1).last() == tags@[i as int]);
        }
        if acc > u64::MAX - v {
            acc = u64::MAX;
        } else {
            acc = acc + v;
        }
        i = i + 1;
    }
    proof {
        assert(tags@.take(tags@.len() as int) =~= tags@);
    }
    acc
}

/// Validate an exam configuration.
///
/// Pure check with no side effects; the result equals `config_check` on the
/// input, so it is the same on every call with the same configuration.
pub fn validate_config(c: &ExamConfig) -> (r: Result<(), ConfigError>)
    ensures
        r == config_check(*c),
{
    if c.passing_percent > 100 {
        return Result::Err(ConfigError::PassingPercentOutOfRange);
    }
    if c.total_time_in_m_s == 0 {
        return Result::Err(ConfigError::NonPositiveTotalTime);
    }
    if !mirror_consistent(c.total_time_in_m_s, &c.total_time_in_s) {
        return Result::Err(ConfigError::TotalTimeMirrorMismatch);
    }
    if c.retake_time_in_m_s == 0 {
        return Result::Err(ConfigError::NonPositiveRetakeTime);
    }
    if !mirror_consistent(c.retake_time_in_m_s, &c.retake_time_in_s) {
        return Result::Err(ConfigError::RetakeTimeMirrorMismatch);
    }
    let mut i: usize = 0;
    while i < c.tags.len()
        invariant
            0 <= i <= c.tags@.len(),
            forall|j: int| 0 <= j < i ==> c.tags@[j].number_of_questions >= 1,
        decreases c.tags@.len() - i,
    {
        if c.tags[i].number_of_questions == 0 {
            return Result::Err(ConfigError::ZeroTagQuotaCount);
        }
        i = i + 1;
    }
    let mut k: usize = 0;
    while k < c.question_sets.len()
        invariant
            0 <= k <= c.question_sets@.len(),
            forall|j: int| 0 <= j < k ==> quota_counts_positive(c.question_sets@[j]),
        decreases c.question_sets@.len() - k,
    {
        let q = &c.question_sets[k];
        if q.number_of_set == 0 || q.number_of_questions == 0 || q.number_of_correct_answers == 0
            || q.number_of_incorrect_answers == 0 {
            return Result::Err(ConfigError::ZeroQuotaCount);
        }
        k = k + 1;
    }
    let sum = tag_sum_capped(&c.tags);
    let mut k: usize = 0;
    while k < c.question_sets.len()
        invariant
            0 <= k <= c.question_sets@.len(),
            forall|j: int| 0 <= j < k ==> quota_tags_satisfiable(c.question_sets@[j], c.tags@),
        decreases c.question_sets@.len() - k,
    {
        if c.tags.len() > 0 && sum < c.question_sets[k].number_of_questions {
            return Result::Err(ConfigError::TagQuotaInsufficient);
        }
        k = k + 1;
    }
    Result::Ok(())
}

/// Validation is a pure function of its input: two verdicts that both meet
/// `validate_config`'s contract on the same configuration are the same
/// verdict, so repeating the check can never change the outcome.
pub proof fn lemma_validate_config_deterministic(
    c: ExamConfig,
    r1: Result<(), ConfigError>,
    r2: Result<(), ConfigError>,
)
    requires
        r1 == config_check(c),
        r2 == config_check(c),
    ensures
        r1 == r2,
{
}

} // verus!
