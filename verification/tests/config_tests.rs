use exam_engine::config::ConfigError;
use exam_engine::config::ExamConfig;
use exam_engine::config::QuestionSetQuota;
use exam_engine::config::QuestionType;
use exam_engine::config::TagQuota;
use exam_engine::config::validate_config;

fn base_config() -> ExamConfig {
    ExamConfig {
        name: "listening".to_string(),
        note: "".to_string(),
        tags: Vec::new(),
        total_time_in_m_s: 7_200_000,
        total_time_in_s: Some(7200),
        question_sets: vec![QuestionSetQuota {
            question_type: QuestionType::MultipleChoice,
            number_of_set: 1,
            number_of_questions: 2,
            number_of_correct_answers: 1,
            number_of_incorrect_answers: 3,
        }],
        retake_time_in_m_s: 86_400_000,
        retake_time_in_s: Some(86_400),
        passing_percent: 80,
    }
}

#[test]
fn valid_config_is_accepted() {
    assert_eq!(validate_config(&base_config()), Ok(()));
}

#[test]
fn validation_is_idempotent() {
    let c = base_config();
    let first = validate_config(&c);
    let second = validate_config(&c);
    assert_eq!(first, second);

    let mut bad = base_config();
    bad.passing_percent = 101;
    let first = validate_config(&bad);
    let second = validate_config(&bad);
    assert_eq!(first, second);
}

#[test]
fn passing_percent_above_hundred_is_rejected() {
    let mut c = base_config();
    c.passing_percent = 101;
    assert_eq!(validate_config(&c), Err(ConfigError::PassingPercentOutOfRange));
}

#[test]
fn passing_percent_bounds_are_inclusive() {
    let mut c = base_config();
    c.passing_percent = 100;
    assert_eq!(validate_config(&c), Ok(()));
    c.passing_percent = 0;
    assert_eq!(validate_config(&c), Ok(()));
}

#[test]
fn zero_total_time_is_rejected() {
    let mut c = base_config();
    c.total_time_in_m_s = 0;
    c.total_time_in_s = None;
    assert_eq!(validate_config(&c), Err(ConfigError::NonPositiveTotalTime));
}

#[test]
fn zero_retake_time_is_rejected() {
    let mut c = base_config();
    c.retake_time_in_m_s = 0;
    c.retake_time_in_s = None;
    assert_eq!(validate_config(&c), Err(ConfigError::NonPositiveRetakeTime));
}

#[test]
fn total_time_mirror_mismatch_is_an_error_not_corrected() {
    let mut c = base_config();
    c.total_time_in_s = Some(7201);
    assert_eq!(validate_config(&c), Err(ConfigError::TotalTimeMirrorMismatch));
}

#[test]
fn retake_time_mirror_mismatch_is_rejected() {
    let mut c = base_config();
    c.retake_time_in_s = Some(1);
    assert_eq!(validate_config(&c), Err(ConfigError::RetakeTimeMirrorMismatch));
}

#[test]
fn missing_mirrors_are_accepted() {
    let mut c = base_config();
    c.total_time_in_s = None;
    c.retake_time_in_s = None;
    assert_eq!(validate_config(&c), Ok(()));
}

#[test]
fn mirror_rounds_half_up_to_nearest_second() {
    let mut c = base_config();
    c.total_time_in_m_s = 1500;
    c.total_time_in_s = Some(2);
    assert_eq!(validate_config(&c), Ok(()));

    c.total_time_in_m_s = 1499;
    c.total_time_in_s = Some(1);
    assert_eq!(validate_config(&c), Ok(()));

    c.total_time_in_m_s = 1499;
    c.total_time_in_s = Some(2);
    assert_eq!(validate_config(&c), Err(ConfigError::TotalTimeMirrorMismatch));
}

#[test]
fn zero_tag_quota_count_is_rejected() {
    let mut c = base_config();
    c.tags = vec![TagQuota { group: vec![7], number_of_questions: 0 }];
    assert_eq!(validate_config(&c), Err(ConfigError::ZeroTagQuotaCount));
}

#[test]
fn zero_sampling_quota_count_is_rejected() {
    let mut c = base_config();
    c.question_sets[0].number_of_correct_answers = 0;
    assert_eq!(validate_config(&c), Err(ConfigError::ZeroQuotaCount));
}

#[test]
fn tag_quotas_must_cover_the_question_count() {
    let mut c = base_config();
    // One tag quota worth a single question cannot cover a two-question set.
    c.tags = vec![TagQuota { group: vec![7], number_of_questions: 1 }];
    assert_eq!(validate_config(&c), Err(ConfigError::TagQuotaInsufficient));

    // Two together reach the demanded count.
    c.tags = vec![
        TagQuota { group: vec![7], number_of_questions: 1 },
        TagQuota { group: vec![8], number_of_questions: 1 },
    ];
    assert_eq!(validate_config(&c), Ok(()));
}

#[test]
fn default_config_is_valid() {
    let c = ExamConfig::default();
    assert_eq!(c.total_time_in_m_s, 7_200_000);
    assert_eq!(c.total_time_in_s, Some(7200));
    assert_eq!(c.retake_time_in_m_s, 86_400_000);
    assert_eq!(c.retake_time_in_s, Some(86_400));
    assert_eq!(c.passing_percent, 80);
    assert!(c.tags.is_empty());
    assert!(c.question_sets.is_empty());
    assert_eq!(validate_config(&c), Ok(()));
}
