use exam_engine::attempt::ExamAttempt;
use exam_engine::attempt::MultipleChoiceQuestionAttempt;
use exam_engine::attempt::QuestionSetAttempt;
use exam_engine::attempt::validate_attempt;
use exam_engine::config::QuestionSetQuota;
use exam_engine::config::QuestionType;
use exam_engine::generated::answer_key;
use exam_engine::generated::project;
use exam_engine::ids::IdGen;
use exam_engine::moderation::ModerationRecord;
use exam_engine::moderation::ModerationStatus;
use exam_engine::rng::Rng;
use exam_engine::sampler::generate_exam;
use exam_engine::template::Answer;
use exam_engine::template::ExamTemplate;
use exam_engine::template::Question;
use exam_engine::template::QuestionSetTemplate;
use exam_engine::config::ExamConfig;
use exam_engine::generated::AnswerKey;
use exam_engine::generated::KeyEntry;
use exam_engine::generated::KeySet;
use exam_engine::score::score;

fn config(passing_percent: u64) -> ExamConfig {
    ExamConfig {
        name: "unit".to_string(),
        note: "".to_string(),
        tags: vec![],
        total_time_in_m_s: 7_200_000,
        total_time_in_s: None,
        question_sets: vec![],
        retake_time_in_m_s: 86_400_000,
        retake_time_in_s: None,
        passing_percent,
    }
}

/// A key with one set of two questions: question 700 expects {10, 11} and
/// question 701 expects {20}.
fn key() -> AnswerKey {
    AnswerKey {
        generated_exam_id: 500,
        sets: vec![KeySet {
            id: 600,
            entries: vec![
                KeyEntry { question_id: 700, correct: vec![10, 11] },
                KeyEntry { question_id: 701, correct: vec![20] },
            ],
        }],
    }
}

fn attempt_with(answers_700: Vec<u64>, answers_701: Vec<u64>) -> ExamAttempt {
    ExamAttempt {
        id: 900,
        user_id: 42,
        exam_id: 1,
        generated_exam_id: 500,
        question_sets: vec![QuestionSetAttempt {
            id: 600,
            questions: vec![
                MultipleChoiceQuestionAttempt {
                    id: 700,
                    answers: answers_700,
                    submission_time_in_m_s: 1000,
                },
                MultipleChoiceQuestionAttempt {
                    id: 701,
                    answers: answers_701,
                    submission_time_in_m_s: 2000,
                },
            ],
        }],
        start_time_in_m_s: 0,
        version: 1,
    }
}

#[test]
fn perfect_attempt_scores_a_full_hundred() {
    let r = score(&attempt_with(vec![10, 11], vec![20]), &key(), &config(80));
    assert_eq!(r.raw_correct, 2);
    assert_eq!(r.total, 2);
    assert_eq!(r.percent, 100);
    assert!(r.passed);
}

#[test]
fn perfect_attempt_passes_exactly_when_the_threshold_allows() {
    let r = score(&attempt_with(vec![10, 11], vec![20]), &key(), &config(100));
    assert_eq!(r.percent, 100);
    assert!(r.passed);
}

#[test]
fn answer_order_does_not_change_the_score() {
    let a = score(&attempt_with(vec![10, 11], vec![20]), &key(), &config(80));
    let b = score(&attempt_with(vec![11, 10], vec![20]), &key(), &config(80));
    assert_eq!(a, b);
    assert_eq!(b.percent, 100);
}

#[test]
fn partial_overlap_scores_zero_for_that_question() {
    // Question 700 answered with only one of its two correct identities:
    // all-or-nothing, so it scores zero; 701 is exact.
    let r = score(&attempt_with(vec![10], vec![20]), &key(), &config(80));
    assert_eq!(r.raw_correct, 1);
    assert_eq!(r.total, 2);
    assert_eq!(r.percent, 50);
    assert!(!r.passed);
}

#[test]
fn extra_answers_score_zero_for_that_question() {
    let r = score(&attempt_with(vec![10, 11, 12], vec![20]), &key(), &config(80));
    assert_eq!(r.raw_correct, 1);
    assert_eq!(r.percent, 50);
}

#[test]
fn unanswered_questions_count_against_the_attempt() {
    let mut a = attempt_with(vec![10, 11], vec![20]);
    a.question_sets[0].questions.pop();
    let r = score(&a, &key(), &config(80));
    assert_eq!(r.raw_correct, 1);
    assert_eq!(r.total, 2);
    assert_eq!(r.percent, 50);
}

#[test]
fn percent_is_rounded_down() {
    let key = AnswerKey {
        generated_exam_id: 500,
        sets: vec![KeySet {
            id: 600,
            entries: vec![
                KeyEntry { question_id: 700, correct: vec![10] },
                KeyEntry { question_id: 701, correct: vec![20] },
                KeyEntry { question_id: 702, correct: vec![30] },
            ],
        }],
    };
    let a = ExamAttempt {
        id: 900,
        user_id: 42,
        exam_id: 1,
        generated_exam_id: 500,
        question_sets: vec![QuestionSetAttempt {
            id: 600,
            questions: vec![
                MultipleChoiceQuestionAttempt {
                    id: 700,
                    answers: vec![10],
                    submission_time_in_m_s: 1,
                },
                MultipleChoiceQuestionAttempt {
                    id: 701,
                    answers: vec![99],
                    submission_time_in_m_s: 2,
                },
            ],
        }],
        start_time_in_m_s: 0,
        version: 1,
    };
    let r = score(&a, &key, &config(33));
    assert_eq!(r.raw_correct, 1);
    assert_eq!(r.total, 3);
    assert_eq!(r.percent, 33);
    assert!(r.passed);
}

#[test]
fn empty_key_scores_a_full_hundred() {
    let key = AnswerKey { generated_exam_id: 500, sets: vec![] };
    let a = attempt_with(vec![], vec![]);
    let r = score(&a, &key, &config(80));
    assert_eq!(r.total, 0);
    assert_eq!(r.percent, 100);
    assert!(r.passed);
}

#[test]
fn generated_exam_round_trip_scores_perfectly() {
    let questions: Vec<Question> = (1u64..=5)
        .map(|id| Question {
            id,
            text: format!("q{id}"),
            tags: vec![],
            audio: None,
            answers: vec![
                Answer { id: id * 10, text: "right".to_string(), is_correct: true },
                Answer { id: id * 10 + 1, text: "w".to_string(), is_correct: false },
                Answer { id: id * 10 + 2, text: "w".to_string(), is_correct: false },
                Answer { id: id * 10 + 3, text: "w".to_string(), is_correct: false },
            ],
            deprecated: false,
        })
        .collect();
    let t = ExamTemplate {
        id: 1,
        question_sets: vec![QuestionSetTemplate {
            id: 100,
            question_type: QuestionType::MultipleChoice,
            context: None,
            questions,
        }],
        config: ExamConfig {
            name: "flow".to_string(),
            note: "".to_string(),
            tags: vec![],
            total_time_in_m_s: 7_200_000,
            total_time_in_s: None,
            question_sets: vec![QuestionSetQuota {
                question_type: QuestionType::MultipleChoice,
                number_of_set: 1,
                number_of_questions: 2,
                number_of_correct_answers: 1,
                number_of_incorrect_answers: 3,
            }],
            retake_time_in_m_s: 86_400_000,
            retake_time_in_s: None,
            passing_percent: 80,
        },
        prerequisites: vec![],
        deprecated: false,
        version: 3,
    };
    let moderation = Some(ModerationRecord {
        exam_id: t.id,
        version: t.version,
        status: ModerationStatus::Approved,
    });
    let mut rng = Rng::from_seed(11);
    let mut ids = IdGen::new(1000);
    let ke = generate_exam(&t, &moderation, &mut rng, &mut ids).expect("generates");
    let ge = project(&ke);
    let key = answer_key(&ke);

    // Answer every generated question with exactly its key entry.
    let a = ExamAttempt {
        id: 2000,
        user_id: 42,
        exam_id: ge.exam_id,
        generated_exam_id: ge.id,
        question_sets: key
            .sets
            .iter()
            .map(|ks| QuestionSetAttempt {
                id: ks.id,
                questions: ks
                    .entries
                    .iter()
                    .map(|e| MultipleChoiceQuestionAttempt {
                        id: e.question_id,
                        answers: e.correct.clone(),
                        submission_time_in_m_s: 500,
                    })
                    .collect(),
            })
            .collect(),
        start_time_in_m_s: 0,
        version: 1,
    };
    assert_eq!(validate_attempt(&a, &ge, &t.config, &vec![], &moderation), Ok(()));
    let r = score(&a, &key, &t.config);
    assert_eq!(r.total, 2);
    assert_eq!(r.raw_correct, 2);
    assert_eq!(r.percent, 100);
    assert!(r.passed);
}
