use exam_engine::config::ExamConfig;
use exam_engine::config::QuestionSetQuota;
use exam_engine::config::QuestionType;
use exam_engine::config::TagQuota;
use exam_engine::generated::answer_key;
use exam_engine::generated::project;
use exam_engine::ids::IdGen;
use exam_engine::moderation::ModerationRecord;
use exam_engine::moderation::ModerationStatus;
use exam_engine::rng::Rng;
use exam_engine::sampler::GenerationError;
use exam_engine::sampler::generate_exam;
use exam_engine::template::Answer;
use exam_engine::template::ExamTemplate;
use exam_engine::template::Question;
use exam_engine::template::QuestionSetTemplate;

/// A bank question with one correct and three incorrect answers; answer
/// identities start at `id * 10`.
fn bank_question(id: u64) -> Question {
    Question {
        id,
        text: format!("question {id}"),
        tags: vec![],
        audio: None,
        answers: vec![
            Answer { id: id * 10, text: "right".to_string(), is_correct: true },
            Answer { id: id * 10 + 1, text: "wrong a".to_string(), is_correct: false },
            Answer { id: id * 10 + 2, text: "wrong b".to_string(), is_correct: false },
            Answer { id: id * 10 + 3, text: "wrong c".to_string(), is_correct: false },
        ],
        deprecated: false,
    }
}

fn template_with_bank(question_ids: &[u64]) -> ExamTemplate {
    ExamTemplate {
        id: 1,
        question_sets: vec![QuestionSetTemplate {
            id: 100,
            question_type: QuestionType::MultipleChoice,
            context: None,
            questions: question_ids.iter().map(|&id| bank_question(id)).collect(),
        }],
        config: ExamConfig {
            name: "unit".to_string(),
            note: "".to_string(),
            tags: vec![],
            total_time_in_m_s: 7_200_000,
            total_time_in_s: Some(7200),
            question_sets: vec![QuestionSetQuota {
                question_type: QuestionType::MultipleChoice,
                number_of_set: 1,
                number_of_questions: 2,
                number_of_correct_answers: 1,
                number_of_incorrect_answers: 3,
            }],
            retake_time_in_m_s: 86_400_000,
            retake_time_in_s: Some(86_400),
            passing_percent: 80,
        },
        prerequisites: vec![],
        deprecated: false,
        version: 3,
    }
}

fn approval(t: &ExamTemplate) -> Option<ModerationRecord> {
    Some(ModerationRecord { exam_id: t.id, version: t.version, status: ModerationStatus::Approved })
}

#[test]
fn quota_is_satisfied_exactly() {
    // One quota demanding one set of two questions, each with one correct
    // and three incorrect answers, against five eligible bank questions.
    let t = template_with_bank(&[1, 2, 3, 4, 5]);
    let mut rng = Rng::from_seed(42);
    let mut ids = IdGen::new(1000);
    let ke = generate_exam(&t, &approval(&t), &mut rng, &mut ids).expect("generates");

    assert_eq!(ke.id, 1000);
    assert_eq!(ke.exam_id, t.id);
    assert_eq!(ke.version, t.version);
    assert!(!ke.deprecated);
    assert_eq!(ke.question_sets.len(), 1);
    let set = &ke.question_sets[0];
    assert_eq!(set.questions.len(), 2);
    for q in &set.questions {
        assert_eq!(q.answers.len(), 4);
        assert_eq!(q.correct.len(), 1);
        // The correct identity is among the presented ones.
        assert!(q.answers.contains(&q.correct[0]));
        // All four presented identities belong to one single bank question.
        let base = q.correct[0];
        let mut expected = vec![base, base + 1, base + 2, base + 3];
        let mut got = q.answers.clone();
        expected.sort();
        got.sort();
        assert_eq!(got, expected);
    }
}

#[test]
fn several_sets_reuse_the_pool() {
    // Three sets of two questions from a pool of two: the pool resets per
    // set, so this is satisfiable.
    let mut t = template_with_bank(&[1, 2]);
    t.config.question_sets[0].number_of_set = 3;
    let mut rng = Rng::from_seed(7);
    let mut ids = IdGen::new(1);
    let ke = generate_exam(&t, &approval(&t), &mut rng, &mut ids).expect("generates");
    assert_eq!(ke.question_sets.len(), 3);
    for set in &ke.question_sets {
        assert_eq!(set.questions.len(), 2);
    }
}

#[test]
fn insufficient_pool_aborts_whole_generation() {
    // Two questions demanded per set, only one eligible in the bank.
    let t = template_with_bank(&[1]);
    let mut rng = Rng::from_seed(42);
    let mut ids = IdGen::new(1000);
    let r = generate_exam(&t, &approval(&t), &mut rng, &mut ids);
    assert_eq!(r.err(), Some(GenerationError::InsufficientPool));
}

#[test]
fn deprecated_questions_are_not_eligible() {
    let mut t = template_with_bank(&[1, 2]);
    t.question_sets[0].questions[0].deprecated = true;
    let mut rng = Rng::from_seed(42);
    let mut ids = IdGen::new(1000);
    let r = generate_exam(&t, &approval(&t), &mut rng, &mut ids);
    assert_eq!(r.err(), Some(GenerationError::InsufficientPool));
}

#[test]
fn questions_without_a_correct_answer_are_not_eligible() {
    let mut t = template_with_bank(&[1, 2]);
    for a in &mut t.question_sets[0].questions[1].answers {
        a.is_correct = false;
    }
    let mut rng = Rng::from_seed(42);
    let mut ids = IdGen::new(1000);
    let r = generate_exam(&t, &approval(&t), &mut rng, &mut ids);
    assert_eq!(r.err(), Some(GenerationError::InsufficientPool));
}

#[test]
fn insufficient_answers_abort_whole_generation() {
    // Quota asks for two correct answers per question but the bank
    // questions own a single one each.
    let mut t = template_with_bank(&[1, 2, 3, 4, 5]);
    t.config.question_sets[0].number_of_correct_answers = 2;
    let mut rng = Rng::from_seed(42);
    let mut ids = IdGen::new(1000);
    let r = generate_exam(&t, &approval(&t), &mut rng, &mut ids);
    assert_eq!(r.err(), Some(GenerationError::InsufficientAnswers));
}

#[test]
fn unapproved_template_cannot_generate() {
    let t = template_with_bank(&[1, 2, 3, 4, 5]);
    let mut rng = Rng::from_seed(42);
    let mut ids = IdGen::new(1000);

    let r = generate_exam(&t, &None, &mut rng, &mut ids);
    assert_eq!(r.err(), Some(GenerationError::TemplateNotApproved));

    let rejected = Some(ModerationRecord {
        exam_id: t.id,
        version: t.version,
        status: ModerationStatus::Rejected,
    });
    let r = generate_exam(&t, &rejected, &mut rng, &mut ids);
    assert_eq!(r.err(), Some(GenerationError::TemplateNotApproved));
}

#[test]
fn stale_approval_of_an_older_version_is_not_honored() {
    let t = template_with_bank(&[1, 2, 3, 4, 5]);
    let stale = Some(ModerationRecord {
        exam_id: t.id,
        version: t.version - 1,
        status: ModerationStatus::Approved,
    });
    let mut rng = Rng::from_seed(42);
    let mut ids = IdGen::new(1000);
    let r = generate_exam(&t, &stale, &mut rng, &mut ids);
    assert_eq!(r.err(), Some(GenerationError::TemplateNotApproved));
}

#[test]
fn projection_strips_exactly_the_correct_subsets() {
    let t = template_with_bank(&[1, 2, 3, 4, 5]);
    let mut rng = Rng::from_seed(9);
    let mut ids = IdGen::new(1);
    let ke = generate_exam(&t, &approval(&t), &mut rng, &mut ids).expect("generates");
    let ge = project(&ke);

    assert_eq!(ge.id, ke.id);
    assert_eq!(ge.exam_id, ke.exam_id);
    assert_eq!(ge.version, ke.version);
    assert_eq!(ge.deprecated, ke.deprecated);
    assert_eq!(ge.question_sets.len(), ke.question_sets.len());
    for (gs, ks) in ge.question_sets.iter().zip(ke.question_sets.iter()) {
        assert_eq!(gs.id, ks.id);
        assert_eq!(gs.questions.len(), ks.questions.len());
        for (gq, kq) in gs.questions.iter().zip(ks.questions.iter()) {
            assert_eq!(gq.id, kq.id);
            assert_eq!(gq.answers, kq.answers);
        }
    }
}

#[test]
fn answer_key_mirrors_the_keyed_exam() {
    let t = template_with_bank(&[1, 2, 3, 4, 5]);
    let mut rng = Rng::from_seed(9);
    let mut ids = IdGen::new(1);
    let ke = generate_exam(&t, &approval(&t), &mut rng, &mut ids).expect("generates");
    let key = answer_key(&ke);

    assert_eq!(key.generated_exam_id, ke.id);
    assert_eq!(key.sets.len(), ke.question_sets.len());
    for (kset, kqs) in key.sets.iter().zip(ke.question_sets.iter()) {
        assert_eq!(kset.id, kqs.id);
        assert_eq!(kset.entries.len(), kqs.questions.len());
        for (entry, q) in kset.entries.iter().zip(kqs.questions.iter()) {
            assert_eq!(entry.question_id, q.id);
            assert_eq!(entry.correct, q.correct);
        }
    }
}

#[test]
fn same_seed_replays_the_same_exam() {
    let t = template_with_bank(&[1, 2, 3, 4, 5]);
    let a = generate_exam(&t, &approval(&t), &mut Rng::from_seed(5), &mut IdGen::new(1))
        .expect("generates");
    let b = generate_exam(&t, &approval(&t), &mut Rng::from_seed(5), &mut IdGen::new(1))
        .expect("generates");
    assert_eq!(a.question_sets.len(), b.question_sets.len());
    for (sa, sb) in a.question_sets.iter().zip(b.question_sets.iter()) {
        assert_eq!(sa.id, sb.id);
        for (qa, qb) in sa.questions.iter().zip(sb.questions.iter()) {
            assert_eq!(qa.id, qb.id);
            assert_eq!(qa.answers, qb.answers);
            assert_eq!(qa.correct, qb.correct);
        }
    }
}

#[test]
fn tag_quotas_restrict_the_pool() {
    // Five bank questions, only two carry the demanded tag.
    let mut t = template_with_bank(&[1, 2, 3, 4, 5]);
    t.question_sets[0].questions[0].tags = vec![7];
    t.question_sets[0].questions[1].tags = vec![7];
    t.config.tags = vec![TagQuota { group: vec![7], number_of_questions: 2 }];
    let mut rng = Rng::from_seed(3);
    let mut ids = IdGen::new(1);
    let ke = generate_exam(&t, &approval(&t), &mut rng, &mut ids).expect("generates");
    let set = &ke.question_sets[0];
    assert_eq!(set.questions.len(), 2);
    for q in &set.questions {
        // Only the tagged questions 1 and 2 could supply these answers.
        assert!(q.correct[0] == 10 || q.correct[0] == 20);
    }
}
