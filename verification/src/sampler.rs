//! The quota sampler: template in, concrete keyed exam instance out.
//!
//! Each sampling quota is processed independently, in template order. For a
//! quota the sampler builds the eligible pool (non-deprecated questions in
//! sets of the quota's type that match the declared tag groups and own at
//! least one correct answer), draws the demanded number of distinct
//! questions per generated set — the pool resets between sets — and fills
//! each drawn question with the demanded number of correct and incorrect
//! answers, shuffled together. Any shortfall aborts the whole generation:
//! a template is fully satisfiable or nothing is returned.
#![verifier::loop_isolation(false)]

use vstd::prelude::*;

use crate::config::QuestionSetQuota;
use crate::config::TagQuota;
use crate::ids::Id;
use crate::ids::IdGen;
use crate::rng::Rng;
use crate::template::ExamTemplate;
use crate::template::Question;
use crate::template::QuestionSetTemplate;
use crate::template::correct_ids;
use crate::template::incorrect_ids;
use crate::template::split_answer_ids;
use crate::generated::KeyedExam;
use crate::generated::KeyedQuestion;
use crate::generated::KeyedQuestionSet;
use crate::generated::copy_ids;
use crate::draw::draw;
use crate::moderation::ModerationRecord;
use crate::moderation::approves_generation;
use crate::moderation::record_permits_generation;

verus! {

/// A question matches the declared tag quotas when none are declared, or
/// when one of its tags belongs to some declared group.
pub open spec fn question_matches_tags(q: Question, tags: Seq<TagQuota>) -> bool {
    tags.len() == 0 || exists|i: int, j: int|
        0 <= i < tags.len() && 0 <= j < q.tags@.len() && tags[i].group@.contains(q.tags@[j])
}

/// A question owns at least one answer flagged correct.
pub open spec fn has_correct_answer(q: Question) -> bool {
    exists|i: int| 0 <= i < q.answers@.len() && q.answers@[i].is_correct
}

/// Eligibility of a bank question for sampling: not deprecated, matching
/// the tag quotas, and owning at least one correct answer.
pub open spec fn question_eligible(q: Question, tags: Seq<TagQuota>) -> bool {
    &&& !q.deprecated
    &&& question_matches_tags(q, tags)
    &&& has_correct_answer(q)
}

/// The eligible questions among the first `n` of one authored set.
pub open spec fn set_pool(qs: Seq<Question>, tags: Seq<TagQuota>, n: int) -> Seq<Question>
    decreases n,
{
    if n <= 0 {
        Seq::empty()
    } else if question_eligible(qs[n - 1], tags) {
        set_pool(qs, tags, n - 1).push(qs[n - 1])
    } else {
        set_pool(qs, tags, n - 1)
    }
}

/// The eligible pool of a quota over the first `k` authored sets: eligible
/// questions of every set whose type is the quota's, in template order.
pub open spec fn pool_upto(
    sets: Seq<QuestionSetTemplate>,
    quota: QuestionSetQuota,
    tags: Seq<TagQuota>,
    k: int,
) -> Seq<Question>
    decreases k,
{
    if k <= 0 {
        Seq::empty()
    } else {
        let prev = pool_upto(sets, quota, tags, k - 1);
        if sets[k - 1].question_type == quota.question_type {
            prev + set_pool(sets[k - 1].questions@, tags, sets[k - 1].questions@.len() as int)
        } else {
            prev
        }
    }
}

/// The whole eligible pool of a quota within a template.
pub open spec fn eligible_pool_spec(t: ExamTemplate, quota: QuestionSetQuota) -> Seq<Question> {
    pool_upto(t.question_sets@, quota, t.config.tags@, t.question_sets@.len() as int)
}

/// Whether a tag code occurs in a list.
fn contains_tag(v: &Vec<u64>, x: u64) -> (b: bool)
    ensures
        b == v@.contains(x),
{
    let mut i: usize = 0;
    while i < v.len()
        invariant
            0 <= i <= v@.len(),
            forall|j: int| 0 <= j < i ==> v@[j] != x,
        decreases v@.len() - i,
    {
        if v[i] == x {
            return true;
        }
        i = i + 1;
    }
    false
}

/// Whether a question matches the declared tag quotas.
fn tags_match(q: &Question, tags: &Vec<TagQuota>) -> (b: bool)
    ensures
        b == question_matches_tags(*q, tags@),
{
    if tags.len() == 0 {
        return true;
    }
    let mut i: usize = 0;
    while i < tags.len()
        invariant
            0 <= i <= tags@.len(),
            forall|ii: int, jj: int|
                0 <= ii < i && 0 <= jj < q.tags@.len() ==> !tags@[ii].group@.contains(q.tags@[jj]),
        decreases tags@.len() - i,
    {
        let mut j: usize = 0;
        while j < q.tags.len()
            invariant
                0 <= j <= q.tags@.len(),
                forall|jj: int| 0 <= jj < j ==> !tags@[i as int].group@.contains(q.tags@[jj]),
            decreases q.tags@.len() - j,
        {
            if contains_tag(&tags[i].group, q.tags[j]) {
                assert(tags@[i as int].group@.contains(q.tags@[j as int]));
                return true;
            }
            j = j + 1;
        }
        i = i + 1;
    }
    false
}

/// Whether a question owns an answer flagged correct.
fn has_correct(q: &Question) -> (b: bool)
    ensures
        b == has_correct_answer(*q),
{
    let mut i: usize = 0;
    while i < q.answers.len()
        invariant
            0 <= i <= q.answers@.len(),
            forall|j: int| 0 <= j < i ==> !q.answers@[j].is_correct,
        decreases q.answers@.len() - i,
    {
        if q.answers[i].is_correct {
            return true;
        }
        i = i + 1;
    }
    false
}

/// A position of a bank question within a template: authored set index and
/// question index within that set.
pub open spec fn pair_valid(t: ExamTemplate, p: (usize, usize)) -> bool {
    p.0 < t.question_sets@.len() && p.1 < t.question_sets@[p.0 as int].questions@.len()
}

/// The bank question a position points at.
pub open spec fn question_at(t: ExamTemplate, p: (usize, usize)) -> Question {
    t.question_sets@[p.0 as int].questions@[p.1 as int]
}

/// Build the eligible pool of a quota, as positions into the template, in
/// template order; position `i` points at the `i`-th question of the spec
/// pool.
fn eligible_pool(t: &ExamTemplate, quota: &QuestionSetQuota) -> (pool: Vec<(usize, usize)>)
    ensures
        pool@.len() == eligible_pool_spec(*t, *quota).len(),
        forall|i: int|
            0 <= i < pool@.len() ==> pair_valid(*t, #[trigger] pool@[i]) && question_at(
                *t,
                pool@[i],
            ) == eligible_pool_spec(*t, *quota)[i],
{
    let ghost tags = t.config.tags@;
    let mut pool: Vec<(usize, usize)> = Vec::new();
    let mut k: usize = 0;
    while k < t.question_sets.len()
        invariant
            0 <= k <= t.question_sets@.len(),
            pool@.len() == pool_upto(t.question_sets@, *quota, tags, k as int).len(),
            forall|i: int|
                0 <= i < pool@.len() ==> pair_valid(*t, #[trigger] pool@[i]) && question_at(
                    *t,
                    pool@[i],
                ) == pool_upto(t.question_sets@, *quota, tags, k as int)[i],
        decreases t.question_sets@.len() - k,
    {
        let st = &t.question_sets[k];
        if st.question_type == quota.question_type {
            let ghost base = pool_upto(t.question_sets@, *quota, tags, k as int);
            let mut j: usize = 0;
            while j < st.questions.len()
                invariant
                    0 <= j <= st.questions@.len(),
                    pool@.len() == base.len() + set_pool(st.questions@, tags, j as int).len(),
                    forall|i: int|
                        0 <= i < pool@.len() ==> pair_valid(*t, #[trigger] pool@[i])
                            && question_at(*t, pool@[i]) == (base + set_pool(
                            st.questions@,
                            tags,
                            j as int,
                        ))[i],
                decreases st.questions@.len() - j,
            {
                let q = &st.questions[j];
                let eligible = !q.deprecated && tags_match(q, &t.config.tags) && has_correct(q);
                if eligible {
                    pool.push((k, j));
                    proof {
                        assert(base + set_pool(st.questions@, tags, j as int + 1) =~= (base
                            + set_pool(st.questions@, tags, j as int)).push(st.questions@[j as int]));
                    }
                } else {
                    proof {
                        assert(base + set_pool(st.questions@, tags, j as int + 1) =~= base
                            + set_pool(st.questions@, tags, j as int));
                    }
                }
                j = j + 1;
            }
            proof {
                assert(pool_upto(t.question_sets@, *quota, tags, k as int + 1) =~= base + set_pool(
                    st.questions@,
                    tags,
                    st.questions@.len() as int,
                ));
            }
        } else {
            proof {
                assert(pool_upto(t.question_sets@, *quota, tags, k as int + 1) =~= pool_upto(
                    t.question_sets@,
                    *quota,
                    tags,
                    k as int,
                ));
            }
        }
        k = k + 1;
    }
    pool
}

/// Why generation was refused. Pool and answer shortfalls are template
/// authoring defects; none of these is transient, so nothing is retried.
#[derive(Clone, Copy, Debug, PartialEq, Eq, Structural)]
pub enum GenerationError {
    TemplateNotApproved,
    InsufficientPool,
    InsufficientAnswers,
}

/// A generated question is correctly filled from bank question `bq`: the
/// demanded number of correct identities, recorded as the key subset, plus
/// the demanded number of incorrect identities, with the presented list a
/// shuffle of exactly those.
pub open spec fn question_filled_from(kq: KeyedQuestion, bq: Question, nc: int, ni: int) -> bool {
    &&& kq.correct@.len() == nc
    &&& kq.answers@.len() == nc + ni
    &&& kq.correct@.to_multiset().subset_of(correct_ids(bq).to_multiset())
    &&& exists|ik: Seq<Id>|
        #![trigger ik.to_multiset()]
        {
            &&& ik.len() == ni
            &&& ik.to_multiset().subset_of(incorrect_ids(bq).to_multiset())
            &&& kq.answers@.to_multiset() == kq.correct@.to_multiset().add(ik.to_multiset())
        }
}

/// A generated question is sound for a quota: filled from some question of
/// the quota's eligible pool, with the quota's answer counts.
pub open spec fn question_ok(kq: KeyedQuestion, t: ExamTemplate, quota: QuestionSetQuota) -> bool {
    exists|j: int|
        0 <= j < eligible_pool_spec(t, quota).len() && question_filled_from(
            kq,
            #[trigger] eligible_pool_spec(t, quota)[j],
            quota.number_of_correct_answers as int,
            quota.number_of_incorrect_answers as int,
        )
}

/// A generated set is sound for a quota: exactly the demanded number of
/// questions, each sound.
pub open spec fn set_ok(ks: KeyedQuestionSet, t: ExamTemplate, quota: QuestionSetQuota) -> bool {
    &&& ks.questions@.len() == quota.number_of_questions
    &&& forall|i: int|
        0 <= i < ks.questions@.len() ==> question_ok(#[trigger] ks.questions@[i], t, quota)
}

/// `n` copies of one quota, one per generated set.
pub open spec fn repeat_quota(q: QuestionSetQuota, n: nat) -> Seq<QuestionSetQuota>
    decreases n,
{
    if n == 0 {
        Seq::empty()
    } else {
        repeat_quota(q, (n - 1) as nat).push(q)
    }
}

/// The quotas flattened set by set: quota `i` contributes
/// `number_of_set` consecutive entries, in template order.
pub open spec fn flat_shapes(quotas: Seq<QuestionSetQuota>) -> Seq<QuestionSetQuota>
    decreases quotas.len(),
{
    if quotas.len() == 0 {
        Seq::empty()
    } else {
        flat_shapes(quotas.drop_last()) + repeat_quota(
            quotas.last(),
            quotas.last().number_of_set as nat,
        )
    }
}

/// A keyed exam satisfies every quota of the template exactly: one
/// generated set per flattened quota entry, each sound for its quota.
pub open spec fn exam_satisfies_quotas(ke: KeyedExam, t: ExamTemplate) -> bool {
    &&& ke.question_sets@.len() == flat_shapes(t.config.question_sets@).len()
    &&& forall|k: int|
        0 <= k < ke.question_sets@.len() ==> set_ok(
            #[trigger] ke.question_sets@[k],
            t,
            flat_shapes(t.config.question_sets@)[k],
        )
}

/// A quota's pool holds at least the questions demanded per set.
pub open spec fn quota_pool_sufficient(t: ExamTemplate, q: QuestionSetQuota) -> bool {
    eligible_pool_spec(t, q).len() >= q.number_of_questions
}

/// Every question of a quota's pool owns enough correct and enough
/// incorrect answers for the quota.
pub open spec fn quota_answers_sufficient(t: ExamTemplate, q: QuestionSetQuota) -> bool {
    forall|j: int|
        0 <= j < eligible_pool_spec(t, q).len() ==> correct_ids(
            #[trigger] eligible_pool_spec(t, q)[j],
        ).len() >= q.number_of_correct_answers && incorrect_ids(
            eligible_pool_spec(t, q)[j],
        ).len() >= q.number_of_incorrect_answers
}

/// Every quota of the template can be satisfied whatever the draws pick.
pub open spec fn template_satisfiable(t: ExamTemplate) -> bool {
    forall|i: int|
        0 <= i < t.config.question_sets@.len() ==> quota_pool_sufficient(
            t,
            #[trigger] t.config.question_sets@[i],
        ) && quota_answers_sufficient(t, t.config.question_sets@[i])
}

proof fn lemma_repeat_quota_len(q: QuestionSetQuota, n: nat)
    ensures
        repeat_quota(q, n).len() == n,
    decreases n,
{
    if n > 0 {
        lemma_repeat_quota_len(q, (n - 1) as nat);
    }
}

proof fn lemma_repeat_quota_index(q: QuestionSetQuota, n: nat, k: int)
    requires
        0 <= k < n,
    ensures
        repeat_quota(q, n)[k] == q,
    decreases n,
{
    lemma_repeat_quota_len(q, n);
    if k < n - 1 {
        lemma_repeat_quota_index(q, (n - 1) as nat, k);
    } else {
        lemma_repeat_quota_len(q, (n - 1) as nat);
    }
}

proof fn lemma_flat_shapes_step(quotas: Seq<QuestionSetQuota>, qi: int)
    requires
        0 <= qi < quotas.len(),
    ensures
        flat_shapes(quotas.take(qi + 1)) == flat_shapes(quotas.take(qi)) + repeat_quota(
            quotas[qi],
            quotas[qi].number_of_set as nat,
        ),
{
    assert(quotas.take(qi + 1).drop_last() =~= quotas.take(qi));
    assert(quotas.take(qi + 1).last() == quotas[qi]);
}

/// Fill one generated question from bank question `bq`: draw the demanded
/// correct and incorrect answer identities without replacement, shuffle
/// them together for presentation, and record the drawn correct subset.
fn build_question(
    rng: &mut Rng,
    ids: &mut IdGen,
    bq: &Question,
    nc: u64,
    ni: u64,
) -> (r: Result<KeyedQuestion, GenerationError>)
    ensures
        r is Ok <==> correct_ids(*bq).len() >= nc && incorrect_ids(*bq).len() >= ni,
        r matches Result::Ok(kq) ==> question_filled_from(kq, *bq, nc as int, ni as int),
        r is Err ==> r == Result::<KeyedQuestion, GenerationError>::Err(
            GenerationError::InsufficientAnswers,
        ),
{
    broadcast use vstd::seq_lib::group_to_multiset_ensures;

    let (corr, inc) = split_answer_ids(bq);
    if (corr.len() as u64) < nc || (inc.len() as u64) < ni {
        return Result::Err(GenerationError::InsufficientAnswers);
    }
    let nc_us = nc as usize;
    let ni_us = ni as usize;
    let ghost corr_view = corr@;
    let ghost inc_view = inc@;
    let ck = draw(rng, corr, nc_us);
    let ik = draw(rng, inc, ni_us);
    let mut combined = copy_ids(&ck);
    let mut i: usize = 0;
    while i < ik.len()
        invariant
            0 <= i <= ik@.len(),
            combined@ == ck@ + ik@.take(i as int),
        decreases ik@.len() - i,
    {
        combined.push(ik[i]);
        proof {
            assert(ck@ + ik@.take(i as int + 1) =~= (ck@ + ik@.take(i as int)).push(
                ik@[i as int],
            ));
        }
        i = i + 1;
    }
    proof {
        assert(ik@.take(ik@.len() as int) =~= ik@);
    }
    let ghost comb_view = combined@;
    let total = combined.len();
    let shuffled = draw(rng, combined, total);
    let id = ids.fresh();
    let kq = KeyedQuestion { id, answers: shuffled, correct: ck };
    proof {
        vstd::seq_lib::lemma_multiset_commutative(kq.correct@, ik@);
        assert(kq.answers@.to_multiset() == kq.correct@.to_multiset().add(ik@.to_multiset()));
        assert(ik@.len() == ni && ik@.to_multiset().subset_of(incorrect_ids(*bq).to_multiset()));
    }
    Result::Ok(kq)
}

/// Generate one concrete exam instance from a template.
///
/// The moderation record must approve the template's exact version; then
/// every quota is filled exactly or generation aborts with the shortfall,
/// never returning a partial exam. On success the result satisfies every
/// quota of the template, and a template whose pools and answers suffice
/// for all its quotas is guaranteed to generate.
pub fn generate_exam(
    t: &ExamTemplate,
    moderation: &Option<ModerationRecord>,
    rng: &mut Rng,
    ids: &mut IdGen,
) -> (r: Result<KeyedExam, GenerationError>)
    ensures
        r == Result::<KeyedExam, GenerationError>::Err(GenerationError::TemplateNotApproved)
            <==> !approves_generation(*moderation, t.id, t.version),
        r matches Result::Ok(ke) ==> {
            &&& ke.id == old(ids).next
            &&& ke.exam_id == t.id
            &&& ke.version == t.version
            &&& !ke.deprecated
            &&& exam_satisfies_quotas(ke, *t)
        },
        r == Result::<KeyedExam, GenerationError>::Err(GenerationError::InsufficientPool)
            ==> exists|i: int|
            0 <= i < t.config.question_sets@.len() && !quota_pool_sufficient(
                *t,
                #[trigger] t.config.question_sets@[i],
            ),
        r == Result::<KeyedExam, GenerationError>::Err(GenerationError::InsufficientAnswers)
            ==> exists|i: int|
            0 <= i < t.config.question_sets@.len() && !quota_answers_sufficient(
                *t,
                #[trigger] t.config.question_sets@[i],
            ),
        approves_generation(*moderation, t.id, t.version) && template_satisfiable(*t) ==> r is Ok,
{
    broadcast use vstd::seq_lib::group_to_multiset_ensures;

    if !record_permits_generation(moderation, t.id, t.version) {
        return Result::Err(GenerationError::TemplateNotApproved);
    }
    let new_exam_id = ids.fresh();
    let ghost quotas = t.config.question_sets@;
    let mut sets: Vec<KeyedQuestionSet> = Vec::new();
    let mut qi: usize = 0;
    while qi < t.config.question_sets.len()
        invariant
            0 <= qi <= quotas.len(),
            sets@.len() == flat_shapes(quotas.take(qi as int)).len(),
            forall|k: int|
                0 <= k < sets@.len() ==> set_ok(
                    #[trigger] sets@[k],
                    *t,
                    flat_shapes(quotas.take(qi as int))[k],
                ),
        decreases quotas.len() - qi,
    {
        let quota = t.config.question_sets[qi];
        let ghost shapes_before = flat_shapes(quotas.take(qi as int));
        let mut s: u64 = 0;
        while s < quota.number_of_set
            invariant
                0 <= s <= quota.number_of_set,
                sets@.len() == shapes_before.len() + s,
                forall|k: int|
                    0 <= k < shapes_before.len() ==> set_ok(
                        #[trigger] sets@[k],
                        *t,
                        shapes_before[k],
                    ),
                forall|k: int|
                    shapes_before.len() <= k < sets@.len() ==> set_ok(
                        #[trigger] sets@[k],
                        *t,
                        quota,
                    ),
            decreases quota.number_of_set - s,
        {
            let pool = eligible_pool(t, &quota);
            if (pool.len() as u64) < quota.number_of_questions {
                proof {
                    assert(!quota_pool_sufficient(*t, quotas[qi as int]));
                    assert(!template_satisfiable(*t));
                }
                return Result::Err(GenerationError::InsufficientPool);
            }
            let n_q = quota.number_of_questions as usize;
            let ghost pool_view = pool@;
            let chosen = draw(rng, pool, n_q);
            let mut qs: Vec<KeyedQuestion> = Vec::new();
            let mut i: usize = 0;
            while i < chosen.len()
                invariant
                    0 <= i <= chosen@.len(),
                    qs@.len() == i,
                    forall|j: int| 0 <= j < i ==> question_ok(#[trigger] qs@[j], *t, quota),
                decreases chosen@.len() - i,
            {
                let p = chosen[i];
                proof {
                    assert(chosen@.contains(p));
                    assert(chosen@.to_multiset().count(p) > 0);
                    assert(pool_view.to_multiset().count(p) > 0);
                    assert(pool_view.contains(p));
                }
                let ghost j = choose|j: int| 0 <= j < pool_view.len() && pool_view[j] == p;
                proof {
                    assert(pair_valid(*t, p));
                    assert(question_at(*t, p) == eligible_pool_spec(*t, quota)[j]);
                }
                let bq = &t.question_sets[p.0].questions[p.1];
                match build_question(
                    rng,
                    ids,
                    bq,
                    quota.number_of_correct_answers,
                    quota.number_of_incorrect_answers,
                ) {
                    Result::Ok(kq) => {
                        proof {
                            assert(question_filled_from(
                                kq,
                                eligible_pool_spec(*t, quota)[j],
                                quota.number_of_correct_answers as int,
                                quota.number_of_incorrect_answers as int,
                            ));
                            assert(question_ok(kq, *t, quota));
                        }
                        qs.push(kq);
                    },
                    Result::Err(_) => {
                        proof {
                            assert(!quota_answers_sufficient(*t, quotas[qi as int]));
                            assert(!template_satisfiable(*t));
                        }
                        return Result::Err(GenerationError::InsufficientAnswers);
                    },
                }
                i = i + 1;
            }
            let set_id = ids.fresh();
            let new_set = KeyedQuestionSet { id: set_id, questions: qs };
            proof {
                assert(set_ok(new_set, *t, quota));
            }
            sets.push(new_set);
            s = s + 1;
        }
        proof {
            lemma_flat_shapes_step(quotas, qi as int);
            lemma_repeat_quota_len(quota, quota.number_of_set as nat);
            assert forall|k: int| 0 <= k < sets@.len() implies set_ok(
                #[trigger] sets@[k],
                *t,
                flat_shapes(quotas.take(qi as int + 1))[k],
            ) by {
                if k >= shapes_before.len() {
                    lemma_repeat_quota_index(
                        quota,
                        quota.number_of_set as nat,
                        k - shapes_before.len(),
                    );
                }
            }
        }
        qi = qi + 1;
    }
    proof {
        assert(quotas.take(quotas.len() as int) =~= quotas);
    }
    Result::Ok(
        KeyedExam {
            id: new_exam_id,
            exam_id: t.id,
            question_sets: sets,
            deprecated: false,
            version: t.version,
        },
    )
}


} // verus!
