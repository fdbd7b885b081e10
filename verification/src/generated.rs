//! Generated exam instances, and the separation of the answer key.
//!
//! Generation produces a `KeyedExam`, which still knows which presented
//! answers are correct. Two projections take it apart: `project` yields the
//! client-safe `GeneratedExam`, whose types carry identities only and have
//! no field that could encode correctness, and `answer_key` yields the
//! server-retained `AnswerKey`. The client-safe artifact provably depends
//! only on the keyed exam's skeleton, never on the correctness subsets.
#![verifier::loop_isolation(false)]

use vstd::prelude::*;

use crate::ids::Id;

verus! {

/// A generated question that still carries its correctness subset.
#[derive(Clone, Debug)]
pub struct KeyedQuestion {
    pub id: Id,
    /// Presented answer identities, in shuffled presentation order.
    pub answers: Vec<Id>,
    /// The subset of `answers` that is in fact correct.
    pub correct: Vec<Id>,
}

/// A generated question set that still carries correctness subsets.
#[derive(Clone, Debug)]
pub struct KeyedQuestionSet {
    pub id: Id,
    pub questions: Vec<KeyedQuestion>,
}

/// A freshly generated exam instance together with its answer key.
/// Server-side only; never handed to a client.
#[derive(Clone, Debug)]
pub struct KeyedExam {
    pub id: Id,
    pub exam_id: Id,
    pub question_sets: Vec<KeyedQuestionSet>,
    pub deprecated: bool,
    pub version: u64,
}

/// A presented question as the client sees it: identities only.
#[derive(Clone, Debug)]
pub struct GeneratedQuestion {
    pub id: Id,
    pub answers: Vec<Id>,
}

/// A presented question set as the client sees it.
#[derive(Clone, Debug)]
pub struct GeneratedQuestionSet {
    pub id: Id,
    pub questions: Vec<GeneratedQuestion>,
}

/// The client-safe artifact. By construction its types hold identities
/// only: there is no field in which correctness could travel.
#[derive(Clone, Debug)]
pub struct GeneratedExam {
    pub id: Id,
    pub exam_id: Id,
    pub question_sets: Vec<GeneratedQuestionSet>,
    pub deprecated: bool,
    pub version: u64,
}

/// The correct answer identities of one generated question.
#[derive(Clone, Debug)]
pub struct KeyEntry {
    pub question_id: Id,
    pub correct: Vec<Id>,
}

/// Key entries for one generated question set, in presentation order.
#[derive(Clone, Debug)]
pub struct KeySet {
    pub id: Id,
    pub entries: Vec<KeyEntry>,
}

/// The retained answer key of one generated exam, keyed by the exam's
/// identity. Never serialized into the client-safe artifact; only the
/// scorer reads it.
#[derive(Clone, Debug)]
pub struct AnswerKey {
    pub generated_exam_id: Id,
    pub sets: Vec<KeySet>,
}

/// The client-safe question carries the keyed question's identity and
/// presented answers, nothing else.
pub open spec fn question_projects(kq: KeyedQuestion, gq: GeneratedQuestion) -> bool {
    &&& gq.id == kq.id
    &&& gq.answers@ == kq.answers@
}

/// The client-safe set mirrors the keyed set question by question.
pub open spec fn set_projects(ks: KeyedQuestionSet, gs: GeneratedQuestionSet) -> bool {
    &&& gs.id == ks.id
    &&& gs.questions@.len() == ks.questions@.len()
    &&& forall|i: int|
        0 <= i < ks.questions@.len() ==> question_projects(
            ks.questions@[i],
            #[trigger] gs.questions@[i],
        )
}

/// The client-safe exam mirrors the keyed exam set by set.
pub open spec fn is_projection(ke: KeyedExam, ge: GeneratedExam) -> bool {
    &&& ge.id == ke.id
    &&& ge.exam_id == ke.exam_id
    &&& ge.deprecated == ke.deprecated
    &&& ge.version == ke.version
    &&& ge.question_sets@.len() == ke.question_sets@.len()
    &&& forall|k: int|
        0 <= k < ke.question_sets@.len() ==> set_projects(
            ke.question_sets@[k],
            #[trigger] ge.question_sets@[k],
        )
}

/// A key entry records the question's identity and its correct subset.
pub open spec fn entry_matches(kq: KeyedQuestion, e: KeyEntry) -> bool {
    &&& e.question_id == kq.id
    &&& e.correct@ == kq.correct@
}

/// A key set records one entry per question, in presentation order.
pub open spec fn key_set_matches(ks: KeyedQuestionSet, s: KeySet) -> bool {
    &&& s.id == ks.id
    &&& s.entries@.len() == ks.questions@.len()
    &&& forall|i: int|
        0 <= i < ks.questions@.len() ==> entry_matches(ks.questions@[i], #[trigger] s.entries@[i])
}

/// The key of a keyed exam: keyed by the generated exam's identity, one
/// entry per generated question.
pub open spec fn is_answer_key(ke: KeyedExam, key: AnswerKey) -> bool {
    &&& key.generated_exam_id == ke.id
    &&& key.sets@.len() == ke.question_sets@.len()
    &&& forall|k: int|
        0 <= k < ke.question_sets@.len() ==> key_set_matches(
            ke.question_sets@[k],
            #[trigger] key.sets@[k],
        )
}

/// Copy a list of identities.
pub fn copy_ids(v: &Vec<Id>) -> (r: Vec<Id>)
    ensures
        r@ == v@,
{
    let mut r: Vec<Id> = Vec::new();
    let mut i: usize = 0;
    while i < v.len()
        invariant
            0 <= i <= v@.len(),
            r@ == v@.take(i as int),
        decreases v@.len() - i,
    {
        r.push(v[i]);
        proof {
            assert(v@.take(i as int + 1) =~= v@.take(i as int).push(v@[i as int]));
        }
        i = i + 1;
    }
    proof {
        assert(v@.take(v@.len() as int) =~= v@);
    }
    r
}

/// Strip the correctness subsets from a keyed exam, leaving the client-safe
/// artifact. Pure structural copy; the result's types cannot carry
/// correctness data.
pub fn project(ke: &KeyedExam) -> (ge: GeneratedExam)
    ensures
        is_projection(*ke, ge),
{
    let mut sets: Vec<GeneratedQuestionSet> = Vec::new();
    let mut k: usize = 0;
    while k < ke.question_sets.len()
        invariant
            0 <= k <= ke.question_sets@.len(),
            sets@.len() == k,
            forall|j: int|
                0 <= j < k ==> set_projects(ke.question_sets@[j], #[trigger] sets@[j]),
        decreases ke.question_sets@.len() - k,
    {
        let ks = &ke.question_sets[k];
        let mut qs: Vec<GeneratedQuestion> = Vec::new();
        let mut i: usize = 0;
        while i < ks.questions.len()
            invariant
                0 <= i <= ks.questions@.len(),
                qs@.len() == i,
                forall|j: int|
                    0 <= j < i ==> question_projects(ks.questions@[j], #[trigger] qs@[j]),
            decreases ks.questions@.len() - i,
        {
            let kq = &ks.questions[i];
            qs.push(GeneratedQuestion { id: kq.id, answers: copy_ids(&kq.answers) });
            i = i + 1;
        }
        sets.push(GeneratedQuestionSet { id: ks.id, questions: qs });
        k = k + 1;
    }
    GeneratedExam {
        id: ke.id,
        exam_id: ke.exam_id,
        question_sets: sets,
        deprecated: ke.deprecated,
        version: ke.version,
    }
}

/// Extract the retained answer key of a keyed exam.
pub fn answer_key(ke: &KeyedExam) -> (key: AnswerKey)
    ensures
        is_answer_key(*ke, key),
{
    let mut sets: Vec<KeySet> = Vec::new();
    let mut k: usize = 0;
    while k < ke.question_sets.len()
        invariant
            0 <= k <= ke.question_sets@.len(),
            sets@.len() == k,
            forall|j: int|
                0 <= j < k ==> key_set_matches(ke.question_sets@[j], #[trigger] sets@[j]),
        decreases ke.question_sets@.len() - k,
    {
        let ks = &ke.question_sets[k];
        let mut entries: Vec<KeyEntry> = Vec::new();
        let mut i: usize = 0;
        while i < ks.questions.len()
            invariant
                0 <= i <= ks.questions@.len(),
                entries@.len() == i,
                forall|j: int|
                    0 <= j < i ==> entry_matches(ks.questions@[j], #[trigger] entries@[j]),
            decreases ks.questions@.len() - i,
        {
            let kq = &ks.questions[i];
            entries.push(KeyEntry { question_id: kq.id, correct: copy_ids(&kq.correct) });
            i = i + 1;
        }
        sets.push(KeySet { id: ks.id, entries });
        k = k + 1;
    }
    AnswerKey { generated_exam_id: ke.id, sets }
}

/// Two keyed exams that differ only in their correctness subsets.
pub open spec fn same_skeleton(a: KeyedExam, b: KeyedExam) -> bool {
    &&& a.id == b.id
    &&& a.exam_id == b.exam_id
    &&& a.deprecated == b.deprecated
    &&& a.version == b.version
    &&& a.question_sets@.len() == b.question_sets@.len()
    &&& forall|k: int|
        0 <= k < a.question_sets@.len() ==> {
            let sa = #[trigger] a.question_sets@[k];
            let sb = #[trigger] b.question_sets@[k];
            &&& sa.id == sb.id
            &&& sa.questions@.len() == sb.questions@.len()
            &&& forall|i: int|
                0 <= i < sa.questions@.len() ==> {
                    let qa = #[trigger] sa.questions@[i];
                    let qb = #[trigger] sb.questions@[i];
                    qa.id == qb.id && qa.answers@ == qb.answers@
                }
        }
}

/// Element-wise equality of two client-safe exams.
pub open spec fn generated_exam_eq(x: GeneratedExam, y: GeneratedExam) -> bool {
    &&& x.id == y.id
    &&& x.exam_id == y.exam_id
    &&& x.deprecated == y.deprecated
    &&& x.version == y.version
    &&& x.question_sets@.len() == y.question_sets@.len()
    &&& forall|k: int|
        0 <= k < x.question_sets@.len() ==> {
            let sx = #[trigger] x.question_sets@[k];
            let sy = #[trigger] y.question_sets@[k];
            &&& sx.id == sy.id
            &&& sx.questions@.len() == sy.questions@.len()
            &&& forall|i: int|
                0 <= i < sx.questions@.len() ==> {
                    let qx = #[trigger] sx.questions@[i];
                    let qy = #[trigger] sy.questions@[i];
                    qx.id == qy.id && qx.answers@ == qy.answers@
                }
        }
}

/// The client-safe artifact carries no answer-key information: projecting
/// two keyed exams that differ only in their correctness subsets yields the
/// same client-safe exam. Together with the fact that `GeneratedQuestion`
/// has no correctness field, this is the round-trip guarantee that what a
/// client receives never encodes which answers are correct.
pub proof fn lemma_projection_carries_no_key(
    a: KeyedExam,
    b: KeyedExam,
    pa: GeneratedExam,
    pb: GeneratedExam,
)
    requires
        same_skeleton(a, b),
        is_projection(a, pa),
        is_projection(b, pb),
    ensures
        generated_exam_eq(pa, pb),
{
    assert forall|k: int| 0 <= k < pa.question_sets@.len() implies {
        let sx = #[trigger] pa.question_sets@[k];
        let sy = #[trigger] pb.question_sets@[k];
        &&& sx.id == sy.id
        &&& sx.questions@.len() == sy.questions@.len()
        &&& forall|i: int|
            0 <= i < sx.questions@.len() ==> {
                let qx = #[trigger] sx.questions@[i];
                let qy = #[trigger] sy.questions@[i];
                qx.id == qy.id && qx.answers@ == qy.answers@
            }
    } by {
        assert(set_projects(a.question_sets@[k], pa.question_sets@[k]));
        assert(set_projects(b.question_sets@[k], pb.question_sets@[k]));
        assert forall|i: int| 0 <= i < pa.question_sets@[k].questions@.len() implies {
            let qx = #[trigger] pa.question_sets@[k].questions@[i];
            let qy = #[trigger] pb.question_sets@[k].questions@[i];
            qx.id == qy.id && qx.answers@ == qy.answers@
        } by {
            assert(question_projects(
                a.question_sets@[k].questions@[i],
                pa.question_sets@[k].questions@[i],
            ));
            assert(question_projects(
                b.question_sets@[k].questions@[i],
                pb.question_sets@[k].questions@[i],
            ));
        }
    }
}

} // verus!
