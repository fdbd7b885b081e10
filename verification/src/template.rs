//! Authored question banks and exam templates.
//!
//! A template owns its question sets and configuration, carries a version
//! that rises on structural edits, and is never mutated once a generated
//! instance references it; editing produces a new version instead.
#![verifier::loop_isolation(false)]

use vstd::prelude::*;

use crate::config::ExamConfig;
use crate::config::QuestionType;
use crate::ids::Id;

verus! {

/// One candidate answer of a bank question.
#[derive(Clone, Debug)]
pub struct Answer {
    pub id: Id,
    pub text: String,
    pub is_correct: bool,
}

/// An optional audio attachment of a bank question.
#[derive(Clone, Debug)]
pub struct AudioRef {
    pub captions: Option<String>,
    pub url: String,
}

/// A question bank item: prompt, tag codes, candidate answers and a
/// deprecation flag. Deprecated items are never sampled.
#[derive(Clone, Debug)]
pub struct Question {
    pub id: Id,
    pub text: String,
    pub tags: Vec<u64>,
    pub audio: Option<AudioRef>,
    pub answers: Vec<Answer>,
    pub deprecated: bool,
}

/// An authored question set: a type, optional context text and an ordered
/// list of bank questions.
#[derive(Clone, Debug)]
pub struct QuestionSetTemplate {
    pub id: Id,
    pub question_type: QuestionType,
    pub context: Option<String>,
    pub questions: Vec<Question>,
}

/// A versioned exam template: question sets, configuration, prerequisite
/// template identities and a deprecation flag.
#[derive(Clone, Debug)]
pub struct ExamTemplate {
    pub id: Id,
    pub question_sets: Vec<QuestionSetTemplate>,
    pub config: ExamConfig,
    pub prerequisites: Vec<Id>,
    pub deprecated: bool,
    pub version: u64,
}

/// The identities of the answers of `q` flagged correct, in declared order,
/// over the first `n` answers.
pub open spec fn correct_ids_upto(q: Question, n: int) -> Seq<Id>
    decreases n,
{
    if n <= 0 {
        Seq::empty()
    } else if q.answers@[n - 1].is_correct {
        correct_ids_upto(q, n - 1).push(q.answers@[n - 1].id)
    } else {
        correct_ids_upto(q, n - 1)
    }
}

/// The identities of the answers of `q` flagged incorrect, in declared
/// order, over the first `n` answers.
pub open spec fn incorrect_ids_upto(q: Question, n: int) -> Seq<Id>
    decreases n,
{
    if n <= 0 {
        Seq::empty()
    } else if !q.answers@[n - 1].is_correct {
        incorrect_ids_upto(q, n - 1).push(q.answers@[n - 1].id)
    } else {
        incorrect_ids_upto(q, n - 1)
    }
}

/// All correct answer identities of a bank question.
pub open spec fn correct_ids(q: Question) -> Seq<Id> {
    correct_ids_upto(q, q.answers@.len() as int)
}

/// All incorrect answer identities of a bank question.
pub open spec fn incorrect_ids(q: Question) -> Seq<Id> {
    incorrect_ids_upto(q, q.answers@.len() as int)
}

/// Split a bank question's answer identities by their correctness flag.
pub fn split_answer_ids(q: &Question) -> (r: (Vec<Id>, Vec<Id>))
    ensures
        r.0@ == correct_ids(*q),
        r.1@ == incorrect_ids(*q),
{
    let mut corr: Vec<Id> = Vec::new();
    let mut inc: Vec<Id> = Vec::new();
    let mut i: usize = 0;
    while i < q.answers.len()
        invariant
            0 <= i <= q.answers@.len(),
            corr@ == correct_ids_upto(*q, i as int),
            inc@ == incorrect_ids_upto(*q, i as int),
        decreases q.answers@.len() - i,
    {
        let a = &q.answers[i];
        if a.is_correct {
            corr.push(a.id);
        } else {
            inc.push(a.id);
        }
        i = i + 1;
    }
    (corr, inc)
}

} // verus!
