//! The moderation state machine that gates exam generation.
//!
//! A template moves between review states along fixed edges only, and an
//! approval is keyed to one exact template version: editing a template bumps
//! its version and so silently outdated approvals are never honored.
#![verifier::loop_isolation(false)]

use vstd::prelude::*;

use crate::ids::Id;

verus! {

/// Review state of an exam template version.
#[derive(Clone, Copy, Debug, PartialEq, Eq, Structural)]
pub enum ModerationStatus {
    Pending,
    Approved,
    Rejected,
}

/// The latest review verdict for one template version.
#[derive(Clone, Copy, Debug, PartialEq, Eq, Structural)]
pub struct ModerationRecord {
    pub exam_id: Id,
    pub version: u64,
    pub status: ModerationStatus,
}

/// A moderation update that is not one of the allowed edges.
#[derive(Clone, Copy, Debug, PartialEq, Eq, Structural)]
pub enum ModerationError {
    TransitionRejected,
}

/// The allowed edges: a pending template may be approved or rejected, a
/// rejected one may be resubmitted, and an approved one falls back to
/// pending when the template is edited. Nothing else.
pub open spec fn transition_allowed(from: ModerationStatus, to: ModerationStatus) -> bool {
    ||| (from is Pending && to is Approved)
    ||| (from is Pending && to is Rejected)
    ||| (from is Rejected && to is Pending)
    ||| (from is Approved && to is Pending)
}

/// Apply a moderation transition, refusing every edge outside the state
/// machine.
pub fn transition(
    current: ModerationStatus,
    target: ModerationStatus,
) -> (r: Result<ModerationStatus, ModerationError>)
    ensures
        r == if transition_allowed(current, target) {
            Result::<ModerationStatus, ModerationError>::Ok(target)
        } else {
            Result::<ModerationStatus, ModerationError>::Err(ModerationError::TransitionRejected)
        },
{
    let allowed = match (current, target) {
        (ModerationStatus::Pending, ModerationStatus::Approved) => true,
        (ModerationStatus::Pending, ModerationStatus::Rejected) => true,
        (ModerationStatus::Rejected, ModerationStatus::Pending) => true,
        (ModerationStatus::Approved, ModerationStatus::Pending) => true,
        _ => false,
    };
    if allowed {
        Result::Ok(target)
    } else {
        Result::Err(ModerationError::TransitionRejected)
    }
}

/// A record permits generation only for the exact template version it
/// approved; a stale approval on an older version is not honored.
pub open spec fn approves_generation(
    rec: Option<ModerationRecord>,
    exam_id: Id,
    version: u64,
) -> bool {
    match rec {
        Option::None => false,
        Option::Some(r) => r.exam_id == exam_id && r.version == version && r.status is Approved,
    }
}

/// Whether the latest moderation record permits generating from the given
/// template version.
pub fn record_permits_generation(
    rec: &Option<ModerationRecord>,
    exam_id: Id,
    version: u64,
) -> (b: bool)
    ensures
        b == approves_generation(*rec, exam_id, version),
{
    match rec {
        Option::None => false,
        Option::Some(r) => {
            r.exam_id == exam_id && r.version == version && matches!(r.status, ModerationStatus::Approved)
        },
    }
}

/// Editing a template bumps its version, and the bump invalidates any prior
/// approval: the record for the new version starts over as pending.
pub fn invalidate_on_edit(rec: &ModerationRecord, new_version: u64) -> (r: ModerationRecord)
    ensures
        r.exam_id == rec.exam_id,
        r.version == new_version,
        r.status is Pending,
{
    ModerationRecord { exam_id: rec.exam_id, version: new_version, status: ModerationStatus::Pending }
}

/// Filter parameters of a moderation listing: an optional status to
/// restrict to.
#[derive(Clone, Copy, Debug, PartialEq, Eq, Structural)]
pub struct GetModerationsQuery {
    pub status: Option<ModerationStatus>,
}

/// Whether a record satisfies a listing query.
pub open spec fn matches_query(rec: ModerationRecord, query: GetModerationsQuery) -> bool {
    match query.status {
        Option::None => true,
        Option::Some(s) => rec.status == s,
    }
}

/// The records matching the query among the first `n`, in order.
pub open spec fn filtered_upto(
    records: Seq<ModerationRecord>,
    query: GetModerationsQuery,
    n: int,
) -> Seq<ModerationRecord>
    decreases n,
{
    if n <= 0 {
        Seq::empty()
    } else if matches_query(records[n - 1], query) {
        filtered_upto(records, query, n - 1).push(records[n - 1])
    } else {
        filtered_upto(records, query, n - 1)
    }
}

/// Select the moderation records a listing query asks for, keeping their
/// order.
pub fn filter_moderations(
    records: &Vec<ModerationRecord>,
    query: &GetModerationsQuery,
) -> (r: Vec<ModerationRecord>)
    ensures
        r@ == filtered_upto(records@, *query, records@.len() as int),
{
    let mut r: Vec<ModerationRecord> = Vec::new();
    let mut i: usize = 0;
    while i < records.len()
        invariant
            0 <= i <= records@.len(),
            r@ == filtered_upto(records@, *query, i as int),
        decreases records@.len() - i,
    {
        let rec = records[i];
        let keep = match query.status {
            Option::None => true,
            Option::Some(s) => rec.status == s,
        };
        if keep {
            r.push(rec);
        }
        i = i + 1;
    }
    r
}

} // verus!
